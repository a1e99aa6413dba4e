use stereo_scene::asset_server::{add_asset, AssetCache};
use stereo_scene::frame::{circle_movement, render_frame, FrameAction, FrameInput, InputTracker};
use stereo_scene::gpu::{
    BumpMode, Command, CombineFunc, Eye, MatrixSource, Primitive, RenderError, Source, Uniforms,
    Vec3Bits, DEFAULT_SHININESS_BITS,
};
use stereo_scene::model::colour::Colour;
use stereo_scene::model::material::Material;
use stereo_scene::model::shape::{Shape, ShapeError};
use stereo_scene::model::texture::{texel_data, GPUTexture, Texture, TextureFilterParam};
use stereo_scene::model::Model;

const UNIFORMS: Uniforms = Uniforms { model_matrix: 0, camera_matrix: 4, projection_matrix: 8 };

fn bits(x: f32, y: f32, z: f32) -> Vec3Bits {
    Vec3Bits { x: x.to_bits(), y: y.to_bits(), z: z.to_bits() }
}

fn stage0_add() -> Command {
    Command::Combine {
        stage: 0,
        first: Source::FragmentPrimaryColor,
        second: Source::FragmentSecondaryColor,
        func: CombineFunc::Add,
    }
}

fn stage1_modulate() -> Command {
    Command::Combine {
        stage: 1,
        first: Source::Previous,
        second: Source::Texture0,
        func: CombineFunc::Modulate,
    }
}

fn input() -> FrameInput {
    FrameInput {
        exit: false,
        circle: (0, 0),
        raise: false,
        lower: false,
        touch_down: false,
        touch_held: false,
        touch: (0, 0),
    }
}

#[test]
fn default_shininess_is_thirty() {
    assert_eq!(f32::from_bits(DEFAULT_SHININESS_BITS), 30.0);
}

#[test]
fn textured_material_sets_two_stages_and_bump() {
    let mut cache = AssetCache::new();
    let tex = add_asset(&mut cache, "tex", GPUTexture { handle: 2 });
    let normal = add_asset(&mut cache, "normal", GPUTexture { handle: 5 });
    let mat = Material::new(Some(tex), Some(normal), None, None, None, None, None, None);
    let resolved = mat.resolve(&cache).unwrap();
    let mut out = Vec::new();
    resolved.set_light_env(&mut out);
    resolved.configure_combiner(&mut out);
    assert_eq!(out[0], Command::ConnectShininessLut { exponent_bits: DEFAULT_SHININESS_BITS });
    assert_eq!(out[2], Command::SetNormalMap { mode: BumpMode::AsBump, unit: 1 });
    assert_eq!(
        out[3..].to_vec(),
        vec![Command::BindTexture { handle: 2, unit: 0 }, stage0_add(), stage1_modulate()]
    );
}

#[test]
fn untextured_material_falls_back_to_one_stage() {
    let cache = AssetCache::new();
    let mat = Material::new(None, None, None, None, None, None, None, Some(100.0f32.to_bits()));
    let resolved = mat.resolve(&cache).unwrap();
    let mut out = Vec::new();
    resolved.set_light_env(&mut out);
    resolved.configure_combiner(&mut out);
    assert_eq!(out[0], Command::ConnectShininessLut { exponent_bits: 100.0f32.to_bits() });
    assert_eq!(out[2], Command::SetNormalMap { mode: BumpMode::NotUsed, unit: 0 });
    assert_eq!(
        out[3..].to_vec(),
        vec![Command::ResetCombiner { stage: 0 }, stage0_add(), Command::ResetCombiner { stage: 1 }]
    );
}

#[test]
fn material_colours_are_resolved() {
    let mut cache = AssetCache::new();
    let ambient = add_asset(&mut cache, "ambient", Colour::new(127, 127, 127, 255));
    let red = add_asset(&mut cache, "red", Colour::new(255, 0, 0, 255));
    let mat = Material::new(None, None, Some(ambient), None, None, None, Some(red), None);
    let mut out = Vec::new();
    assert_eq!(mat.set_light_env(&cache, &mut out), Ok(()));
    match out[1] {
        Command::SetMaterial(m) => {
            assert_eq!(m.ambient, Some(Colour::new(127, 127, 127, 255)));
            assert_eq!(m.emission, Some(Colour::new(255, 0, 0, 255)));
            assert_eq!(m.diffuse, None);
        }
        other => panic!("unexpected {:?}", other),
    }
}

#[test]
fn missing_texture_is_reported() {
    let mut other = AssetCache::new();
    let tex = add_asset(&mut other, "tex", GPUTexture { handle: 1 });
    let cache = AssetCache::new();
    let mat = Material::new(Some(tex), None, None, None, None, None, None, None);
    assert_eq!(mat.get_texture(&cache), None);
    assert_eq!(mat.get_texture(&other), Some(&GPUTexture { handle: 1 }));
    assert_eq!(mat.get_normal(&other), None);
    assert_eq!(
        mat.resolve(&cache),
        Err(RenderError::MissingAsset { identity: tex.identity() })
    );
}

#[test]
fn shape_vertex_counts() {
    let mut cache = AssetCache::new();
    let mat = add_asset(&mut cache, "mat", Material::new(None, None, None, None, None, None, None, None));
    assert!(Shape::new(mat, Primitive::TriangleFan, 0, 4).is_ok());
    assert!(Shape::new(mat, Primitive::Triangles, 0, 6).is_ok());
    assert!(Shape::new(mat, Primitive::GeometryPrim, 0, 1).is_ok());
    assert_eq!(
        Shape::new(mat, Primitive::TriangleFan, 0, 2).err(),
        Some(ShapeError::BadVertexCount { primitive: Primitive::TriangleFan, vertex_count: 2 })
    );
    assert_eq!(
        Shape::new(mat, Primitive::Triangles, 0, 4).err(),
        Some(ShapeError::BadVertexCount { primitive: Primitive::Triangles, vertex_count: 4 })
    );
}

#[test]
fn texture_keeps_its_fields() {
    let t = Texture::new(64, 32, vec![1, 2, 3], TextureFilterParam::Linear, TextureFilterParam::Nearest);
    assert_eq!((t.width(), t.height()), (64, 32));
    assert_eq!(t.data(), &[1, 2, 3]);
    assert_eq!(t.mag_filter(), TextureFilterParam::Linear);
    assert_eq!(t.min_filter(), TextureFilterParam::Nearest);
    assert_eq!(GPUTexture { handle: 9 }.bind(0), Command::BindTexture { handle: 9, unit: 0 });
}

#[test]
fn deadzone_boundaries() {
    assert_eq!(circle_movement(0), 0);
    assert_eq!(circle_movement(15), 0);
    assert_eq!(circle_movement(-15), 0);
    assert_eq!(circle_movement(16), 16);
    assert_eq!(circle_movement(-16), -16);
    assert_eq!(circle_movement(156), 156);
}

#[test]
fn exit_terminates() {
    let mut t = InputTracker::new();
    let i = FrameInput { exit: true, touch_down: true, touch: (5, 5), ..input() };
    assert_eq!(t.step(i), FrameAction::Terminate);
    assert_eq!(t.last_touch, (0, 0));
}

#[test]
fn touch_drag_measures_from_press_start() {
    let mut t = InputTracker::new();
    let down = FrameInput { touch_down: true, touch_held: true, touch: (100, 120), ..input() };
    match t.step(down) {
        FrameAction::Update(u) => {
            assert!(u.capture_reference);
            assert_eq!(u.drag, Some((0, 0)));
        }
        FrameAction::Terminate => panic!("terminated"),
    }
    let held = FrameInput { touch_held: true, touch: (130, 100), raise: true, circle: (40, 3), ..input() };
    match t.step(held) {
        FrameAction::Update(u) => {
            assert!(!u.capture_reference);
            assert_eq!(u.drag, Some((30, 20)));
            assert_eq!(u.climb, 1);
            assert_eq!((u.move_x, u.move_y), (40, 0));
        }
        FrameAction::Terminate => panic!("terminated"),
    }
    assert_eq!(t.last_touch, (100, 120));
}

#[test]
fn one_frame_draws_both_shapes_per_eye() {
    let mut cache = AssetCache::new();
    let tex = add_asset(&mut cache, "peach_tex", GPUTexture { handle: 1 });
    let m1 = add_asset(&mut cache, "peach_mat", Material::new(Some(tex), None, None, None, None, None, None, None));
    let m2 = add_asset(&mut cache, "plain_mat", Material::new(None, None, None, None, None, None, None, None));
    let s1 = add_asset(&mut cache, "front_square", Shape::new(m1, Primitive::TriangleFan, 10, 4).unwrap());
    let s2 = add_asset(&mut cache, "back_square", Shape::new(m2, Primitive::TriangleFan, 11, 4).unwrap());
    let model = Model::new(bits(0.0, 0.0, -4.0), bits(0.0, 0.0, 0.0), vec![s1, s2]);

    let mut out = Vec::new();
    assert_eq!(model.draw(&cache, &UNIFORMS, &mut out), Ok(()));
    let model_bind = Command::BindUniform {
        index: 0,
        matrix: MatrixSource::Model { pos: bits(0.0, 0.0, -4.0), rot: bits(0.0, 0.0, 0.0) },
    };
    assert_eq!(out[0], model_bind);
    assert_eq!(out.iter().filter(|c| matches!(c, Command::BindUniform { .. })).count(), 1);
    let draws: Vec<usize> = (0..out.len()).filter(|&i| matches!(out[i], Command::DrawArrays { .. })).collect();
    assert_eq!(draws.len(), 2);
    assert_eq!(out[draws[0] - 2], Command::AttachBuffer { buffer: 10 });
    assert_eq!(out[draws[1] - 2], Command::AttachBuffer { buffer: 11 });
    let first = &out[1..draws[0]];
    assert!(first.contains(&stage1_modulate()));
    assert!(first.contains(&Command::BindTexture { handle: 1, unit: 0 }));
    let second = &out[draws[0] + 1..draws[1]];
    assert!(second.contains(&Command::ResetCombiner { stage: 0 }));
    assert!(second.contains(&stage0_add()));
    assert!(!second.contains(&stage1_modulate()));
    assert!(second.contains(&Command::ResetCombiner { stage: 1 }));
    assert!(!second.iter().any(|c| matches!(c, Command::BindTexture { .. })));
    let reset1 = second.iter().position(|c| *c == Command::ResetCombiner { stage: 1 }).unwrap();
    let add0 = second.iter().position(|c| *c == stage0_add()).unwrap();
    assert!(add0 < reset1);

    let frame = render_frame(&cache, &model, &UNIFORMS).unwrap();
    assert_eq!(frame[0], Command::BindUniform { index: 4, matrix: MatrixSource::Camera });
    assert_eq!(frame[1], Command::UpdateLightPosition);
    assert_eq!(frame[2], Command::ClearTarget(Eye::Left));
    assert_eq!(frame[3], Command::SelectTarget(Eye::Left));
    assert_eq!(frame[4], Command::BindUniform { index: 8, matrix: MatrixSource::Projection(Eye::Left) });
    assert_eq!(frame[5..5 + out.len()].to_vec(), out);
    let right = 5 + out.len();
    assert_eq!(frame[right], Command::ClearTarget(Eye::Right));
    assert_eq!(frame[right + 2], Command::BindUniform { index: 8, matrix: MatrixSource::Projection(Eye::Right) });
    assert_eq!(frame[right + 3..].to_vec(), out);
    assert_eq!(frame.len(), 2 * (3 + out.len()) + 2);
}

#[test]
fn frame_with_missing_shape_fails() {
    let mut other = AssetCache::new();
    let mat = add_asset(&mut other, "mat", Material::new(None, None, None, None, None, None, None, None));
    let shape = add_asset(&mut other, "shape", Shape::new(mat, Primitive::TriangleFan, 0, 3).unwrap());
    let cache = AssetCache::new();
    let model = Model::new(bits(0.0, 0.0, 0.0), bits(0.0, 0.0, 0.0), vec![shape]);
    assert_eq!(
        render_frame(&cache, &model, &UNIFORMS).err(),
        Some(RenderError::MissingAsset { identity: shape.identity() })
    );
}

#[test]
fn texel_data_skips_header() {
    assert_eq!(texel_data(&[9, 9, 9, 9, 1, 2]), Some(&[1u8, 2][..]));
    assert_eq!(texel_data(&[9, 9, 9, 9]), Some(&[][..]));
    assert_eq!(texel_data(&[9, 9, 9]), None);
}

#[test]
fn failed_model_draw_leaves_commands_unchanged() {
    let mut other = AssetCache::new();
    let mat = add_asset(&mut other, "mat", Material::new(None, None, None, None, None, None, None, None));
    let missing = add_asset(&mut other, "missing", Shape::new(mat, Primitive::TriangleFan, 0, 3).unwrap());
    let mut cache = AssetCache::new();
    let mat = add_asset(&mut cache, "mat", Material::new(None, None, None, None, None, None, None, None));
    let present = add_asset(&mut cache, "present", Shape::new(mat, Primitive::TriangleFan, 0, 3).unwrap());
    let model = Model::new(bits(0.0, 0.0, 0.0), bits(0.0, 0.0, 0.0), vec![present, missing]);
    let mut out = vec![Command::UpdateLightPosition];
    assert_eq!(
        model.draw(&cache, &UNIFORMS, &mut out),
        Err(RenderError::MissingAsset { identity: missing.identity() })
    );
    assert_eq!(out, vec![Command::UpdateLightPosition]);
}
