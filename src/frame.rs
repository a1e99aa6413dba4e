//! One frame of the main loop: what the input asks for, and the commands
//! that draw the model once for each eye.

use vstd::prelude::*;

use crate::asset_server::{AssetCache, AssetValue};
use crate::gpu::{Command, Eye, MatrixSource, RenderError, Uniforms};
use crate::model::{model_commands, Model};

verus! {

/// Circle-pad readings of at most this magnitude are treated as rest.
pub const CIRCLE_DEADZONE: i16 = 15;

/// A circle-pad axis reading with the dead zone taken out: zero within it,
/// the reading itself beyond it.
pub open spec fn deadzone_spec(v: int) -> int {
    if -(CIRCLE_DEADZONE as int) <= v <= CIRCLE_DEADZONE as int {
        0
    } else {
        v
    }
}

/// The movement that a circle-pad axis reading asks for, in thousandths of a
/// unit.
pub fn circle_movement(v: i16) -> (r: i16)
    ensures
        r as int == deadzone_spec(v as int),
{
    if -CIRCLE_DEADZONE <= v && v <= CIRCLE_DEADZONE {
        0
    } else {
        v
    }
}

/// The dead zone keeps the order of readings, and every reading beyond it
/// moves the camera by a nonzero amount of its own sign.
pub proof fn lemma_deadzone(a: int, b: int)
    ensures
        -(CIRCLE_DEADZONE as int) <= a <= CIRCLE_DEADZONE as int ==> deadzone_spec(a) == 0,
        a > CIRCLE_DEADZONE as int ==> deadzone_spec(a) == a && a > 0,
        a < -(CIRCLE_DEADZONE as int) ==> deadzone_spec(a) == a && a < 0,
        a <= b ==> deadzone_spec(a) <= deadzone_spec(b),
{
}

/// The inputs of one frame.
#[derive(Debug, Clone, Copy, PartialEq, Eq)]
pub struct FrameInput {
    /// The exit control was pressed this frame.
    pub exit: bool,
    /// The circle-pad position.
    pub circle: (i16, i16),
    /// The control that raises the camera is held.
    pub raise: bool,
    /// The control that lowers the camera is held.
    pub lower: bool,
    /// The touch screen was touched this frame.
    pub touch_down: bool,
    /// The touch screen is touched.
    pub touch_held: bool,
    /// The touch position, in screen pixels.
    pub touch: (u16, u16),
}

/// What the camera should do this frame.
#[derive(Debug, Clone, Copy, PartialEq, Eq)]
pub struct CameraUpdate {
    /// Sideways and forward movement, in thousandths of a unit.
    pub move_x: i16,
    pub move_y: i16,
    /// Vertical steps: `1` up, `-1` down, `0` neither.
    pub climb: i8,
    /// The current camera angles become the reference of a new drag.
    pub capture_reference: bool,
    /// The drag from the reference touch, in pixels (right, up).
    pub drag: Option<(i32, i32)>,
}

/// The decision of one frame.
#[derive(Debug, Clone, Copy, PartialEq, Eq)]
pub enum FrameAction {
    Terminate,
    Update(CameraUpdate),
}

/// The drag from `start` to `now`: pixels right and pixels up.
pub open spec fn drag_spec(start: (u16, u16), now: (u16, u16)) -> (i32, i32) {
    ((now.0 - start.0) as i32, (start.1 - now.1) as i32)
}

/// The decision for `input` when the reference touch is `last_touch`, and
/// the reference touch after it.
pub open spec fn step_spec(last_touch: (u16, u16), input: FrameInput) -> (FrameAction, (u16, u16)) {
    if input.exit {
        (FrameAction::Terminate, last_touch)
    } else {
        let reference = if input.touch_down {
            input.touch
        } else {
            last_touch
        };
        (
            FrameAction::Update(
                CameraUpdate {
                    move_x: deadzone_spec(input.circle.0 as int) as i16,
                    move_y: deadzone_spec(input.circle.1 as int) as i16,
                    climb: ((if input.raise {
                        1int
                    } else {
                        0
                    }) - (if input.lower {
                        1int
                    } else {
                        0
                    })) as i8,
                    capture_reference: input.touch_down,
                    drag: if input.touch_held {
                        Some(drag_spec(reference, input.touch))
                    } else {
                        None
                    },
                },
            ),
            reference,
        )
    }
}

/// The input state kept between frames: the touch sample taken when the
/// screen was last touched down.
#[derive(Debug, Clone, Copy, PartialEq, Eq)]
pub struct InputTracker {
    pub last_touch: (u16, u16),
}

impl InputTracker {
    pub fn new() -> (r: Self)
        ensures
            r.last_touch == (0u16, 0u16),
    {
        InputTracker { last_touch: (0, 0) }
    }

    /// Decides what the frame does with `input`. A touch-down takes a new
    /// reference sample; a held touch drags from the reference.
    pub fn step(&mut self, input: FrameInput) -> (r: FrameAction)
        ensures
            (r, final(self).last_touch) == step_spec(old(self).last_touch, input),
    {
        if input.exit {
            return FrameAction::Terminate;
        }
        if input.touch_down {
            self.last_touch = input.touch;
        }
        let climb: i8 = if input.raise && !input.lower {
            1
        } else if input.lower && !input.raise {
            -1
        } else {
            0
        };
        let drag = if input.touch_held {
            let dx: i32 = input.touch.0 as i32 - self.last_touch.0 as i32;
            let dy: i32 = self.last_touch.1 as i32 - input.touch.1 as i32;
            Some((dx, dy))
        } else {
            None
        };
        FrameAction::Update(
            CameraUpdate {
                move_x: circle_movement(input.circle.0),
                move_y: circle_movement(input.circle.1),
                climb,
                capture_reference: input.touch_down,
                drag,
            },
        )
    }
}

/// The commands that draw one eye: clear and select its target, bind its
/// projection, then the model.
pub open spec fn eye_commands(u: Uniforms, eye: Eye, model: Seq<Command>) -> Seq<Command> {
    seq![
        Command::ClearTarget(eye),
        Command::SelectTarget(eye),
        Command::BindUniform { index: u.projection_matrix, matrix: MatrixSource::Projection(eye) },
    ] + model
}

/// The commands of one frame: bind the camera, move the light into camera
/// space, then draw the model for the left eye and for the right.
pub open spec fn frame_commands(m: Map<u64, AssetValue>, model: Model, u: Uniforms) -> Result<Seq<Command>, RenderError> {
    match model_commands(m, model, u) {
        Err(e) => Err(e),
        Ok(c) => Ok(
            seq![
                Command::BindUniform { index: u.camera_matrix, matrix: MatrixSource::Camera },
                Command::UpdateLightPosition,
            ] + eye_commands(u, Eye::Left, c) + eye_commands(u, Eye::Right, c),
        ),
    }
}

fn begin_eye(u: &Uniforms, eye: Eye, out: &mut Vec<Command>)
    ensures
        final(out)@ == old(out)@ + seq![
            Command::ClearTarget(eye),
            Command::SelectTarget(eye),
            Command::BindUniform { index: u.projection_matrix, matrix: MatrixSource::Projection(eye) },
        ],
{
    out.push(Command::ClearTarget(eye));
    out.push(Command::SelectTarget(eye));
    out.push(Command::BindUniform { index: u.projection_matrix, matrix: MatrixSource::Projection(eye) });
    assert(final(out)@ =~= old(out)@ + seq![
        Command::ClearTarget(eye),
        Command::SelectTarget(eye),
        Command::BindUniform { index: u.projection_matrix, matrix: MatrixSource::Projection(eye) },
    ]);
}

/// The commands that draw one frame of `model`.
pub fn render_frame(cache: &AssetCache, model: &Model, uniforms: &Uniforms) -> (r: Result<Vec<Command>, RenderError>)
    ensures
        match frame_commands(cache@, *model, *uniforms) {
            Ok(c) => r is Ok && r->Ok_0@ == c,
            Err(e) => r == Err::<Vec<Command>, RenderError>(e),
        },
{
    let mut out: Vec<Command> = Vec::new();
    out.push(Command::BindUniform { index: uniforms.camera_matrix, matrix: MatrixSource::Camera });
    out.push(Command::UpdateLightPosition);
    let ghost head = out@;
    begin_eye(uniforms, Eye::Left, &mut out);
    let ghost left = out@;
    match model.draw(cache, uniforms, &mut out) {
        Ok(()) => {},
        Err(e) => {
            return Err(e);
        },
    }
    let ghost after_left = out@;
    begin_eye(uniforms, Eye::Right, &mut out);
    match model.draw(cache, uniforms, &mut out) {
        Ok(()) => {},
        Err(e) => {
            return Err(e);
        },
    }
    proof {
        let c = model_commands(cache@, *model, *uniforms)->Ok_0;
        assert(out@ =~= seq![
            Command::BindUniform { index: uniforms.camera_matrix, matrix: MatrixSource::Camera },
            Command::UpdateLightPosition,
        ] + eye_commands(*uniforms, Eye::Left, c) + eye_commands(*uniforms, Eye::Right, c));
    }
    Ok(out)
}

} // verus!
