use vstd::prelude::*;

pub mod colour;
pub mod material;
pub mod shape;
pub mod texture;

use crate::asset_server::{lookup, retrieve_asset, AssetCache, AssetKey, AssetValue};
use crate::gpu::{Command, MatrixSource, RenderError, Uniforms, Vec3Bits};

use shape::{shape_commands, Shape};

verus! {

/// The commands of the shapes behind `keys`, in order; or the first key
/// that does not resolve.
pub open spec fn shapes_commands(m: Map<u64, AssetValue>, keys: Seq<AssetKey<Shape>>) -> Result<Seq<Command>, RenderError>
    decreases keys.len(),
{
    if keys.len() == 0 {
        Ok(Seq::empty())
    } else {
        match shapes_commands(m, keys.drop_last()) {
            Err(e) => Err(e),
            Ok(prefix) => {
                let k = keys.last();
                match lookup::<Shape>(m, k.spec_identity()) {
                    None => Err(RenderError::MissingAsset { identity: k.spec_identity() }),
                    Some(s) => match shape_commands(m, s) {
                        Err(e) => Err(e),
                        Ok(c) => Ok(prefix + c),
                    },
                }
            },
        }
    }
}

/// The command that binds a model's matrix.
pub open spec fn model_matrix_command(u: Uniforms, pos: Vec3Bits, rot: Vec3Bits) -> Command {
    Command::BindUniform { index: u.model_matrix, matrix: MatrixSource::Model { pos, rot } }
}

/// The commands that draw `model`: one bind of its matrix, then its shapes in
/// list order.
pub open spec fn model_commands(m: Map<u64, AssetValue>, model: Model, u: Uniforms) -> Result<Seq<Command>, RenderError> {
    match shapes_commands(m, model.spec_shapes()) {
        Err(e) => Err(e),
        Ok(c) => Ok(seq![model_matrix_command(u, model.spec_pos(), model.spec_rot())] + c),
    }
}

/// A group of shapes drawn with one transform: a position and a rotation
/// (yaw, pitch, roll), in single-precision bits.
#[derive(Debug)]
pub struct Model {
    pub pos: Vec3Bits,
    pub rot: Vec3Bits,
    shapes: Vec<AssetKey<Shape>>,
}

impl Model {
    pub closed spec fn spec_pos(&self) -> Vec3Bits {
        self.pos
    }

    pub closed spec fn spec_rot(&self) -> Vec3Bits {
        self.rot
    }

    pub closed spec fn spec_shapes(&self) -> Seq<AssetKey<Shape>> {
        self.shapes@
    }

    pub fn new(pos: Vec3Bits, rot: Vec3Bits, shapes: Vec<AssetKey<Shape>>) -> (m: Self)
        ensures
            m.spec_pos() == pos,
            m.spec_rot() == rot,
            m.spec_shapes() == shapes@,
    {
        Model { pos, rot, shapes }
    }

    /// Appends the commands that draw the model.
    pub fn draw(&self, cache: &AssetCache, uniforms: &Uniforms, out: &mut Vec<Command>) -> (r: Result<(), RenderError>)
        ensures
            match model_commands(cache@, *self, *uniforms) {
                Ok(c) => r is Ok && final(out)@ == old(out)@ + c,
                Err(e) => r == Err::<(), RenderError>(e) && final(out)@ == old(out)@,
            },
    {
        let ghost start = out@;
        let start_len = out.len();
        out.push(
            Command::BindUniform {
                index: uniforms.model_matrix,
                matrix: MatrixSource::Model { pos: self.pos, rot: self.rot },
            },
        );
        let mut i: usize = 0;
        while i < self.shapes.len()
            invariant
                0 <= i <= self.shapes@.len(),
                start_len == start.len(),
                start == old(out)@,
                match shapes_commands(cache@, self.shapes@.subrange(0, i as int)) {
                    Ok(c) => out@ == start + seq![model_matrix_command(*uniforms, self.pos, self.rot)] + c,
                    Err(_) => false,
                },
            decreases self.shapes@.len() - i,
        {
            let key = self.shapes[i];
            proof {
                assert(self.shapes@.subrange(0, i + 1).drop_last() =~= self.shapes@.subrange(0, i as int));
            }
            let shape = match retrieve_asset(cache, &key) {
                Some(s) => s,
                None => {
                    proof {
                        lemma_shapes_error_extends(cache@, self.shapes@, i + 1);
                        assert(out@.subrange(0, start_len as int) =~= start);
                    }
                    out.truncate(start_len);
                    return Err(RenderError::MissingAsset { identity: key.identity() });
                },
            };
            match shape.draw(cache, out) {
                Ok(()) => {},
                Err(e) => {
                    proof {
                        lemma_shapes_error_extends(cache@, self.shapes@, i + 1);
                        assert(out@.subrange(0, start_len as int) =~= start);
                    }
                    out.truncate(start_len);
                    return Err(e);
                },
            }
            proof {
                let c = shapes_commands(cache@, self.shapes@.subrange(0, i as int))->Ok_0;
                let d = shape_commands(cache@, *shape)->Ok_0;
                assert(out@ =~= start + seq![model_matrix_command(*uniforms, self.pos, self.rot)] + (c + d));
            }
            i = i + 1;
        }
        assert(self.shapes@.subrange(0, self.shapes@.len() as int) =~= self.shapes@);
        Ok(())
    }
}

/// How many commands of `s` satisfy `p`.
pub open spec fn count_where(s: Seq<Command>, p: spec_fn(Command) -> bool) -> nat
    decreases s.len(),
{
    if s.len() == 0 {
        0
    } else {
        count_where(s.drop_last(), p) + if p(s.last()) {
            1nat
        } else {
            0nat
        }
    }
}

/// Whether a command is a draw call.
pub open spec fn is_draw(c: Command) -> bool {
    c is DrawArrays
}

/// Whether a command binds a uniform.
pub open spec fn is_uniform_bind(c: Command) -> bool {
    c is BindUniform
}

proof fn lemma_count_concat(a: Seq<Command>, b: Seq<Command>, p: spec_fn(Command) -> bool)
    ensures
        count_where(a + b, p) == count_where(a, p) + count_where(b, p),
    decreases b.len(),
{
    if b.len() == 0 {
        assert(a + b =~= a);
    } else {
        lemma_count_concat(a, b.drop_last(), p);
        assert((a + b).drop_last() =~= a + b.drop_last());
    }
}

proof fn lemma_shape_counts(m: Map<u64, AssetValue>, s: Shape)
    requires
        shape_commands(m, s) is Ok,
    ensures
        count_where(shape_commands(m, s)->Ok_0, |c: Command| is_draw(c)) == 1,
        count_where(shape_commands(m, s)->Ok_0, |c: Command| is_uniform_bind(c)) == 0,
{
    let mat = lookup::<material::Material>(m, s.spec_material().spec_identity())->Some_0;
    let r = material::resolve_spec(m, mat)->Ok_0;
    let light = material::light_env_commands(r);
    let comb = material::combiner_commands(r);
    let tail = seq![
        Command::AttachBuffer { buffer: s.spec_buffer() },
        Command::SetAttrInfo { buffer: s.spec_buffer() },
        Command::DrawArrays { primitive: s.spec_primitive(), vertex_count: s.spec_vertex_count() },
    ];
    let draw = |c: Command| is_draw(c);
    let bind = |c: Command| is_uniform_bind(c);
    lemma_count_concat(light + comb, tail, draw);
    lemma_count_concat(light, comb, draw);
    lemma_count_concat(light + comb, tail, bind);
    lemma_count_concat(light, comb, bind);
    reveal_with_fuel(count_where, 4);
    assert(light.drop_last().drop_last().drop_last() =~= Seq::<Command>::empty());
    assert(tail.drop_last().drop_last().drop_last() =~= Seq::<Command>::empty());
    assert(comb.drop_last().drop_last().drop_last() =~= Seq::<Command>::empty());
}

proof fn lemma_shapes_counts(m: Map<u64, AssetValue>, keys: Seq<AssetKey<Shape>>)
    requires
        shapes_commands(m, keys) is Ok,
    ensures
        count_where(shapes_commands(m, keys)->Ok_0, |c: Command| is_draw(c)) == keys.len(),
        count_where(shapes_commands(m, keys)->Ok_0, |c: Command| is_uniform_bind(c)) == 0,
    decreases keys.len(),
{
    if keys.len() > 0 {
        lemma_shapes_counts(m, keys.drop_last());
        let s = lookup::<Shape>(m, keys.last().spec_identity())->Some_0;
        lemma_shape_counts(m, s);
        let prefix = shapes_commands(m, keys.drop_last())->Ok_0;
        let c = shape_commands(m, s)->Ok_0;
        lemma_count_concat(prefix, c, |c: Command| is_draw(c));
        lemma_count_concat(prefix, c, |c: Command| is_uniform_bind(c));
    }
}

/// Drawing a model binds one uniform, its model matrix, before anything
/// else, and issues exactly one draw call per shape.
pub proof fn lemma_model_draw_calls(m: Map<u64, AssetValue>, model: Model, u: Uniforms)
    requires
        model_commands(m, model, u) is Ok,
    ensures
        ({
            let c = model_commands(m, model, u)->Ok_0;
            &&& c[0] == model_matrix_command(u, model.spec_pos(), model.spec_rot())
            &&& count_where(c, |c: Command| is_uniform_bind(c)) == 1
            &&& count_where(c, |c: Command| is_draw(c)) == model.spec_shapes().len()
        }),
{
    let head = seq![model_matrix_command(u, model.spec_pos(), model.spec_rot())];
    let rest = shapes_commands(m, model.spec_shapes())->Ok_0;
    lemma_shapes_counts(m, model.spec_shapes());
    lemma_count_concat(head, rest, |c: Command| is_draw(c));
    lemma_count_concat(head, rest, |c: Command| is_uniform_bind(c));
    reveal_with_fuel(count_where, 2);
    assert(head.drop_last() =~= Seq::<Command>::empty());
}

/// An error on a prefix of the keys is the error of the whole list.
proof fn lemma_shapes_error_extends(m: Map<u64, AssetValue>, keys: Seq<AssetKey<Shape>>, n: int)
    requires
        0 <= n <= keys.len(),
        shapes_commands(m, keys.subrange(0, n)) is Err,
    ensures
        shapes_commands(m, keys) == shapes_commands(m, keys.subrange(0, n)),
    decreases keys.len() - n,
{
    if n < keys.len() {
        let next = keys.subrange(0, n + 1);
        assert(next.drop_last() =~= keys.subrange(0, n));
        lemma_shapes_error_extends(m, keys, n + 1);
    } else {
        assert(keys.subrange(0, n) =~= keys);
    }
}

} // verus!
