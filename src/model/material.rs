use vstd::prelude::*;

use crate::asset_server::{lookup, retrieve_asset, Asset, AssetCache, AssetKey};
use crate::gpu::{
    BumpMode, Command, CombineFunc, LightMaterial, RenderError, Source, DEFAULT_SHININESS_BITS,
    NORMAL_UNIT, TEXTURE_UNIT,
};

use super::colour::Colour;
use super::texture::GPUTexture;

verus! {

/// How a surface responds to light: optional keys to its texture, its normal
/// map and five lighting colours, and an optional specular exponent given as
/// single-precision bits.
#[derive(Debug)]
pub struct Material {
    texture: Option<AssetKey<GPUTexture>>,
    normal: Option<AssetKey<GPUTexture>>,
    ambient: Option<AssetKey<Colour>>,
    diffuse: Option<AssetKey<Colour>>,
    specular0: Option<AssetKey<Colour>>,
    specular1: Option<AssetKey<Colour>>,
    emission: Option<AssetKey<Colour>>,
    shininess: Option<u32>,
}

/// A material whose keys have been looked up.
#[derive(Debug, Clone, Copy, PartialEq, Eq, Structural)]
pub struct ResolvedMaterial {
    pub texture: Option<GPUTexture>,
    pub normal: Option<GPUTexture>,
    pub colours: LightMaterial,
    pub shininess_bits: u32,
}

/// What an optional key resolves to: nothing for no key, the value for a key
/// that resolves, and an error naming the identity of one that does not.
pub open spec fn resolve_key<T: Asset>(m: Map<u64, crate::asset_server::AssetValue>, k: Option<AssetKey<T>>) -> Result<Option<T>, RenderError> {
    match k {
        None => Ok(None),
        Some(k) => match lookup::<T>(m, k.spec_identity()) {
            Some(v) => Ok(Some(v)),
            None => Err(RenderError::MissingAsset { identity: k.spec_identity() }),
        },
    }
}

/// The resolved form of `mat` in the cache contents `m`, or the first key, in
/// field order, that does not resolve.
pub open spec fn resolve_spec(m: Map<u64, crate::asset_server::AssetValue>, mat: Material) -> Result<ResolvedMaterial, RenderError> {
    match (
        resolve_key(m, mat.spec_texture()),
        resolve_key(m, mat.spec_normal()),
        resolve_key(m, mat.spec_ambient()),
        resolve_key(m, mat.spec_diffuse()),
        resolve_key(m, mat.spec_specular0()),
        resolve_key(m, mat.spec_specular1()),
        resolve_key(m, mat.spec_emission()),
    ) {
        (Err(e), _, _, _, _, _, _) => Err(e),
        (_, Err(e), _, _, _, _, _) => Err(e),
        (_, _, Err(e), _, _, _, _) => Err(e),
        (_, _, _, Err(e), _, _, _) => Err(e),
        (_, _, _, _, Err(e), _, _) => Err(e),
        (_, _, _, _, _, Err(e), _) => Err(e),
        (_, _, _, _, _, _, Err(e)) => Err(e),
        (
            Ok(texture),
            Ok(normal),
            Ok(ambient),
            Ok(diffuse),
            Ok(specular0),
            Ok(specular1),
            Ok(emission),
        ) => Ok(
            ResolvedMaterial {
                texture,
                normal,
                colours: LightMaterial { ambient, diffuse, specular0, specular1, emission },
                shininess_bits: match mat.spec_shininess() {
                    Some(s) => s,
                    None => DEFAULT_SHININESS_BITS,
                },
            },
        ),
    }
}

/// The commands that program the lighting unit for a resolved material: the
/// specular table, the colours, then bump mapping, on exactly when there is a
/// normal map.
pub open spec fn light_env_commands(r: ResolvedMaterial) -> Seq<Command> {
    seq![
        Command::ConnectShininessLut { exponent_bits: r.shininess_bits },
        Command::SetMaterial(r.colours),
        if r.normal.is_some() {
            Command::SetNormalMap { mode: BumpMode::AsBump, unit: NORMAL_UNIT }
        } else {
            Command::SetNormalMap { mode: BumpMode::NotUsed, unit: 0 }
        },
    ]
}

/// Stage 0 adding the primary and secondary fragment colours.
pub open spec fn add_fragment_colours() -> Command {
    Command::Combine {
        stage: 0,
        first: Source::FragmentPrimaryColor,
        second: Source::FragmentSecondaryColor,
        func: CombineFunc::Add,
    }
}

/// Stage 1 modulating the previous stage by texture unit 0.
pub open spec fn modulate_by_texture() -> Command {
    Command::Combine {
        stage: 1,
        first: Source::Previous,
        second: Source::Texture0,
        func: CombineFunc::Modulate,
    }
}

/// The commands that bind a resolved material's texture and set the texture
/// combiner: two stages with a texture; without one, stage 0 alone, with
/// stage 1 reset so that no stage a previous draw set applies a texture.
pub open spec fn combiner_commands(r: ResolvedMaterial) -> Seq<Command> {
    match r.texture {
        Some(t) => seq![
            Command::BindTexture { handle: t.handle, unit: TEXTURE_UNIT },
            add_fragment_colours(),
            modulate_by_texture(),
        ],
        None => seq![
            Command::ResetCombiner { stage: 0 },
            add_fragment_colours(),
            Command::ResetCombiner { stage: 1 },
        ],
    }
}

/// A resolved material without a texture gets the one-stage combiner, which
/// resets stage 1 and reads no texture; one with a texture binds it to unit 0
/// and gets the two-stage combiner. Bump mapping is on exactly when there is
/// a normal map, read from its unit.
pub proof fn lemma_combiner_by_texture(r: ResolvedMaterial)
    ensures
        r.texture is None ==> combiner_commands(r) == seq![
            Command::ResetCombiner { stage: 0 },
            add_fragment_colours(),
            Command::ResetCombiner { stage: 1 },
        ],
        r.texture is None ==> forall|i: int|
            0 <= i < combiner_commands(r).len() ==> !(combiner_commands(r)[i] is BindTexture)
                && combiner_commands(r)[i] != modulate_by_texture(),
        r.texture is Some ==> combiner_commands(r) == seq![
            Command::BindTexture { handle: r.texture->Some_0.handle, unit: TEXTURE_UNIT },
            add_fragment_colours(),
            modulate_by_texture(),
        ],
        light_env_commands(r)[2] == (if r.normal is Some {
            Command::SetNormalMap { mode: BumpMode::AsBump, unit: NORMAL_UNIT }
        } else {
            Command::SetNormalMap { mode: BumpMode::NotUsed, unit: 0 }
        }),
{
}

/// Of a material whose keys resolve (one that does not yields an error and
/// no commands): without a texture key it sets the one-stage combiner, with
/// one it binds the texture and sets two stages; bump mapping is on exactly
/// when the material has a normal-map key.
pub proof fn lemma_material_fallback(m: Map<u64, crate::asset_server::AssetValue>, mat: Material)
    requires
        resolve_spec(m, mat) is Ok,
    ensures
        ({
            let r = resolve_spec(m, mat)->Ok_0;
            &&& mat.spec_texture() is None ==> combiner_commands(r) == seq![
                Command::ResetCombiner { stage: 0 },
                add_fragment_colours(),
                Command::ResetCombiner { stage: 1 },
            ]
            &&& mat.spec_texture() is Some ==> combiner_commands(r) == seq![
                Command::BindTexture { handle: r.texture->Some_0.handle, unit: TEXTURE_UNIT },
                add_fragment_colours(),
                modulate_by_texture(),
            ]
            &&& mat.spec_normal() is None ==> light_env_commands(r)[2] == (Command::SetNormalMap {
                mode: BumpMode::NotUsed,
                unit: 0,
            })
            &&& mat.spec_normal() is Some ==> light_env_commands(r)[2] == (Command::SetNormalMap {
                mode: BumpMode::AsBump,
                unit: NORMAL_UNIT,
            })
        }),
{
}

fn resolve_one<T: Asset + Copy>(cache: &AssetCache, k: &Option<AssetKey<T>>) -> (r: Result<Option<T>, RenderError>)
    ensures
        r == resolve_key(cache@, *k),
{
    match k {
        None => Ok(None),
        Some(key) => match retrieve_asset(cache, key) {
            Some(v) => Ok(Some(*v)),
            None => Err(RenderError::MissingAsset { identity: key.identity() }),
        },
    }
}

impl ResolvedMaterial {
    /// Appends the lighting commands of this material.
    pub fn set_light_env(&self, out: &mut Vec<Command>)
        ensures
            final(out)@ == old(out)@ + light_env_commands(*self),
    {
        out.push(Command::ConnectShininessLut { exponent_bits: self.shininess_bits });
        out.push(Command::SetMaterial(self.colours));
        if self.normal.is_some() {
            out.push(Command::SetNormalMap { mode: BumpMode::AsBump, unit: NORMAL_UNIT });
        } else {
            out.push(Command::SetNormalMap { mode: BumpMode::NotUsed, unit: 0 });
        }
        assert(final(out)@ =~= old(out)@ + light_env_commands(*self));
    }

    /// Appends the texture binding and combiner commands of this material.
    pub fn configure_combiner(&self, out: &mut Vec<Command>)
        ensures
            final(out)@ == old(out)@ + combiner_commands(*self),
    {
        match self.texture {
            Some(t) => {
                out.push(t.bind(TEXTURE_UNIT));
                out.push(
                    Command::Combine {
                        stage: 0,
                        first: Source::FragmentPrimaryColor,
                        second: Source::FragmentSecondaryColor,
                        func: CombineFunc::Add,
                    },
                );
                out.push(
                    Command::Combine {
                        stage: 1,
                        first: Source::Previous,
                        second: Source::Texture0,
                        func: CombineFunc::Modulate,
                    },
                );
            },
            None => {
                out.push(Command::ResetCombiner { stage: 0 });
                out.push(
                    Command::Combine {
                        stage: 0,
                        first: Source::FragmentPrimaryColor,
                        second: Source::FragmentSecondaryColor,
                        func: CombineFunc::Add,
                    },
                );
                out.push(Command::ResetCombiner { stage: 1 });
            },
        }
        assert(final(out)@ =~= old(out)@ + combiner_commands(*self));
    }
}

impl Material {
    pub closed spec fn spec_texture(&self) -> Option<AssetKey<GPUTexture>> {
        self.texture
    }

    pub closed spec fn spec_normal(&self) -> Option<AssetKey<GPUTexture>> {
        self.normal
    }

    pub closed spec fn spec_ambient(&self) -> Option<AssetKey<Colour>> {
        self.ambient
    }

    pub closed spec fn spec_diffuse(&self) -> Option<AssetKey<Colour>> {
        self.diffuse
    }

    pub closed spec fn spec_specular0(&self) -> Option<AssetKey<Colour>> {
        self.specular0
    }

    pub closed spec fn spec_specular1(&self) -> Option<AssetKey<Colour>> {
        self.specular1
    }

    pub closed spec fn spec_emission(&self) -> Option<AssetKey<Colour>> {
        self.emission
    }

    pub closed spec fn spec_shininess(&self) -> Option<u32> {
        self.shininess
    }

    pub fn new(
        texture: Option<AssetKey<GPUTexture>>,
        normal: Option<AssetKey<GPUTexture>>,
        ambient: Option<AssetKey<Colour>>,
        diffuse: Option<AssetKey<Colour>>,
        specular0: Option<AssetKey<Colour>>,
        specular1: Option<AssetKey<Colour>>,
        emission: Option<AssetKey<Colour>>,
        shininess: Option<u32>,
    ) -> (m: Self)
        ensures
            m.spec_texture() == texture,
            m.spec_normal() == normal,
            m.spec_ambient() == ambient,
            m.spec_diffuse() == diffuse,
            m.spec_specular0() == specular0,
            m.spec_specular1() == specular1,
            m.spec_emission() == emission,
            m.spec_shininess() == shininess,
    {
        Material {
            texture,
            normal,
            ambient,
            diffuse,
            specular0,
            specular1,
            emission,
            shininess,
        }
    }

    /// Looks up every key of the material.
    pub fn resolve(&self, cache: &AssetCache) -> (r: Result<ResolvedMaterial, RenderError>)
        ensures
            r == resolve_spec(cache@, *self),
    {
        let texture = resolve_one(cache, &self.texture);
        let normal = resolve_one(cache, &self.normal);
        let ambient = resolve_one(cache, &self.ambient);
        let diffuse = resolve_one(cache, &self.diffuse);
        let specular0 = resolve_one(cache, &self.specular0);
        let specular1 = resolve_one(cache, &self.specular1);
        let emission = resolve_one(cache, &self.emission);
        match (texture, normal, ambient, diffuse, specular0, specular1, emission) {
            (Err(e), _, _, _, _, _, _) => Err(e),
            (_, Err(e), _, _, _, _, _) => Err(e),
            (_, _, Err(e), _, _, _, _) => Err(e),
            (_, _, _, Err(e), _, _, _) => Err(e),
            (_, _, _, _, Err(e), _, _) => Err(e),
            (_, _, _, _, _, Err(e), _) => Err(e),
            (_, _, _, _, _, _, Err(e)) => Err(e),
            (
                Ok(texture),
                Ok(normal),
                Ok(ambient),
                Ok(diffuse),
                Ok(specular0),
                Ok(specular1),
                Ok(emission),
            ) => {
                let shininess_bits = match self.shininess {
                    Some(s) => s,
                    None => DEFAULT_SHININESS_BITS,
                };
                Ok(
                    ResolvedMaterial {
                        texture,
                        normal,
                        colours: LightMaterial { ambient, diffuse, specular0, specular1, emission },
                        shininess_bits,
                    },
                )
            },
        }
    }

    /// The texture that the material's texture key refers to, if it has one
    /// and it resolves.
    pub fn get_texture<'a>(&self, cache: &'a AssetCache) -> (r: Option<&'a GPUTexture>)
        ensures
            match r {
                Some(t) => self.spec_texture() is Some && lookup::<GPUTexture>(
                    cache@,
                    self.spec_texture()->Some_0.spec_identity(),
                ) == Some(*t),
                None => self.spec_texture() is None || lookup::<GPUTexture>(
                    cache@,
                    self.spec_texture()->Some_0.spec_identity(),
                ) is None,
            },
    {
        match &self.texture {
            Some(key) => retrieve_asset(cache, key),
            None => None,
        }
    }

    /// The normal map that the material's normal key refers to, if it has
    /// one and it resolves.
    pub fn get_normal<'a>(&self, cache: &'a AssetCache) -> (r: Option<&'a GPUTexture>)
        ensures
            match r {
                Some(t) => self.spec_normal() is Some && lookup::<GPUTexture>(
                    cache@,
                    self.spec_normal()->Some_0.spec_identity(),
                ) == Some(*t),
                None => self.spec_normal() is None || lookup::<GPUTexture>(
                    cache@,
                    self.spec_normal()->Some_0.spec_identity(),
                ) is None,
            },
    {
        match &self.normal {
            Some(key) => retrieve_asset(cache, key),
            None => None,
        }
    }

    /// Looks up the material's keys and appends the commands that program
    /// the lighting unit for it.
    pub fn set_light_env(&self, cache: &AssetCache, out: &mut Vec<Command>) -> (r: Result<(), RenderError>)
        ensures
            match resolve_spec(cache@, *self) {
                Ok(rm) => r is Ok && final(out)@ == old(out)@ + light_env_commands(rm),
                Err(e) => r == Err::<(), RenderError>(e) && final(out)@ == old(out)@,
            },
    {
        match self.resolve(cache) {
            Ok(rm) => {
                rm.set_light_env(out);
                Ok(())
            },
            Err(e) => Err(e),
        }
    }
}

} // verus!
