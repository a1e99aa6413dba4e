use vstd::prelude::*;

verus! {

/// Length of the header that precedes the texel data in a compiled texture.
pub const TEXTURE_HEADER_LEN: usize = 4;

/// The texel data of a compiled texture: what follows its header, or `None`
/// where the blob is shorter than the header.
pub fn texel_data(blob: &[u8]) -> (r: Option<&[u8]>)
    ensures
        blob@.len() >= TEXTURE_HEADER_LEN ==> r is Some && r->Some_0@ == blob@.subrange(
            TEXTURE_HEADER_LEN as int,
            blob@.len() as int,
        ),
        blob@.len() < TEXTURE_HEADER_LEN ==> r is None,
{
    if blob.len() < TEXTURE_HEADER_LEN {
        None
    } else {
        Some(vstd::slice::slice_subrange(blob, TEXTURE_HEADER_LEN, blob.len()))
    }
}

/// How a texture is sampled when magnified or minified.
#[derive(Debug, Clone, Copy, PartialEq, Eq, Structural)]
pub enum TextureFilterParam {
    Nearest,
    Linear,
}

/// An image that has not been uploaded yet: its size, its texel bytes and
/// its filters.
#[derive(Debug, Clone)]
pub struct Texture {
    width: u16,
    height: u16,
    data: Vec<u8>,
    mag_filter: TextureFilterParam,
    min_filter: TextureFilterParam,
}

impl Texture {
    pub closed spec fn spec_width(&self) -> u16 {
        self.width
    }

    pub closed spec fn spec_height(&self) -> u16 {
        self.height
    }

    pub closed spec fn spec_data(&self) -> Seq<u8> {
        self.data@
    }

    pub closed spec fn spec_mag_filter(&self) -> TextureFilterParam {
        self.mag_filter
    }

    pub closed spec fn spec_min_filter(&self) -> TextureFilterParam {
        self.min_filter
    }

    pub fn new(
        width: u16,
        height: u16,
        data: Vec<u8>,
        mag_filter: TextureFilterParam,
        min_filter: TextureFilterParam,
    ) -> (t: Self)
        ensures
            t.spec_width() == width,
            t.spec_height() == height,
            t.spec_data() == data@,
            t.spec_mag_filter() == mag_filter,
            t.spec_min_filter() == min_filter,
    {
        Texture { width, height, data, mag_filter, min_filter }
    }

    pub fn width(&self) -> (r: u16)
        ensures
            r == self.spec_width(),
    {
        self.width
    }

    pub fn height(&self) -> (r: u16)
        ensures
            r == self.spec_height(),
    {
        self.height
    }

    /// The texel bytes, ready for upload.
    pub fn data(&self) -> (r: &[u8])
        ensures
            r@ == self.spec_data(),
    {
        self.data.as_slice()
    }

    pub fn mag_filter(&self) -> (r: TextureFilterParam)
        ensures
            r == self.spec_mag_filter(),
    {
        self.mag_filter
    }

    pub fn min_filter(&self) -> (r: TextureFilterParam)
        ensures
            r == self.spec_min_filter(),
    {
        self.min_filter
    }
}

/// A texture that the GPU backend has uploaded, known to the library by the
/// handle that the backend gave it.
#[derive(Debug, Clone, Copy, PartialEq, Eq, Structural)]
pub struct GPUTexture {
    pub handle: u32,
}

impl GPUTexture {
    /// The command that binds this texture to the texture unit `unit_id`.
    pub fn bind(&self, unit_id: i32) -> (c: crate::gpu::Command)
        ensures
            c == (crate::gpu::Command::BindTexture { handle: self.handle, unit: unit_id }),
    {
        crate::gpu::Command::BindTexture { handle: self.handle, unit: unit_id }
    }
}

} // verus!
