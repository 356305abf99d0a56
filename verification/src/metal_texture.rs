//! What the view needs to know of a texture: whether there is one, and its
//! size in pixels.
use vstd::prelude::*;

verus! {

/// The pixel format of a depth texture with one 32-bit value per pixel.
pub const MTLPixelFormatDepth32Float: u64 = 252;

/// The usage of a texture that a render pass draws into.
pub const MTLTextureUsageRenderTarget: u64 = 0x0004;

/// The storage mode of a texture that only the device reads and writes.
pub const MTLStorageModePrivate: u64 = 2;

/// A texture of the device, or none (the null texture).
#[derive(Copy, Clone, Debug, PartialEq, Eq, Structural)]
pub struct MetalTexture {
    present: bool,
    width: u64,
    height: u64,
}

/// The description from which the device makes a two-dimensional texture.
#[derive(Copy, Clone, Debug, PartialEq, Eq, Structural)]
pub struct MetalTextureDescriptor {
    pub pixel_format: u64,
    pub width: u64,
    pub height: u64,
    pub mipmapped: bool,
    pub usage: u64,
    pub storage_mode: u64,
}

/// The description of a depth texture of the given size: one 32-bit depth
/// value per pixel, no mipmaps, drawn into by render passes, private to the
/// device.
pub open spec fn depth_descriptor(width: u64, height: u64) -> MetalTextureDescriptor {
    MetalTextureDescriptor {
        pixel_format: MTLPixelFormatDepth32Float,
        width,
        height,
        mipmapped: false,
        usage: MTLTextureUsageRenderTarget,
        storage_mode: MTLStorageModePrivate,
    }
}

impl MetalTexture {
    /// The size `(width, height)` of the texture, or `None` for the null
    /// texture.
    pub closed spec fn view(&self) -> Option<(u64, u64)> {
        if self.present {
            Some((self.width, self.height))
        } else {
            None
        }
    }

    /// The texture that the device made of the given size.
    pub fn with_size(width: u64, height: u64) -> (t: Self)
        ensures
            t@ == Some((width, height)),
    {
        MetalTexture { present: true, width, height }
    }

    /// Whether this is the null texture.
    pub fn is_null(&self) -> (r: bool)
        ensures
            r == (self@ is None),
    {
        !self.present
    }

    /// The width in pixels; zero for the null texture.
    pub fn get_width(&self) -> (r: u64)
        ensures
            self@ matches Some(size) ==> r == size.0,
            self@ is None ==> r == 0,
    {
        if self.present {
            self.width
        } else {
            0
        }
    }

    /// The height in pixels; zero for the null texture.
    pub fn get_height(&self) -> (r: u64)
        ensures
            self@ matches Some(size) ==> r == size.1,
            self@ is None ==> r == 0,
    {
        if self.present {
            self.height
        } else {
            0
        }
    }
}

impl Default for MetalTexture {
    /// The null texture.
    fn default() -> (t: Self)
        ensures
            t@ is None,
    {
        MetalTexture { present: false, width: 0, height: 0 }
    }
}

} // verus!
