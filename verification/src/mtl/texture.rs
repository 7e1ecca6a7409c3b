//! The texture surface: the descriptor a texture is created from, and
//! the texture object with its views.

use vstd::prelude::*;

verus! {

/// The dimensionality and arrangement of a texture.
#[derive(Clone, Copy, PartialEq, Eq, Structural, Debug)]
pub enum Type {
    _1D,
    _1DArray,
    _2D,
    _2DArray,
    _2DMultisample,
    Cube,
    CubeArray,
    _3D,
    _2DMultisampleArray,
    TextureBuffer,
}

impl Type {
    /// The platform-fixed numeric value of the type.
    pub fn raw(self) -> (r: u64)
        ensures
            r == spec_type_raw(self),
    {
        match self {
            Type::_1D => 0,
            Type::_1DArray => 1,
            Type::_2D => 2,
            Type::_2DArray => 3,
            Type::_2DMultisample => 4,
            Type::Cube => 5,
            Type::CubeArray => 6,
            Type::_3D => 7,
            Type::_2DMultisampleArray => 8,
            Type::TextureBuffer => 9,
        }
    }
}

/// The platform-fixed numeric value of each texture type.
pub open spec fn spec_type_raw(t: Type) -> u64 {
    match t {
        Type::_1D => 0,
        Type::_1DArray => 1,
        Type::_2D => 2,
        Type::_2DArray => 3,
        Type::_2DMultisample => 4,
        Type::Cube => 5,
        Type::CubeArray => 6,
        Type::_3D => 7,
        Type::_2DMultisampleArray => 8,
        Type::TextureBuffer => 9,
    }
}

/// Where one channel of a texture view reads from.
#[derive(Clone, Copy, PartialEq, Eq, Structural, Debug)]
pub enum Swizzle {
    Zero,
    One,
    Red,
    Green,
    Blue,
    Alpha,
}

impl Swizzle {
    /// The platform-fixed numeric value of the swizzle.
    pub fn raw(self) -> (r: u8)
        ensures
            r == spec_swizzle_raw(self),
    {
        match self {
            Swizzle::Zero => 0,
            Swizzle::One => 1,
            Swizzle::Red => 2,
            Swizzle::Green => 3,
            Swizzle::Blue => 4,
            Swizzle::Alpha => 5,
        }
    }
}

/// The platform-fixed numeric value of each swizzle.
pub open spec fn spec_swizzle_raw(s: Swizzle) -> u8 {
    match s {
        Swizzle::Zero => 0,
        Swizzle::One => 1,
        Swizzle::Red => 2,
        Swizzle::Green => 3,
        Swizzle::Blue => 4,
        Swizzle::Alpha => 5,
    }
}

/// A channel mapping: where each of the four channels reads from.
#[derive(Clone, Copy, PartialEq, Eq, Structural, Debug)]
pub struct SwizzleChannels {
    pub red: Swizzle,
    pub green: Swizzle,
    pub blue: Swizzle,
    pub alpha: Swizzle,
}

/// The identity channel mapping.
pub open spec fn spec_identity_swizzle() -> SwizzleChannels {
    SwizzleChannels {
        red: Swizzle::Red,
        green: Swizzle::Green,
        blue: Swizzle::Blue,
        alpha: Swizzle::Alpha,
    }
}

impl Default for SwizzleChannels {
    /// The default mapping: every channel reads itself.
    fn default() -> (r: SwizzleChannels)
        ensures
            r == spec_identity_swizzle(),
    {
        SwizzleChannels {
            red: Swizzle::Red,
            green: Swizzle::Green,
            blue: Swizzle::Blue,
            alpha: Swizzle::Alpha,
        }
    }
}

/// What a texture may be used for.
#[derive(Clone, Copy, PartialEq, Eq, Structural, Debug)]
pub enum Usage {
    Unknown,
    ShaderRead,
    ShaderWrite,
    RenderTarget,
    PixelFormatView,
}

impl Usage {
    /// The platform-fixed bit of the usage.
    pub fn raw(self) -> (r: u64)
        ensures
            r == spec_usage_raw(self),
    {
        match self {
            Usage::Unknown => 0x0000,
            Usage::ShaderRead => 0x0001,
            Usage::ShaderWrite => 0x0002,
            Usage::RenderTarget => 0x0004,
            Usage::PixelFormatView => 0x0010,
        }
    }
}

/// The platform-fixed bit of each usage.
pub open spec fn spec_usage_raw(u: Usage) -> u64 {
    match u {
        Usage::Unknown => 0x0000,
        Usage::ShaderRead => 0x0001,
        Usage::ShaderWrite => 0x0002,
        Usage::RenderTarget => 0x0004,
        Usage::PixelFormatView => 0x0010,
    }
}

/// How texture contents may be compressed.
#[derive(Clone, Copy, PartialEq, Eq, Structural, Debug)]
pub enum CompressionType {
    Lossless,
    TypeLossy,
}

impl CompressionType {
    /// The platform-fixed numeric value of the compression type.
    pub fn raw(self) -> (r: u64)
        ensures
            r == (match self {
                CompressionType::Lossless => 0u64,
                CompressionType::TypeLossy => 1u64,
            }),
    {
        match self {
            CompressionType::Lossless => 0,
            CompressionType::TypeLossy => 1,
        }
    }
}

/// The floor of the base-two logarithm.
pub open spec fn spec_log2_floor(n: nat) -> nat
    decreases n,
{
    if n < 2 {
        0
    } else {
        1 + spec_log2_floor(n / 2)
    }
}

/// The logarithm stays below its argument.
proof fn lemma_log2_lt_self(n: nat)
    requires
        n >= 1,
    ensures
        spec_log2_floor(n) < n,
    decreases n,
{
    if n >= 2 {
        lemma_log2_lt_self(n / 2);
    }
}

/// How many mipmap levels a full chain over the given extent has.
pub open spec fn spec_full_mip_count(w: nat, h: nat) -> nat {
    spec_log2_floor(if w >= h { w } else { h }) + 1
}

/// The floor of the base-two logarithm, by repeated halving.
fn log2_floor(n: usize) -> (r: usize)
    requires
        n >= 1,
    ensures
        r == spec_log2_floor(n as nat),
        r < n,
{
    let mut m = n;
    let mut count: usize = 0;
    proof {
        lemma_log2_lt_self(n as nat);
    }
    while m > 1
        invariant
            m >= 1,
            count + spec_log2_floor(m as nat) == spec_log2_floor(n as nat),
            spec_log2_floor(n as nat) < n,
        decreases m,
    {
        proof {
            assert(spec_log2_floor(m as nat) == 1 + spec_log2_floor((m / 2) as nat));
        }
        m = m / 2;
        count = count + 1;
    }
    count
}

/// A description of a texture to create.
#[derive(Clone, Copy, PartialEq, Eq, Structural, Debug)]
pub struct Descriptor {
    pub texture_type: Type,
    pub pixel_format: crate::mtl::PixelFormat,
    pub width: usize,
    pub height: usize,
    pub depth: usize,
    pub mipmap_level_count: usize,
    pub sample_count: usize,
    pub array_len: usize,
    pub resource_options: crate::mtl::ResourceOptions,
    pub cpu_cache_mode: crate::mtl::CpuCacheMode,
    pub usage: Usage,
    pub allow_gpu_optimized_contents: bool,
    pub swizzle: SwizzleChannels,
}

/// The descriptor fields every factory starts from.
pub open spec fn spec_default_descriptor() -> Descriptor {
    Descriptor {
        texture_type: Type::_2D,
        pixel_format: crate::mtl::PixelFormat::Rgba8Unorm,
        width: 1,
        height: 1,
        depth: 1,
        mipmap_level_count: 1,
        sample_count: 1,
        array_len: 1,
        resource_options: crate::mtl::ResourceOptions { raw: 0 },
        cpu_cache_mode: crate::mtl::CpuCacheMode::DefaultCache,
        usage: Usage::ShaderRead,
        allow_gpu_optimized_contents: true,
        swizzle: spec_identity_swizzle(),
    }
}

/// The bounds a creatable texture descriptor satisfies.
pub open spec fn spec_descriptor_valid(d: Descriptor) -> bool {
    &&& 1 <= d.width <= 16384
    &&& 1 <= d.height <= 16384
    &&& 1 <= d.depth <= 2048
    &&& 1 <= d.mipmap_level_count
    &&& 1 <= d.sample_count
    &&& 1 <= d.array_len <= 2048
    &&& d.pixel_format != crate::mtl::PixelFormat::Invalid
}

impl Descriptor {
    /// A two-dimensional texture description. With `mipmapped` the level
    /// count covers the full chain down to one texel.
    pub fn new_2d_with_pixel_format(
        pixel_format: crate::mtl::PixelFormat,
        width: usize,
        height: usize,
        mipmapped: bool,
    ) -> (r: Descriptor)
        requires
            mipmapped ==> width >= 1 || height >= 1,
        ensures
            r == (Descriptor {
                texture_type: Type::_2D,
                pixel_format,
                width,
                height,
                mipmap_level_count: r.mipmap_level_count,
                ..spec_default_descriptor()
            }),
            mipmapped ==> r.mipmap_level_count as nat == spec_full_mip_count(
                width as nat,
                height as nat,
            ),
            !mipmapped ==> r.mipmap_level_count == 1,
    {
        let levels: usize = if mipmapped {
            let m = if width >= height {
                width
            } else {
                height
            };
            log2_floor(m) + 1
        } else {
            1
        };
        Descriptor {
            texture_type: Type::_2D,
            pixel_format,
            width,
            height,
            depth: 1,
            mipmap_level_count: levels,
            sample_count: 1,
            array_len: 1,
            resource_options: crate::mtl::ResourceOptions { raw: 0 },
            cpu_cache_mode: crate::mtl::CpuCacheMode::DefaultCache,
            usage: Usage::ShaderRead,
            allow_gpu_optimized_contents: true,
            swizzle: SwizzleChannels {
                red: Swizzle::Red,
                green: Swizzle::Green,
                blue: Swizzle::Blue,
                alpha: Swizzle::Alpha,
            },
        }
    }

    /// A cube texture description: six square faces of the given size.
    pub fn new_cube_with_pixel_format(
        pixel_format: crate::mtl::PixelFormat,
        size: usize,
        mipmapped: bool,
    ) -> (r: Descriptor)
        requires
            mipmapped ==> size >= 1,
        ensures
            r == (Descriptor {
                texture_type: Type::Cube,
                pixel_format,
                width: size,
                height: size,
                mipmap_level_count: r.mipmap_level_count,
                ..spec_default_descriptor()
            }),
            mipmapped ==> r.mipmap_level_count as nat == spec_full_mip_count(
                size as nat,
                size as nat,
            ),
            !mipmapped ==> r.mipmap_level_count == 1,
    {
        let mut d = Self::new_2d_with_pixel_format(pixel_format, size, size, mipmapped);
        d.texture_type = Type::Cube;
        d
    }

    /// A one-row texture description with explicit resource options and
    /// usage.
    pub fn with_resource_options(
        pixel_format: crate::mtl::PixelFormat,
        width: usize,
        resource_options: crate::mtl::ResourceOptions,
        usage: Usage,
    ) -> (r: Descriptor)
        ensures
            r == (Descriptor {
                pixel_format,
                width,
                resource_options,
                usage,
                ..spec_default_descriptor()
            }),
    {
        Descriptor {
            texture_type: Type::_2D,
            pixel_format,
            width,
            height: 1,
            depth: 1,
            mipmap_level_count: 1,
            sample_count: 1,
            array_len: 1,
            resource_options,
            cpu_cache_mode: crate::mtl::CpuCacheMode::DefaultCache,
            usage,
            allow_gpu_optimized_contents: true,
            swizzle: SwizzleChannels {
                red: Swizzle::Red,
                green: Swizzle::Green,
                blue: Swizzle::Blue,
                alpha: Swizzle::Alpha,
            },
        }
    }

    pub fn texture_type(&self) -> (r: Type)
        ensures
            r == self.texture_type,
    {
        self.texture_type
    }

    pub fn set_texture_type(&mut self, value: Type)
        ensures
            *final(self) == (Descriptor { texture_type: value, ..*old(self) }),
    {
        self.texture_type = value;
    }

    pub fn pixel_format(&self) -> (r: crate::mtl::PixelFormat)
        ensures
            r == self.pixel_format,
    {
        self.pixel_format
    }

    pub fn set_pixel_format(&mut self, value: crate::mtl::PixelFormat)
        ensures
            *final(self) == (Descriptor { pixel_format: value, ..*old(self) }),
    {
        self.pixel_format = value;
    }

    pub fn width(&self) -> (r: usize)
        ensures
            r == self.width,
    {
        self.width
    }

    pub fn set_width(&mut self, value: usize)
        ensures
            *final(self) == (Descriptor { width: value, ..*old(self) }),
    {
        self.width = value;
    }

    pub fn height(&self) -> (r: usize)
        ensures
            r == self.height,
    {
        self.height
    }

    pub fn set_height(&mut self, value: usize)
        ensures
            *final(self) == (Descriptor { height: value, ..*old(self) }),
    {
        self.height = value;
    }

    pub fn depth(&self) -> (r: usize)
        ensures
            r == self.depth,
    {
        self.depth
    }

    pub fn set_depth(&mut self, value: usize)
        ensures
            *final(self) == (Descriptor { depth: value, ..*old(self) }),
    {
        self.depth = value;
    }

    pub fn mipmap_level_count(&self) -> (r: usize)
        ensures
            r == self.mipmap_level_count,
    {
        self.mipmap_level_count
    }

    pub fn set_mipmap_level_count(&mut self, value: usize)
        ensures
            *final(self) == (Descriptor { mipmap_level_count: value, ..*old(self) }),
    {
        self.mipmap_level_count = value;
    }

    pub fn sample_count(&self) -> (r: usize)
        ensures
            r == self.sample_count,
    {
        self.sample_count
    }

    pub fn set_sample_count(&mut self, value: usize)
        ensures
            *final(self) == (Descriptor { sample_count: value, ..*old(self) }),
    {
        self.sample_count = value;
    }

    pub fn array_len(&self) -> (r: usize)
        ensures
            r == self.array_len,
    {
        self.array_len
    }

    pub fn set_array_len(&mut self, value: usize)
        ensures
            *final(self) == (Descriptor { array_len: value, ..*old(self) }),
    {
        self.array_len = value;
    }

    pub fn resource_options(&self) -> (r: crate::mtl::ResourceOptions)
        ensures
            r == self.resource_options,
    {
        self.resource_options
    }

    pub fn set_resource_options(&mut self, value: crate::mtl::ResourceOptions)
        ensures
            *final(self) == (Descriptor { resource_options: value, ..*old(self) }),
    {
        self.resource_options = value;
    }

    pub fn cpu_cache_mode(&self) -> (r: crate::mtl::CpuCacheMode)
        ensures
            r == self.cpu_cache_mode,
    {
        self.cpu_cache_mode
    }

    pub fn set_cpu_cache_mode(&mut self, value: crate::mtl::CpuCacheMode)
        ensures
            *final(self) == (Descriptor { cpu_cache_mode: value, ..*old(self) }),
    {
        self.cpu_cache_mode = value;
    }

    pub fn usage(&self) -> (r: Usage)
        ensures
            r == self.usage,
    {
        self.usage
    }

    pub fn set_usage(&mut self, value: Usage)
        ensures
            *final(self) == (Descriptor { usage: value, ..*old(self) }),
    {
        self.usage = value;
    }

    pub fn allow_gpu_optimized_contents(&self) -> (r: bool)
        ensures
            r == self.allow_gpu_optimized_contents,
    {
        self.allow_gpu_optimized_contents
    }

    pub fn set_allow_gpu_optimized_contents(&mut self, value: bool)
        ensures
            *final(self) == (Descriptor { allow_gpu_optimized_contents: value, ..*old(self) }),
    {
        self.allow_gpu_optimized_contents = value;
    }

    pub fn swizzle(&self) -> (r: SwizzleChannels)
        ensures
            r == self.swizzle,
    {
        self.swizzle
    }

    pub fn set_swizzle(&mut self, value: SwizzleChannels)
        ensures
            *final(self) == (Descriptor { swizzle: value, ..*old(self) }),
    {
        self.swizzle = value;
    }

}

/// A texture the device created. A view keeps a handle to the texture it
/// was derived from; views are taken relative to the base texture, so the
/// parent chain is at most one deep.
#[derive(Debug)]
pub struct Texture {
    /// The dimensionality and arrangement.
    pub texture_type: Type,
    /// The texel format.
    pub pixel_format: crate::mtl::PixelFormat,
    pub width: usize,
    pub height: usize,
    pub depth: usize,
    /// The base texture, for a view.
    pub parent: Option<Box<Texture>>,
    /// The surface backing the texture, when it has one.
    pub io_surface: Option<crate::io::Surface>,
    /// Which plane of the backing surface the texture reads.
    pub io_surface_plane: usize,
}

impl Texture {
    /// The base texture a view was derived from, as a value.
    pub open spec fn parent_model(self) -> Option<Texture> {
        match self.parent {
            Some(b) => Some(*b),
            None => None,
        }
    }

    /// Views are taken from base textures only, so a parent is itself
    /// parentless.
    pub open spec fn wf(self) -> bool {
        match self.parent {
            Some(b) => b.parent is None,
            None => true,
        }
    }

    /// Only the device and view creation build textures.
    pub(crate) fn from_descriptor(
        d: &Descriptor,
        io_surface: Option<crate::io::Surface>,
        io_surface_plane: usize,
    ) -> (r: Texture)
        ensures
            r.texture_type == d.texture_type,
            r.pixel_format == d.pixel_format,
            r.width == d.width,
            r.height == d.height,
            r.depth == d.depth,
            r.parent is None,
            r.io_surface == io_surface,
            r.io_surface_plane == io_surface_plane,
            r.wf(),
    {
        Texture {
            texture_type: d.texture_type,
            pixel_format: d.pixel_format,
            width: d.width,
            height: d.height,
            depth: d.depth,
            parent: None,
            io_surface,
            io_surface_plane,
        }
    }

    pub fn width(&self) -> (r: usize)
        ensures
            r == self.width,
    {
        self.width
    }

    pub fn height(&self) -> (r: usize)
        ensures
            r == self.height,
    {
        self.height
    }

    pub fn depth(&self) -> (r: usize)
        ensures
            r == self.depth,
    {
        self.depth
    }

    pub fn texture_type(&self) -> (r: Type)
        ensures
            r == self.texture_type,
    {
        self.texture_type
    }

    pub fn pixel_format(&self) -> (r: crate::mtl::PixelFormat)
        ensures
            r == self.pixel_format,
    {
        self.pixel_format
    }

    /// The texture this view was derived from, or absence for a base
    /// texture.
    pub fn parent_texture(&self) -> (r: Option<&Texture>)
        ensures
            match r {
                Some(t) => self.parent_model() == Some(*t),
                None => self.parent_model() is None,
            },
    {
        match &self.parent {
            Some(b) => Some(&**b),
            None => None,
        }
    }

    /// The surface backing the texture, when it has one.
    pub fn io_surface(&self) -> (r: Option<&crate::io::Surface>)
        ensures
            match r {
                Some(s) => self.io_surface == Some(*s),
                None => self.io_surface is None,
            },
    {
        match &self.io_surface {
            Some(s) => Some(s),
            None => None,
        }
    }

    /// Which plane of the backing surface the texture reads.
    pub fn io_surface_plane(&self) -> (r: usize)
        ensures
            r == self.io_surface_plane,
    {
        self.io_surface_plane
    }

    /// A view of this texture under another pixel format: the same
    /// extent, remembering its base texture. A view of a view is taken
    /// from the base.
    pub fn new_texture_view_with_pixel_format(
        &self,
        pixel_format: crate::mtl::PixelFormat,
    ) -> (r: Option<Texture>)
        requires
            self.wf(),
        ensures
            r is Some,
            r->Some_0.wf(),
            r->Some_0.width == self.width,
            r->Some_0.height == self.height,
            r->Some_0.depth == self.depth,
            r->Some_0.texture_type == self.texture_type,
            r->Some_0.pixel_format == pixel_format,
            r->Some_0.parent_model() == (if self.parent_model() is Some {
                self.parent_model()
            } else {
                Some(*self)
            }),
    {
        let base: Texture = match &self.parent {
            Some(b) => {
                Texture {
                    texture_type: b.texture_type,
                    pixel_format: b.pixel_format,
                    width: b.width,
                    height: b.height,
                    depth: b.depth,
                    parent: None,
                    io_surface: b.io_surface,
                    io_surface_plane: b.io_surface_plane,
                }
            },
            None => {
                Texture {
                    texture_type: self.texture_type,
                    pixel_format: self.pixel_format,
                    width: self.width,
                    height: self.height,
                    depth: self.depth,
                    parent: None,
                    io_surface: self.io_surface,
                    io_surface_plane: self.io_surface_plane,
                }
            },
        };
        Some(
            Texture {
                texture_type: self.texture_type,
                pixel_format,
                width: self.width,
                height: self.height,
                depth: self.depth,
                parent: Some(Box::new(base)),
                io_surface: self.io_surface,
                io_surface_plane: self.io_surface_plane,
            },
        )
    }
}

} // verus!
