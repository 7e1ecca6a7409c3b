//! Models of the graphics device surface: the device and what it creates
//! — buffers, textures, queues, libraries, pipeline states, fences,
//! events and heaps.

pub mod buffer;
pub mod counters;
pub mod device;
pub mod texture;

use vstd::prelude::*;

use crate::ns::string::Str;

verus! {

/// A three-dimensional extent: grid or threadgroup dimensions.
#[derive(Clone, Copy, PartialEq, Eq, Structural, Debug)]
pub struct Size {
    pub width: usize,
    pub height: usize,
    pub depth: usize,
}

/// Storage and cache options for a resource, carried as the platform bit
/// mask.
#[derive(Clone, Copy, PartialEq, Eq, Structural, Debug)]
pub struct ResourceOptions {
    /// The platform-defined bit mask.
    pub raw: u64,
}

impl Default for ResourceOptions {
    /// The default options: every bit clear.
    fn default() -> (r: ResourceOptions)
        ensures
            r.raw == 0,
    {
        ResourceOptions { raw: 0 }
    }
}

/// A cache mode for resources the processor accesses.
#[derive(Clone, Copy, PartialEq, Eq, Structural, Debug)]
pub enum CpuCacheMode {
    DefaultCache,
    WriteCombined,
}

/// Options for pipeline state creation, carried as the platform bit mask.
#[derive(Clone, Copy, PartialEq, Eq, Structural, Debug)]
pub struct PipelineOption {
    /// The platform-defined bit mask.
    pub raw: u64,
}

impl PipelineOption {
    pub fn none() -> (r: PipelineOption)
        ensures
            r.raw == 0,
    {
        PipelineOption { raw: 0 }
    }

    pub fn argument_info() -> (r: PipelineOption)
        ensures
            r.raw == 1,
    {
        PipelineOption { raw: 1 }
    }

    pub fn buffer_type_info() -> (r: PipelineOption)
        ensures
            r.raw == 2,
    {
        PipelineOption { raw: 2 }
    }

    pub fn fail_on_binary_archive_miss() -> (r: PipelineOption)
        ensures
            r.raw == 4,
    {
        PipelineOption { raw: 4 }
    }
}

/// A pixel format; the model carries the formats its tests exercise.
#[derive(Clone, Copy, PartialEq, Eq, Structural, Debug)]
pub enum PixelFormat {
    Invalid,
    A8Unorm,
    R8Unorm,
    Rgba8Unorm,
    Bgra8Unorm,
}

impl PixelFormat {
    /// How many bytes one texel of the format takes.
    pub open spec fn spec_bytes_per_texel(self) -> usize {
        match self {
            PixelFormat::Invalid => 0,
            PixelFormat::A8Unorm => 1,
            PixelFormat::R8Unorm => 1,
            PixelFormat::Rgba8Unorm => 4,
            PixelFormat::Bgra8Unorm => 4,
        }
    }

    /// The executable face of [`PixelFormat::spec_bytes_per_texel`].
    pub fn bytes_per_texel(self) -> (r: usize)
        ensures
            r == self.spec_bytes_per_texel(),
    {
        match self {
            PixelFormat::Invalid => 0,
            PixelFormat::A8Unorm => 1,
            PixelFormat::R8Unorm => 1,
            PixelFormat::Rgba8Unorm => 4,
            PixelFormat::Bgra8Unorm => 4,
        }
    }
}

/// Options handed to the shader compiler, reduced to the knob the model
/// keeps.
#[derive(Clone, Copy, PartialEq, Eq, Structural, Debug)]
pub struct CompileOptions {
    /// Whether the compiler may relax floating-point rules.
    pub fast_math: bool,
}

impl CompileOptions {
    pub fn new() -> (r: CompileOptions)
        ensures
            r.fast_math == true,
    {
        CompileOptions { fast_math: true }
    }
}

/// A compiled shader library: the model remembers the source it was
/// compiled from.
#[derive(Debug)]
pub struct Library {
    source: Str,
}

impl Library {
    /// The characters of the source this library was compiled from.
    pub closed spec fn source_model(self) -> Seq<char> {
        self.source@
    }

    /// Only the device's compiler builds libraries.
    pub(crate) fn from_source(source: &Str) -> (r: Library)
        ensures
            r.source_model() == source@,
    {
        Library { source: source.retained() }
    }
}

/// A shader function, named inside some library.
#[derive(Debug)]
pub struct Function {
    name: Str,
}

impl Function {
    /// The characters of the function's name.
    pub closed spec fn name_model(self) -> Seq<char> {
        self.name@
    }

    /// A function handle under the given name.
    pub fn with_name(name: &Str) -> (r: Function)
        ensures
            r.name_model() == name@,
    {
        Function { name: name.retained() }
    }

    /// How many characters the function's name has.
    pub fn name_len(&self) -> (n: usize)
        ensures
            n == self.name_model().len(),
    {
        self.name.len()
    }
}

/// A compiled compute pipeline: the model remembers the function it was
/// built around.
#[derive(Debug)]
pub struct ComputePipelineState {
    function_name: Str,
}

impl ComputePipelineState {
    /// The characters of the compiled function's name.
    pub closed spec fn function_name_model(self) -> Seq<char> {
        self.function_name@
    }

    /// Only the device builds pipeline states.
    pub(crate) fn for_function(function: &Function) -> (r: ComputePipelineState)
        ensures
            r.function_name_model() == function.name_model(),
    {
        ComputePipelineState { function_name: function.name.retained() }
    }
}

/// A description of a render pipeline, reduced to what validation reads:
/// whether the stage functions are attached.
#[derive(Clone, Copy, PartialEq, Eq, Structural, Debug)]
pub struct RenderPipelineDescriptor {
    /// Whether a vertex function is attached; validation demands one.
    pub has_vertex_fn: bool,
    /// Whether a fragment function is attached; optional.
    pub has_fragment_fn: bool,
}

impl RenderPipelineDescriptor {
    /// A fresh descriptor with no functions attached.
    pub fn new() -> (r: RenderPipelineDescriptor)
        ensures
            !r.has_vertex_fn,
            !r.has_fragment_fn,
    {
        RenderPipelineDescriptor { has_vertex_fn: false, has_fragment_fn: false }
    }
}

/// A compiled render pipeline.
#[derive(Clone, Copy, PartialEq, Eq, Structural, Debug)]
pub struct RenderPipelineState {
    /// Whether the pipeline has a fragment stage.
    pub has_fragment_fn: bool,
}

/// A queue of command buffers, bounded at creation.
#[derive(Clone, Copy, PartialEq, Eq, Structural, Debug)]
pub struct CmdQueue {
    /// The most command buffers the queue admits at once.
    pub max_cmd_buf_count: usize,
}

/// A fence for ordering work inside one queue; it carries a label.
#[derive(Debug)]
pub struct Fence {
    label: Option<Str>,
}

impl Fence {
    /// The label's characters, when one is set.
    pub closed spec fn label_model(self) -> Option<Seq<char>> {
        match self.label {
            Some(s) => Some(s@),
            None => None,
        }
    }

    pub(crate) fn new() -> (r: Fence)
        ensures
            r.label_model() is None,
    {
        Fence { label: None }
    }

    /// Names the fence for debugging.
    pub fn set_label(&mut self, label: Option<&Str>)
        ensures
            final(self).label_model() == match label {
                Some(s) => Some(s@),
                None => None::<Seq<char>>,
            },
    {
        self.label = match label {
            Some(s) => Some(s.retained()),
            None => None,
        };
    }

    /// The current label.
    pub fn label(&self) -> (r: Option<&Str>)
        ensures
            match r {
                Some(s) => self.label_model() == Some(s@),
                None => self.label_model() is None,
            },
    {
        match &self.label {
            Some(s) => Some(s),
            None => None,
        }
    }
}

/// An event for ordering work on one device; it carries a label.
#[derive(Debug)]
pub struct Event {
    label: Option<Str>,
}

impl Event {
    /// The label's characters, when one is set.
    pub closed spec fn label_model(self) -> Option<Seq<char>> {
        match self.label {
            Some(s) => Some(s@),
            None => None,
        }
    }

    pub(crate) fn new() -> (r: Event)
        ensures
            r.label_model() is None,
    {
        Event { label: None }
    }

    /// Names the event for debugging.
    pub fn set_label(&mut self, label: Option<&Str>)
        ensures
            final(self).label_model() == match label {
                Some(s) => Some(s@),
                None => None::<Seq<char>>,
            },
    {
        self.label = match label {
            Some(s) => Some(s.retained()),
            None => None,
        };
    }

    /// The current label.
    pub fn label(&self) -> (r: Option<&Str>)
        ensures
            match r {
                Some(s) => self.label_model() == Some(s@),
                None => self.label_model() is None,
            },
    {
        match &self.label {
            Some(s) => Some(s),
            None => None,
        }
    }
}

/// An event that other processes can signal too; it carries a label and a
/// signaled value.
#[derive(Debug)]
pub struct SharedEvent {
    label: Option<Str>,
    signaled_value: u64,
}

impl SharedEvent {
    /// The label's characters, when one is set.
    pub closed spec fn label_model(self) -> Option<Seq<char>> {
        match self.label {
            Some(s) => Some(s@),
            None => None,
        }
    }

    /// The last signaled value.
    pub closed spec fn signaled_value_model(self) -> u64 {
        self.signaled_value
    }

    pub(crate) fn new() -> (r: SharedEvent)
        ensures
            r.label_model() is None,
            r.signaled_value_model() == 0,
    {
        SharedEvent { label: None, signaled_value: 0 }
    }

    /// Names the event for debugging.
    pub fn set_label(&mut self, label: Option<&Str>)
        ensures
            final(self).label_model() == match label {
                Some(s) => Some(s@),
                None => None::<Seq<char>>,
            },
            final(self).signaled_value_model() == old(self).signaled_value_model(),
    {
        self.label = match label {
            Some(s) => Some(s.retained()),
            None => None,
        };
    }

    /// The current label.
    pub fn label(&self) -> (r: Option<&Str>)
        ensures
            match r {
                Some(s) => self.label_model() == Some(s@),
                None => self.label_model() is None,
            },
    {
        match &self.label {
            Some(s) => Some(s),
            None => None,
        }
    }
}

/// A description of a heap, reduced to the size requested.
#[derive(Clone, Copy, PartialEq, Eq, Structural, Debug)]
pub struct HeapDescriptor {
    /// The heap size requested, in bytes.
    pub size: usize,
}

impl HeapDescriptor {
    pub fn new(size: usize) -> (r: HeapDescriptor)
        ensures
            r.size == size,
    {
        HeapDescriptor { size }
    }
}

/// A heap resources can be sub-allocated from.
#[derive(Clone, Copy, PartialEq, Eq, Structural, Debug)]
pub struct Heap {
    /// The heap's size in bytes.
    pub size: usize,
}

} // verus!
