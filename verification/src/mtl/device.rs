//! The graphics device: every resource factory, with absence exactly on
//! the documented-invalid inputs, and the error out-parameter convention
//! of the shader compiler.

use vstd::prelude::*;

use crate::arc::Rar;
use crate::blocks::Completion;
use crate::mtl::buffer::Buffer;
use crate::mtl::texture::Descriptor;
use crate::mtl::texture::Texture;
use crate::mtl::texture::spec_descriptor_valid;
use crate::mtl::CmdQueue;
use crate::mtl::CompileOptions;
use crate::mtl::ComputePipelineState;
use crate::mtl::Event;
use crate::mtl::Fence;
use crate::mtl::Function;
use crate::mtl::Heap;
use crate::mtl::HeapDescriptor;
use crate::mtl::Library;
use crate::mtl::RenderPipelineDescriptor;
use crate::mtl::RenderPipelineState;
use crate::mtl::ResourceOptions;
use crate::mtl::SharedEvent;
use crate::mtl::Size;
use crate::ns::error::Error;
use crate::ns::string::Str;

verus! {

/// How far the device supports textures both read and written by
/// shaders.
#[derive(Clone, Copy, PartialEq, Eq, Structural, Debug)]
pub enum ReadWriteTextureTier {
    /// No support.
    NoSupport,
    _1,
    _2,
}

impl ReadWriteTextureTier {
    /// The platform-fixed numeric value of the tier.
    pub fn raw(self) -> (r: u64)
        ensures
            r == (match self {
                ReadWriteTextureTier::NoSupport => 0u64,
                ReadWriteTextureTier::_1 => 1u64,
                ReadWriteTextureTier::_2 => 2u64,
            }),
    {
        match self {
            ReadWriteTextureTier::NoSupport => 0,
            ReadWriteTextureTier::_1 => 1,
            ReadWriteTextureTier::_2 => 2,
        }
    }
}

/// How argument buffers are supported.
#[derive(Clone, Copy, PartialEq, Eq, Structural, Debug)]
pub enum ArgumentBuffersTier {
    _1,
    _2,
}

impl ArgumentBuffersTier {
    /// The platform-fixed numeric value of the tier.
    pub fn raw(self) -> (r: u64)
        ensures
            r == (match self {
                ArgumentBuffersTier::_1 => 0u64,
                ArgumentBuffersTier::_2 => 1u64,
            }),
    {
        match self {
            ArgumentBuffersTier::_1 => 0,
            ArgumentBuffersTier::_2 => 1,
        }
    }
}

/// The page sizes a sparse texture can be mapped with.
#[derive(Clone, Copy, PartialEq, Eq, Structural, Debug)]
pub enum SparsePageSize {
    _16,
    _64,
    _256,
}

impl SparsePageSize {
    /// The platform-fixed numeric value of the page size.
    pub fn raw(self) -> (r: i64)
        ensures
            r == (match self {
                SparsePageSize::_16 => 101i64,
                SparsePageSize::_64 => 102i64,
                SparsePageSize::_256 => 103i64,
            }),
    {
        match self {
            SparsePageSize::_16 => 101,
            SparsePageSize::_64 => 102,
            SparsePageSize::_256 => 103,
        }
    }
}

/// A size together with the alignment it must be placed at.
#[derive(Clone, Copy, PartialEq, Eq, Structural, Debug)]
pub struct SizeAndAlign {
    pub size: usize,
    pub align: usize,
}

/// The mathematical shadow of a device: every capability as a plain
/// value.
pub ghost struct DeviceModel {
    pub name: Seq<char>,
    pub registry_id: u64,
    pub max_threads_per_threadgroup: Size,
    pub has_unified_memory: bool,
    pub read_write_texture_support: ReadWriteTextureTier,
    pub argument_buffers_support: ArgumentBuffersTier,
    pub max_buffer_length: usize,
    pub has_default_library: bool,
}

/// The capabilities the modeled system device reports.
pub open spec fn spec_system_device() -> DeviceModel {
    DeviceModel {
        name: "gpu"@,
        registry_id: 1,
        max_threads_per_threadgroup: Size { width: 1024, height: 1024, depth: 64 },
        has_unified_memory: true,
        read_write_texture_support: ReadWriteTextureTier::_2,
        argument_buffers_support: ArgumentBuffersTier::_2,
        max_buffer_length: 0x40000000,
        has_default_library: false,
    }
}

/// The error the shader compiler reports for source it refuses.
pub open spec fn spec_compile_error() -> Error {
    Error { domain: 1, code: 3i64 }
}

/// The error pipeline creation reports for a descriptor or function it
/// refuses.
pub open spec fn spec_pipeline_error() -> Error {
    Error { domain: 1, code: 1i64 }
}

/// The next multiple of `align` at or above `n`.
pub open spec fn spec_round_up(n: int, align: int) -> int
    recommends
        align >= 1,
{
    ((n + align - 1) / align) * align
}

/// The byte volume a texture descriptor asks for.
pub open spec fn spec_texture_volume(d: Descriptor) -> int {
    d.width * d.height * d.depth * d.array_len * d.pixel_format.spec_bytes_per_texel()
}

/// A graphics device.
#[derive(Debug)]
pub struct Device {
    name: Str,
    registry_id: u64,
    max_threads_per_threadgroup: Size,
    has_unified_memory: bool,
    read_write_texture_support: ReadWriteTextureTier,
    argument_buffers_support: ArgumentBuffersTier,
    max_buffer_length: usize,
    has_default_library: bool,
}

impl Device {
    /// Every capability of the device, as one ghost record.
    pub closed spec fn model(self) -> DeviceModel {
        DeviceModel {
            name: self.name@,
            registry_id: self.registry_id,
            max_threads_per_threadgroup: self.max_threads_per_threadgroup,
            has_unified_memory: self.has_unified_memory,
            read_write_texture_support: self.read_write_texture_support,
            argument_buffers_support: self.argument_buffers_support,
            max_buffer_length: self.max_buffer_length,
            has_default_library: self.has_default_library,
        }
    }

    /// The device bound every creatable device respects: the buffer
    /// bound stays within the modeled address space.
    pub open spec fn wf(self) -> bool {
        self.model().max_buffer_length <= 0x40000000
    }

    /// The system's default device. The handle is owned, and on a machine
    /// with a device it is never absent.
    pub fn default() -> (r: Option<Device>)
        ensures
            r is Some,
            r->Some_0.model() == spec_system_device(),
            r->Some_0.wf(),
    {
        Some(
            Device {
                name: Str::with_str("gpu"),
                registry_id: 1,
                max_threads_per_threadgroup: Size { width: 1024, height: 1024, depth: 64 },
                has_unified_memory: true,
                read_write_texture_support: ReadWriteTextureTier::_2,
                argument_buffers_support: ArgumentBuffersTier::_2,
                max_buffer_length: 0x40000000,
                has_default_library: false,
            },
        )
    }

    /// The device's name.
    pub fn name(&self) -> (r: &Str)
        ensures
            r@ == self.model().name,
    {
        &self.name
    }

    /// The device's registry identifier; a real device's is never zero.
    pub fn registry_id(&self) -> (r: u64)
        ensures
            r == self.model().registry_id,
    {
        self.registry_id
    }

    /// The largest threadgroup a compute kernel may ask for.
    pub fn max_threads_per_threadgroup(&self) -> (r: Size)
        ensures
            r == self.model().max_threads_per_threadgroup,
    {
        self.max_threads_per_threadgroup
    }

    /// Whether processor and device share one memory.
    pub fn has_unified_memory(&self) -> (r: bool)
        ensures
            r == self.model().has_unified_memory,
    {
        self.has_unified_memory
    }

    pub fn read_write_texture_support(&self) -> (r: ReadWriteTextureTier)
        ensures
            r == self.model().read_write_texture_support,
    {
        self.read_write_texture_support
    }

    pub fn argument_buffers_support(&self) -> (r: ArgumentBuffersTier)
        ensures
            r == self.model().argument_buffers_support,
    {
        self.argument_buffers_support
    }

    /// A command queue with the default bound, autoreleased. Queue
    /// creation does not fail in the model.
    pub fn new_cmd_queue_ar(&self) -> (r: Option<Rar<CmdQueue>>)
        ensures
            r is Some,
            r->Some_0.obj.max_cmd_buf_count == 64,
    {
        Some(Rar::autoreleased(CmdQueue { max_cmd_buf_count: 64 }))
    }

    /// A command queue with the default bound, owned.
    pub fn new_cmd_queue(&self) -> (r: Option<CmdQueue>)
        ensures
            r is Some,
            r->Some_0.max_cmd_buf_count == 64,
    {
        Rar::option_retain(self.new_cmd_queue_ar())
    }

    /// A command queue bounded by the given count, autoreleased; absent
    /// exactly when the count is zero.
    pub fn new_cmd_queue_max_cmd_buf_count_ar(&self, max_cmd_buf_count: usize) -> (r: Option<
        Rar<CmdQueue>,
    >)
        ensures
            r is Some <==> max_cmd_buf_count >= 1,
            r is Some ==> r->Some_0.obj.max_cmd_buf_count == max_cmd_buf_count,
    {
        if max_cmd_buf_count == 0 {
            None
        } else {
            Some(Rar::autoreleased(CmdQueue { max_cmd_buf_count }))
        }
    }

    /// A command queue bounded by the given count, owned.
    pub fn new_cmd_queue_max_cmd_buf_count(&self, max_cmd_buf_count: usize) -> (r: Option<
        CmdQueue,
    >)
        ensures
            r is Some <==> max_cmd_buf_count >= 1,
            r is Some ==> r->Some_0.max_cmd_buf_count == max_cmd_buf_count,
    {
        Rar::option_retain(self.new_cmd_queue_max_cmd_buf_count_ar(max_cmd_buf_count))
    }

    /// A texture from a descriptor, autoreleased; absent exactly when the
    /// descriptor is outside the creatable bounds.
    pub fn texture_with_descriptor_ar(&self, descriptor: &Descriptor) -> (r: Option<Rar<Texture>>)
        ensures
            r is Some <==> spec_descriptor_valid(*descriptor),
            r is Some ==> r->Some_0.obj.width == descriptor.width
                && r->Some_0.obj.height == descriptor.height && r->Some_0.obj.depth
                == descriptor.depth && r->Some_0.obj.texture_type == descriptor.texture_type
                && r->Some_0.obj.pixel_format == descriptor.pixel_format
                && r->Some_0.obj.parent is None && r->Some_0.obj.io_surface is None,
    {
        if Self::descriptor_valid(descriptor) {
            Some(Rar::autoreleased(Texture::from_descriptor(descriptor, None, 0)))
        } else {
            None
        }
    }

    /// A texture from a descriptor, owned.
    pub fn texture_with_descriptor(&self, descriptor: &Descriptor) -> (r: Option<Texture>)
        ensures
            r is Some <==> spec_descriptor_valid(*descriptor),
            r is Some ==> r->Some_0.width == descriptor.width && r->Some_0.height
                == descriptor.height && r->Some_0.depth == descriptor.depth
                && r->Some_0.texture_type == descriptor.texture_type && r->Some_0.pixel_format
                == descriptor.pixel_format && r->Some_0.parent is None
                && r->Some_0.io_surface is None,
    {
        Rar::option_retain(self.texture_with_descriptor_ar(descriptor))
    }

    /// A texture reading one plane of a surface, autoreleased; absent
    /// exactly when the descriptor is invalid or the plane does not
    /// exist.
    pub fn texture_with_surface_ar(
        &self,
        descriptor: &Descriptor,
        surface: &crate::io::Surface,
        plane: usize,
    ) -> (r: Option<Rar<Texture>>)
        ensures
            r is Some <==> spec_descriptor_valid(*descriptor) && plane < surface.plane_count,
            r is Some ==> r->Some_0.obj.width == descriptor.width
                && r->Some_0.obj.height == descriptor.height && r->Some_0.obj.io_surface == Some(
                *surface,
            ) && r->Some_0.obj.io_surface_plane == plane && r->Some_0.obj.parent is None,
    {
        if Self::descriptor_valid(descriptor) && plane < surface.plane_count {
            Some(Rar::autoreleased(Texture::from_descriptor(descriptor, Some(*surface), plane)))
        } else {
            None
        }
    }

    /// A texture reading one plane of a surface, owned.
    pub fn texture_with_surface(
        &self,
        descriptor: &Descriptor,
        surface: &crate::io::Surface,
        plane: usize,
    ) -> (r: Option<Texture>)
        ensures
            r is Some <==> spec_descriptor_valid(*descriptor) && plane < surface.plane_count,
            r is Some ==> r->Some_0.width == descriptor.width && r->Some_0.height
                == descriptor.height && r->Some_0.io_surface == Some(*surface)
                && r->Some_0.io_surface_plane == plane && r->Some_0.parent is None,
    {
        Rar::option_retain(self.texture_with_surface_ar(descriptor, surface, plane))
    }

    /// The application's precompiled library, autoreleased; absent
    /// exactly when the device has none.
    pub fn default_library_ar(&self) -> (r: Option<Rar<Library>>)
        ensures
            r is Some <==> self.model().has_default_library,
    {
        if self.has_default_library {
            let empty = Str::with_str("");
            Some(Rar::autoreleased(Library::from_source(&empty)))
        } else {
            None
        }
    }

    /// The application's precompiled library, owned.
    pub fn default_library(&self) -> (r: Option<Library>)
        ensures
            r is Some <==> self.model().has_default_library,
    {
        Rar::option_retain(self.default_library_ar())
    }

    /// The compiler call behind the library factories, autoreleased. The
    /// model's compiler accepts any nonempty source. A present result
    /// leaves the error slot empty; an absent one fills it.
    pub fn library_with_source_and_error_ar(
        &self,
        source: &Str,
        options: Option<&CompileOptions>,
        error: &mut Option<Error>,
    ) -> (r: Option<Rar<Library>>)
        ensures
            r is Some <==> source@.len() > 0,
            r is Some ==> *final(error) is None && r->Some_0.obj.source_model() == source@,
            r is None ==> *final(error) == Some(spec_compile_error()),
    {
        let _ = options;
        if source.is_empty() {
            *error = Some(Error::new(1, 3));
            None
        } else {
            *error = None;
            Some(Rar::autoreleased(Library::from_source(source)))
        }
    }

    /// The compiler call behind the library factories, owned.
    pub fn library_with_source_and_error(
        &self,
        source: &Str,
        options: Option<&CompileOptions>,
        error: &mut Option<Error>,
    ) -> (r: Option<Library>)
        ensures
            r is Some <==> source@.len() > 0,
            r is Some ==> *final(error) is None && r->Some_0.source_model() == source@,
            r is None ==> *final(error) == Some(spec_compile_error()),
    {
        let r = self.library_with_source_and_error_ar(source, options, error);
        Rar::option_retain(r)
    }

    /// Compiles a library from source: success exactly on nonempty
    /// source, else the error the compiler put in the slot.
    pub fn library_with_source(&self, source: &Str, options: Option<&CompileOptions>) -> (r: Result<
        Library,
        Error,
    >)
        ensures
            r is Ok <==> source@.len() > 0,
            r is Ok ==> r->Ok_0.source_model() == source@,
            r is Err ==> r == Err::<Library, Error>(spec_compile_error()),
    {
        let mut error: Option<Error> = None;
        let res = self.library_with_source_and_error(source, options, &mut error);
        match res {
            Some(lib) => Ok(lib),
            None => match error {
                Some(e) => Err(e),
                None => unreached(),
            },
        }
    }

    /// The asynchronous compiler call: resolves the completion future
    /// exactly once, with the same outcome the synchronous compiler
    /// reports.
    pub fn library_with_source_options_completion(
        &self,
        source: &Str,
        options: Option<&CompileOptions>,
        completion: &mut Completion<Library>,
    )
        requires
            !old(completion).resolved(),
        ensures
            final(completion).resolved(),
            source@.len() > 0 ==> final(completion).outcome() is Ok
                && final(completion).outcome()->Ok_0.source_model() == source@,
            source@.len() == 0 ==> final(completion).outcome() == Err::<Library, Error>(
                spec_compile_error(),
            ),
    {
        match self.library_with_source(source, options) {
            Ok(lib) => completion.resolve(Ok(lib)),
            Err(e) => completion.resolve(Err(e)),
        }
    }

    /// Compiles a library through the asynchronous call and waits for the
    /// future.
    pub fn library_with_source_options(&self, source: &Str, options: Option<&CompileOptions>) -> (r:
        Result<Library, Error>)
        ensures
            r is Ok <==> source@.len() > 0,
            r is Ok ==> r->Ok_0.source_model() == source@,
            r is Err ==> r == Err::<Library, Error>(spec_compile_error()),
    {
        let mut future = crate::blocks::result();
        self.library_with_source_options_completion(source, options, &mut future);
        future.wait()
    }

    /// The pipeline call behind the compute factories, autoreleased. The
    /// model compiles any named function. A present result leaves the
    /// error slot empty; an absent one fills it.
    pub fn compute_pipeline_state_with_function_error_ar(
        &self,
        function: &Function,
        error: &mut Option<Error>,
    ) -> (r: Option<Rar<ComputePipelineState>>)
        ensures
            r is Some <==> function.name_model().len() > 0,
            r is Some ==> *final(error) is None && r->Some_0.obj.function_name_model()
                == function.name_model(),
            r is None ==> *final(error) == Some(spec_pipeline_error()),
    {
        if Self::function_named(function) {
            *error = None;
            Some(Rar::autoreleased(ComputePipelineState::for_function(function)))
        } else {
            *error = Some(Error::new(1, 1));
            None
        }
    }

    /// The pipeline call behind the compute factories, owned.
    pub fn compute_pipeline_state_with_function_error(
        &self,
        function: &Function,
        error: &mut Option<Error>,
    ) -> (r: Option<ComputePipelineState>)
        ensures
            r is Some <==> function.name_model().len() > 0,
            r is Some ==> *final(error) is None && r->Some_0.function_name_model()
                == function.name_model(),
            r is None ==> *final(error) == Some(spec_pipeline_error()),
    {
        let r = self.compute_pipeline_state_with_function_error_ar(function, error);
        Rar::option_retain(r)
    }

    /// A compute pipeline around a function: success exactly when the
    /// function has a name, else the error the slot carried.
    pub fn compute_pipeline_state_with_function(&self, function: &Function) -> (r: Result<
        ComputePipelineState,
        Error,
    >)
        ensures
            r is Ok <==> function.name_model().len() > 0,
            r is Ok ==> r->Ok_0.function_name_model() == function.name_model(),
            r is Err ==> r == Err::<ComputePipelineState, Error>(spec_pipeline_error()),
    {
        let mut error: Option<Error> = None;
        let res = self.compute_pipeline_state_with_function_error(function, &mut error);
        match res {
            Some(ps) => Ok(ps),
            None => match error {
                Some(e) => Err(e),
                None => unreached(),
            },
        }
    }

    /// The pipeline call behind the render factory. Validation demands a
    /// vertex function; the error slot follows the same convention.
    pub fn render_pipeline_state_with_descriptor_error(
        &self,
        descriptor: &RenderPipelineDescriptor,
        error: &mut Option<Error>,
    ) -> (r: Option<RenderPipelineState>)
        ensures
            r is Some <==> descriptor.has_vertex_fn,
            r is Some ==> *final(error) is None && r->Some_0.has_fragment_fn
                == descriptor.has_fragment_fn,
            r is None ==> *final(error) == Some(spec_pipeline_error()),
    {
        if descriptor.has_vertex_fn {
            *error = None;
            Some(RenderPipelineState { has_fragment_fn: descriptor.has_fragment_fn })
        } else {
            *error = Some(Error::new(1, 1));
            None
        }
    }

    /// A render pipeline from a descriptor: success exactly when a vertex
    /// function is attached.
    pub fn render_pipeline_state_with_descriptor(
        &self,
        descriptor: &RenderPipelineDescriptor,
    ) -> (r: Result<RenderPipelineState, Error>)
        ensures
            r is Ok <==> descriptor.has_vertex_fn,
            r is Ok ==> r->Ok_0.has_fragment_fn == descriptor.has_fragment_fn,
            r is Err ==> r == Err::<RenderPipelineState, Error>(spec_pipeline_error()),
    {
        let mut error: Option<Error> = None;
        let res = self.render_pipeline_state_with_descriptor_error(descriptor, &mut error);
        match res {
            Some(ps) => Ok(ps),
            None => match error {
                Some(e) => Err(e),
                None => unreached(),
            },
        }
    }

    /// A zero-filled buffer of the given length, autoreleased; absent
    /// exactly when the length is zero or beyond the device bound.
    pub fn new_buf_len_opts_ar(&self, length: usize, options: ResourceOptions) -> (r: Option<
        Rar<Buffer>,
    >)
        ensures
            r is Some <==> 1 <= length <= self.model().max_buffer_length,
            r is Some ==> r->Some_0.obj@.len() == length && (forall|i: int|
                0 <= i < length ==> r->Some_0.obj@[i] == 0) && r->Some_0.obj.gpu_address_model()
                != 0,
    {
        let _ = options;
        if length == 0 || length > self.max_buffer_length {
            return None;
        }
        let mut bytes: Vec<u8> = Vec::new();
        let mut i: usize = 0;
        while i < length
            invariant
                i <= length,
                bytes@.len() == i,
                forall|j: int| 0 <= j < i ==> bytes@[j] == 0,
            decreases length - i,
        {
            bytes.push(0);
            i = i + 1;
        }
        Some(Rar::autoreleased(Buffer::with_bytes(bytes, 0x1000)))
    }

    /// A zero-filled buffer of the given length, owned.
    pub fn new_buf_len_opts(&self, length: usize, options: ResourceOptions) -> (r: Option<Buffer>)
        ensures
            r is Some <==> 1 <= length <= self.model().max_buffer_length,
            r is Some ==> r->Some_0@.len() == length && r->Some_0.gpu_address_model() != 0,
    {
        Rar::option_retain(self.new_buf_len_opts_ar(length, options))
    }

    /// A buffer sized for a slice's bytes, autoreleased; absent exactly
    /// when that byte count is zero or beyond the device bound. On the
    /// native side the buffer starts as a copy of the slice's raw bytes;
    /// safe code cannot read a generic element's bytes, so the model
    /// zero-fills instead and the contract promises the length alone —
    /// nothing here should be read as fixing the contents.
    pub fn new_buffer_slice_ar<T: Sized>(&self, slice: &[T], options: ResourceOptions) -> (r:
        Option<Rar<Buffer>>)
        ensures
            r is Some <==> 1 <= vstd::layout::size_of::<T>() * slice@.len()
                <= self.model().max_buffer_length,
            r is Some ==> r->Some_0.obj@.len() == vstd::layout::size_of::<T>() * slice@.len(),
    {
        let elem = core::mem::size_of::<T>();
        match elem.checked_mul(slice.len()) {
            Some(len) => self.new_buf_len_opts_ar(len, options),
            None => None,
        }
    }

    /// A buffer sized for a slice's bytes, owned.
    pub fn new_buf_slice<T: Sized>(&self, slice: &[T], options: ResourceOptions) -> (r: Option<
        Buffer,
    >)
        ensures
            r is Some <==> 1 <= vstd::layout::size_of::<T>() * slice@.len()
                <= self.model().max_buffer_length,
            r is Some ==> r->Some_0@.len() == vstd::layout::size_of::<T>() * slice@.len(),
    {
        Rar::option_retain(self.new_buffer_slice_ar(slice, options))
    }

    /// A fresh unlabeled fence, autoreleased.
    pub fn new_fence_ar(&self) -> (r: Option<Rar<Fence>>)
        ensures
            r is Some,
            r->Some_0.obj.label_model() is None,
    {
        Some(Rar::autoreleased(Fence::new()))
    }

    /// A fresh unlabeled fence, owned.
    pub fn new_fence(&self) -> (r: Option<Fence>)
        ensures
            r is Some,
            r->Some_0.label_model() is None,
    {
        Rar::option_retain(self.new_fence_ar())
    }

    /// A fresh unlabeled event, autoreleased.
    pub fn new_event_ar(&self) -> (r: Option<Rar<Event>>)
        ensures
            r is Some,
            r->Some_0.obj.label_model() is None,
    {
        Some(Rar::autoreleased(Event::new()))
    }

    /// A fresh unlabeled event, owned.
    pub fn new_event(&self) -> (r: Option<Event>)
        ensures
            r is Some,
            r->Some_0.label_model() is None,
    {
        Rar::option_retain(self.new_event_ar())
    }

    /// A fresh shareable event, autoreleased.
    pub fn new_shared_event_ar(&self) -> (r: Option<Rar<SharedEvent>>)
        ensures
            r is Some,
            r->Some_0.obj.label_model() is None,
            r->Some_0.obj.signaled_value_model() == 0,
    {
        Some(Rar::autoreleased(SharedEvent::new()))
    }

    /// A fresh shareable event, owned.
    pub fn new_shared_event(&self) -> (r: Option<SharedEvent>)
        ensures
            r is Some,
            r->Some_0.label_model() is None,
            r->Some_0.signaled_value_model() == 0,
    {
        Rar::option_retain(self.new_shared_event_ar())
    }

    /// The largest buffer the device creates.
    pub fn max_buffer_length(&self) -> (r: usize)
        ensures
            r == self.model().max_buffer_length,
    {
        self.max_buffer_length
    }

    /// The space and alignment a heap must reserve for a texture: its
    /// byte volume rounded up to the device page.
    pub fn heap_texture_size_and_align(&self, descriptor: &Descriptor) -> (r: SizeAndAlign)
        requires
            spec_descriptor_valid(*descriptor),
            spec_texture_volume(*descriptor) + 16383 <= usize::MAX,
        ensures
            r.align == 16384,
            r.size as int == spec_round_up(spec_texture_volume(*descriptor), 16384),
    {
        let bpt = descriptor.pixel_format.bytes_per_texel();
        assert(1 <= bpt <= 4);
        let ghost vol = spec_texture_volume(*descriptor);
        assert(descriptor.width * descriptor.height <= vol && descriptor.width * descriptor.height
            * descriptor.depth <= vol && descriptor.width * descriptor.height * descriptor.depth
            * descriptor.array_len <= vol) by (nonlinear_arith)
            requires
                1 <= descriptor.width,
                1 <= descriptor.height,
                1 <= descriptor.depth,
                1 <= descriptor.array_len,
                1 <= bpt,
                vol == descriptor.width * descriptor.height * descriptor.depth
                    * descriptor.array_len * bpt,
        ;
        let a = descriptor.width * descriptor.height;
        let b = a * descriptor.depth;
        let c = b * descriptor.array_len;
        let v = c * bpt;
        let size = ((v + 16383) / 16384) * 16384;
        SizeAndAlign { size, align: 16384 }
    }

    /// The space and alignment a heap must reserve for a buffer: its
    /// length rounded up to the buffer alignment.
    pub fn heap_buffer_size_and_align(&self, length: usize, options: ResourceOptions) -> (r:
        SizeAndAlign)
        requires
            self.wf(),
            length <= self.model().max_buffer_length,
        ensures
            r.align == 256,
            r.size as int == spec_round_up(length as int, 256),
    {
        let _ = options;
        let size = ((length + 255) / 256) * 256;
        SizeAndAlign { size, align: 256 }
    }

    /// A heap from a descriptor, autoreleased; absent exactly when the
    /// size is zero or beyond the device bound. The heap's size is the
    /// request rounded up to the device page.
    pub fn new_heap_desc_ar(&self, descriptor: &HeapDescriptor) -> (r: Option<Rar<Heap>>)
        requires
            self.wf(),
        ensures
            r is Some <==> 1 <= descriptor.size <= self.model().max_buffer_length,
            r is Some ==> r->Some_0.obj.size as int == spec_round_up(descriptor.size as int, 16384),
    {
        if descriptor.size == 0 || descriptor.size > self.max_buffer_length {
            None
        } else {
            let size = ((descriptor.size + 16383) / 16384) * 16384;
            Some(Rar::autoreleased(Heap { size }))
        }
    }

    /// A heap from a descriptor, owned.
    pub fn new_heap_desc(&self, descriptor: &HeapDescriptor) -> (r: Option<Heap>)
        requires
            self.wf(),
        ensures
            r is Some <==> 1 <= descriptor.size <= self.model().max_buffer_length,
            r is Some ==> r->Some_0.size as int == spec_round_up(descriptor.size as int, 16384),
    {
        Rar::option_retain(self.new_heap_desc_ar(descriptor))
    }

    /// The executable face of [`spec_descriptor_valid`].
    fn descriptor_valid(d: &Descriptor) -> (r: bool)
        ensures
            r == spec_descriptor_valid(*d),
    {
        1 <= d.width && d.width <= 16384 && 1 <= d.height && d.height <= 16384 && 1 <= d.depth
            && d.depth <= 2048 && 1 <= d.mipmap_level_count && 1 <= d.sample_count && 1
            <= d.array_len && d.array_len <= 2048 && d.pixel_format
            != crate::mtl::PixelFormat::Invalid
    }

    /// Whether a function handle carries a name.
    fn function_named(function: &Function) -> (r: bool)
        ensures
            r == (function.name_model().len() > 0),
    {
        function.name_len() > 0
    }
}

} // verus!
