//! Render pass layouts: for each pass, the attachments it binds (in order),
//! its subpass and its external dependencies, as plain data.
use vstd::prelude::*;

verus! {

/// Subpass index that stands for everything outside the render pass.
pub const SUBPASS_EXTERNAL: usize = 0xffff_ffff;

/// Pixel formats of the attachments.
#[derive(Clone, Copy, Debug, PartialEq, Eq, Structural)]
pub enum Format {
    R16G16B16A16Sfloat,
    B8G8R8A8Srgb,
    R32Sint,
    R32Uint,
    D32Sfloat,
}

/// What happens to an attachment's contents when the pass begins.
#[derive(Clone, Copy, Debug, PartialEq, Eq, Structural)]
pub enum LoadOp {
    Load,
    Clear,
    DontCare,
}

/// What happens to an attachment's contents when the pass ends.
#[derive(Clone, Copy, Debug, PartialEq, Eq, Structural)]
pub enum StoreOp {
    Store,
    DontCare,
}

/// Image layouts the passes use.
#[derive(Clone, Copy, Debug, PartialEq, Eq, Structural)]
pub enum ImageLayout {
    Undefined,
    ColorAttachmentOptimal,
    ShaderReadOnlyOptimal,
}

/// How one attachment is used over a render pass.
#[derive(Clone, Copy, Debug, PartialEq, Eq, Structural)]
pub struct AttachmentDescription {
    pub format: Format,
    pub samples: u32,
    pub load: LoadOp,
    pub store: StoreOp,
    pub stencil_load: LoadOp,
    pub stencil_store: StoreOp,
    pub initial_layout: ImageLayout,
    pub final_layout: ImageLayout,
}

/// The attachments a subpass reads and writes, by index into the pass's list.
#[derive(Clone, Debug, PartialEq, Eq)]
pub struct PassDescription {
    pub color_attachments: Vec<(usize, ImageLayout)>,
    pub depth_stencil: Option<(usize, ImageLayout)>,
    pub input_attachments: Vec<(usize, ImageLayout)>,
    pub resolve_attachments: Vec<(usize, ImageLayout)>,
    pub preserve_attachments: Vec<usize>,
}

/// The pipeline stages a dependency names.
#[derive(Clone, Copy, Debug, PartialEq, Eq, Structural)]
pub struct PipelineStages {
    pub fragment_shader: bool,
    pub color_attachment_output: bool,
    pub all_commands: bool,
}

/// The memory accesses a dependency names.
#[derive(Clone, Copy, Debug, PartialEq, Eq, Structural)]
pub struct AccessFlags {
    pub index_read: bool,
    pub vertex_attribute_read: bool,
    pub input_attachment_read: bool,
    pub color_attachment_read: bool,
    pub color_attachment_write: bool,
    pub depth_stencil_attachment_read: bool,
    pub depth_stencil_attachment_write: bool,
    pub transfer_write: bool,
    pub host_write: bool,
    pub memory_read: bool,
    pub memory_write: bool,
}

/// An execution and memory dependency between two subpasses.
#[derive(Clone, Copy, Debug, PartialEq, Eq, Structural)]
pub struct PassDependencyDescription {
    pub source_subpass: usize,
    pub destination_subpass: usize,
    pub source_stages: PipelineStages,
    pub destination_stages: PipelineStages,
    pub source_access: AccessFlags,
    pub destination_access: AccessFlags,
    pub by_region: bool,
}

/// A subpass description as sequences.
pub struct PassView {
    pub color: Seq<(usize, ImageLayout)>,
    pub depth_stencil: Option<(usize, ImageLayout)>,
    pub input: Seq<(usize, ImageLayout)>,
    pub resolve: Seq<(usize, ImageLayout)>,
    pub preserve: Seq<usize>,
}

impl PassDescription {
    pub open spec fn view(&self) -> PassView {
        PassView {
            color: self.color_attachments@,
            depth_stencil: self.depth_stencil,
            input: self.input_attachments@,
            resolve: self.resolve_attachments@,
            preserve: self.preserve_attachments@,
        }
    }
}

impl PassView {
    /// Every attachment the subpass names is one of the pass's `n` attachments.
    pub open spec fn refers_within(self, n: nat) -> bool {
        &&& forall|i: int| 0 <= i < self.color.len() ==> (#[trigger] self.color[i]).0 < n
        &&& forall|i: int| 0 <= i < self.input.len() ==> (#[trigger] self.input[i]).0 < n
        &&& forall|i: int| 0 <= i < self.resolve.len() ==> (#[trigger] self.resolve[i]).0 < n
        &&& forall|i: int| 0 <= i < self.preserve.len() ==> self.preserve[i] < n
        &&& self.depth_stencil matches Some(d) ==> d.0 < n
    }
}

/// A single subpass writing `color` and reading `input`, with nothing else.
pub open spec fn simple_pass(color: Seq<(usize, ImageLayout)>, input: Seq<(usize, ImageLayout)>) -> PassView {
    PassView { color, depth_stencil: None, input, resolve: seq![], preserve: seq![] }
}

pub open spec fn no_stages() -> PipelineStages {
    PipelineStages { fragment_shader: false, color_attachment_output: false, all_commands: false }
}

pub open spec fn no_access() -> AccessFlags {
    AccessFlags {
        index_read: false,
        vertex_attribute_read: false,
        input_attachment_read: false,
        color_attachment_read: false,
        color_attachment_write: false,
        depth_stencil_attachment_read: false,
        depth_stencil_attachment_write: false,
        transfer_write: false,
        host_write: false,
        memory_read: false,
        memory_write: false,
    }
}

impl PipelineStages {
    pub fn none() -> (r: PipelineStages)
        ensures
            r == no_stages(),
    {
        PipelineStages { fragment_shader: false, color_attachment_output: false, all_commands: false }
    }
}

impl AccessFlags {
    pub fn none() -> (r: AccessFlags)
        ensures
            r == no_access(),
    {
        AccessFlags {
            index_read: false,
            vertex_attribute_read: false,
            input_attachment_read: false,
            color_attachment_read: false,
            color_attachment_write: false,
            depth_stencil_attachment_read: false,
            depth_stencil_attachment_write: false,
            transfer_write: false,
            host_write: false,
            memory_read: false,
            memory_write: false,
        }
    }
}

/// An attachment described with a single sample and no stencil use.
pub open spec fn color_attachment(
    format: Format,
    load: LoadOp,
    store: StoreOp,
    initial_layout: ImageLayout,
    final_layout: ImageLayout,
) -> AttachmentDescription {
    AttachmentDescription {
        format,
        samples: 1,
        load,
        store,
        stencil_load: LoadOp::DontCare,
        stencil_store: StoreOp::DontCare,
        initial_layout,
        final_layout,
    }
}

fn make_attachment(
    format: Format,
    load: LoadOp,
    store: StoreOp,
    initial_layout: ImageLayout,
    final_layout: ImageLayout,
) -> (r: AttachmentDescription)
    ensures
        r == color_attachment(format, load, store, initial_layout, final_layout),
{
    AttachmentDescription {
        format,
        samples: 1,
        load,
        store,
        stencil_load: LoadOp::DontCare,
        stencil_store: StoreOp::DontCare,
        initial_layout,
        final_layout,
    }
}

fn make_simple_pass(color: Vec<(usize, ImageLayout)>, input: Vec<(usize, ImageLayout)>) -> (r: PassDescription)
    ensures
        r.view() == simple_pass(color@, input@),
{
    PassDescription {
        color_attachments: color,
        depth_stencil: None,
        input_attachments: input,
        resolve_attachments: Vec::new(),
        preserve_attachments: Vec::new(),
    }
}

/// The access set a pass's own color writes are made visible through:
/// vertex fetch, color and depth writes, and memory reads and writes.
pub open spec fn geometry_write_access() -> AccessFlags {
    AccessFlags {
        index_read: true,
        vertex_attribute_read: true,
        color_attachment_write: true,
        depth_stencil_attachment_write: true,
        memory_read: true,
        memory_write: true,
        ..no_access()
    }
}

/// The access set of a pass that reads and writes every kind of attachment.
pub open spec fn attachment_read_write_access() -> AccessFlags {
    AccessFlags {
        index_read: true,
        vertex_attribute_read: true,
        input_attachment_read: true,
        color_attachment_read: true,
        color_attachment_write: true,
        depth_stencil_attachment_read: true,
        depth_stencil_attachment_write: true,
        memory_read: true,
        memory_write: true,
        ..no_access()
    }
}

fn make_geometry_write_access() -> (r: AccessFlags)
    ensures
        r == geometry_write_access(),
{
    AccessFlags {
        index_read: true,
        vertex_attribute_read: true,
        color_attachment_write: true,
        depth_stencil_attachment_write: true,
        memory_read: true,
        memory_write: true,
        ..AccessFlags::none()
    }
}

fn make_attachment_read_write_access() -> (r: AccessFlags)
    ensures
        r == attachment_read_write_access(),
{
    AccessFlags {
        index_read: true,
        vertex_attribute_read: true,
        input_attachment_read: true,
        color_attachment_read: true,
        color_attachment_write: true,
        depth_stencil_attachment_read: true,
        depth_stencil_attachment_write: true,
        memory_read: true,
        memory_write: true,
        ..AccessFlags::none()
    }
}

} // verus!

pub mod deferred_lighting;
pub use self::deferred_lighting::DeferredLightingRenderPass;

pub mod mesh_shading;
pub use self::mesh_shading::GenericMeshShadingRenderPass;

pub mod resolve_scene_color;
pub use self::resolve_scene_color::ResolveSceneColorRenderPass;

pub mod postprocess;
pub use self::postprocess::PostProcessRenderPass;
