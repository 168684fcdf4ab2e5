//! Mesh shading pass: draws meshes into a single color target.
use vstd::prelude::*;
use crate::renderpass::{
    attachment_read_write_access, color_attachment, geometry_write_access, make_attachment,
    make_attachment_read_write_access, make_geometry_write_access, make_simple_pass, no_stages,
    simple_pass, AttachmentDescription, Format, ImageLayout, LoadOp, PassDependencyDescription,
    PassDescription, PassView, PipelineStages, StoreOp, SUBPASS_EXTERNAL,
};

verus! {

pub const COLOR_BUFFER: usize = 0;

/// The generic mesh shading render pass.
#[derive(Clone, Copy, Debug)]
pub struct GenericMeshShadingRenderPass;

impl GenericMeshShadingRenderPass {
    pub open spec fn attachment_spec(num: usize) -> Option<AttachmentDescription> {
        if num == COLOR_BUFFER {
            Some(
                color_attachment(
                    Format::B8G8R8A8Srgb,
                    LoadOp::Clear,
                    StoreOp::Store,
                    ImageLayout::Undefined,
                    ImageLayout::ColorAttachmentOptimal,
                ),
            )
        } else {
            None
        }
    }

    pub open spec fn subpass_spec() -> PassView {
        simple_pass(seq![(COLOR_BUFFER, ImageLayout::ColorAttachmentOptimal)], seq![])
    }

    pub open spec fn dependency_spec(num: usize) -> Option<PassDependencyDescription> {
        if num == 0 {
            Some(
                PassDependencyDescription {
                    source_subpass: 0,
                    destination_subpass: SUBPASS_EXTERNAL,
                    source_stages: PipelineStages { color_attachment_output: true, ..no_stages() },
                    destination_stages: PipelineStages { fragment_shader: true, ..no_stages() },
                    source_access: geometry_write_access(),
                    destination_access: attachment_read_write_access(),
                    by_region: false,
                },
            )
        } else {
            None
        }
    }

    pub fn num_attachments(&self) -> (r: usize)
        ensures
            r == 1,
    {
        1
    }

    /// The one color target, cleared and stored.
    pub fn attachment_desc(&self, num: usize) -> (r: Option<AttachmentDescription>)
        ensures
            r == Self::attachment_spec(num),
            r is Some <==> num < 1,
    {
        if num == COLOR_BUFFER {
            Some(
                make_attachment(
                    Format::B8G8R8A8Srgb,
                    LoadOp::Clear,
                    StoreOp::Store,
                    ImageLayout::Undefined,
                    ImageLayout::ColorAttachmentOptimal,
                ),
            )
        } else {
            None
        }
    }

    pub fn num_subpasses(&self) -> (r: usize)
        ensures
            r == 1,
    {
        1
    }

    /// The single subpass, writing the color target.
    pub fn subpass_desc(&self, num: usize) -> (r: Option<PassDescription>)
        ensures
            r is Some <==> num == 0,
            r matches Some(d) ==> d.view() == Self::subpass_spec() && d.view().refers_within(1),
    {
        if num == 0 {
            let d = make_simple_pass(
                vec![(COLOR_BUFFER, ImageLayout::ColorAttachmentOptimal)],
                Vec::new(),
            );
            proof {
                assert(d.view().color =~= Self::subpass_spec().color);
                assert(d.view().input =~= Self::subpass_spec().input);
            }
            Some(d)
        } else {
            None
        }
    }

    pub fn num_dependencies(&self) -> (r: usize)
        ensures
            r == 1,
    {
        1
    }

    /// The color writes are finished before anything outside reads them.
    pub fn dependency_desc(&self, num: usize) -> (r: Option<PassDependencyDescription>)
        ensures
            r == Self::dependency_spec(num),
            r is Some <==> num < 1,
    {
        if num == 0 {
            Some(
                PassDependencyDescription {
                    source_subpass: 0,
                    destination_subpass: SUBPASS_EXTERNAL,
                    source_stages: PipelineStages {
                        color_attachment_output: true,
                        ..PipelineStages::none()
                    },
                    destination_stages: PipelineStages {
                        fragment_shader: true,
                        ..PipelineStages::none()
                    },
                    source_access: make_geometry_write_access(),
                    destination_access: make_attachment_read_write_access(),
                    by_region: false,
                },
            )
        } else {
            None
        }
    }
}

} // verus!
