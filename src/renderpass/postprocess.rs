//! Post-processing pass: reads the light targets and writes the output
//! image, scene color and luminance.
use vstd::prelude::*;
use crate::renderpass::resolve_scene_color::{
    float_input, make_float_input, make_scene_color_desc, scene_color_desc,
};
use crate::renderpass::{
    color_attachment, make_attachment, make_simple_pass, no_access, no_stages, simple_pass,
    AccessFlags, AttachmentDescription, Format, ImageLayout, LoadOp, PassDependencyDescription,
    PassDescription, PassView, PipelineStages, StoreOp, SUBPASS_EXTERNAL,
};

verus! {

pub const POSITION_BUFFER: usize = 0;
pub const NORMAL_BUFFER: usize = 1;
pub const ALBEDO_BUFFER: usize = 2;
pub const ROUGHNESS_BUFFER: usize = 3;
pub const METALLIC_BUFFER: usize = 4;
pub const DIFFUSE_IN: usize = 5;
pub const SPECULAR_IN: usize = 6;
pub const SWAPCHAIN_OUT: usize = 7;
pub const SCENE_COLOR: usize = 8;
pub const LUMA_BUFFER: usize = 9;

/// The post-processing render pass.
#[derive(Clone, Copy, Debug)]
pub struct PostProcessRenderPass;

/// What the accesses after the pass read: input and color attachments, memory.
pub open spec fn attachment_read_access() -> AccessFlags {
    AccessFlags {
        input_attachment_read: true,
        color_attachment_read: true,
        memory_read: true,
        ..no_access()
    }
}

fn make_attachment_read_access() -> (r: AccessFlags)
    ensures
        r == attachment_read_access(),
{
    AccessFlags {
        input_attachment_read: true,
        color_attachment_read: true,
        memory_read: true,
        ..AccessFlags::none()
    }
}

impl PostProcessRenderPass {
    pub open spec fn attachment_spec(num: usize) -> Option<AttachmentDescription> {
        if num <= SPECULAR_IN {
            Some(float_input())
        } else if num == SWAPCHAIN_OUT {
            Some(
                color_attachment(
                    Format::B8G8R8A8Srgb,
                    LoadOp::Clear,
                    StoreOp::Store,
                    ImageLayout::Undefined,
                    ImageLayout::ColorAttachmentOptimal,
                ),
            )
        } else if num == SCENE_COLOR {
            Some(scene_color_desc())
        } else if num == LUMA_BUFFER {
            Some(
                color_attachment(
                    Format::R32Sint,
                    LoadOp::Clear,
                    StoreOp::Store,
                    ImageLayout::Undefined,
                    ImageLayout::ColorAttachmentOptimal,
                ),
            )
        } else {
            None
        }
    }

    pub open spec fn subpass_spec() -> PassView {
        simple_pass(
            seq![
                (SWAPCHAIN_OUT, ImageLayout::ColorAttachmentOptimal),
                (SCENE_COLOR, ImageLayout::ColorAttachmentOptimal),
                (LUMA_BUFFER, ImageLayout::ColorAttachmentOptimal),
            ],
            seq![
                (DIFFUSE_IN, ImageLayout::ColorAttachmentOptimal),
                (SPECULAR_IN, ImageLayout::ColorAttachmentOptimal),
            ],
        )
    }

    pub open spec fn dependency_spec(num: usize) -> Option<PassDependencyDescription> {
        if num == 0 {
            Some(
                PassDependencyDescription {
                    source_subpass: SUBPASS_EXTERNAL,
                    destination_subpass: 0,
                    source_stages: PipelineStages { color_attachment_output: true, ..no_stages() },
                    destination_stages: PipelineStages { fragment_shader: true, ..no_stages() },
                    source_access: AccessFlags {
                        color_attachment_read: true,
                        color_attachment_write: true,
                        transfer_write: true,
                        host_write: true,
                        memory_write: true,
                        ..no_access()
                    },
                    destination_access: attachment_read_access(),
                    by_region: false,
                },
            )
        } else if num == 1 {
            Some(
                PassDependencyDescription {
                    source_subpass: 0,
                    destination_subpass: SUBPASS_EXTERNAL,
                    source_stages: PipelineStages { color_attachment_output: true, ..no_stages() },
                    destination_stages: PipelineStages { all_commands: true, ..no_stages() },
                    source_access: AccessFlags {
                        color_attachment_read: true,
                        color_attachment_write: true,
                        ..no_access()
                    },
                    destination_access: attachment_read_access(),
                    by_region: false,
                },
            )
        } else {
            None
        }
    }

    pub fn num_attachments(&self) -> (r: usize)
        ensures
            r == 10,
    {
        10
    }

    /// The G-buffer and light inputs, then the output image, scene color and luminance.
    pub fn attachment_desc(&self, num: usize) -> (r: Option<AttachmentDescription>)
        ensures
            r == Self::attachment_spec(num),
            r is Some <==> num < 10,
    {
        if num <= SPECULAR_IN {
            Some(make_float_input())
        } else if num == SWAPCHAIN_OUT {
            Some(
                make_attachment(
                    Format::B8G8R8A8Srgb,
                    LoadOp::Clear,
                    StoreOp::Store,
                    ImageLayout::Undefined,
                    ImageLayout::ColorAttachmentOptimal,
                ),
            )
        } else if num == SCENE_COLOR {
            Some(make_scene_color_desc())
        } else if num == LUMA_BUFFER {
            Some(
                make_attachment(
                    Format::R32Sint,
                    LoadOp::Clear,
                    StoreOp::Store,
                    ImageLayout::Undefined,
                    ImageLayout::ColorAttachmentOptimal,
                ),
            )
        } else {
            None
        }
    }

    pub fn num_subpasses(&self) -> (r: usize)
        ensures
            r == 1,
    {
        1
    }

    /// The single subpass: writes output, scene color and luminance, reads the light targets.
    pub fn subpass_desc(&self, num: usize) -> (r: Option<PassDescription>)
        ensures
            r is Some <==> num == 0,
            r matches Some(d) ==> d.view() == Self::subpass_spec() && d.view().refers_within(10),
    {
        if num == 0 {
            let d = make_simple_pass(
                vec![
                    (SWAPCHAIN_OUT, ImageLayout::ColorAttachmentOptimal),
                    (SCENE_COLOR, ImageLayout::ColorAttachmentOptimal),
                    (LUMA_BUFFER, ImageLayout::ColorAttachmentOptimal),
                ],
                vec![
                    (DIFFUSE_IN, ImageLayout::ColorAttachmentOptimal),
                    (SPECULAR_IN, ImageLayout::ColorAttachmentOptimal),
                ],
            );
            proof {
                assert(d.view().color =~= Self::subpass_spec().color);
                assert(d.view().input =~= Self::subpass_spec().input);
            }
            Some(d)
        } else {
            None
        }
    }

    pub fn num_dependencies(&self) -> (r: usize)
        ensures
            r == 2,
    {
        2
    }

    /// Earlier writes finish before the pass shades; its own color writes
    /// finish before anything after it.
    pub fn dependency_desc(&self, num: usize) -> (r: Option<PassDependencyDescription>)
        ensures
            r == Self::dependency_spec(num),
            r is Some <==> num < 2,
    {
        if num == 0 {
            Some(
                PassDependencyDescription {
                    source_subpass: SUBPASS_EXTERNAL,
                    destination_subpass: 0,
                    source_stages: PipelineStages {
                        color_attachment_output: true,
                        ..PipelineStages::none()
                    },
                    destination_stages: PipelineStages {
                        fragment_shader: true,
                        ..PipelineStages::none()
                    },
                    source_access: AccessFlags {
                        color_attachment_read: true,
                        color_attachment_write: true,
                        transfer_write: true,
                        host_write: true,
                        memory_write: true,
                        ..AccessFlags::none()
                    },
                    destination_access: make_attachment_read_access(),
                    by_region: false,
                },
            )
        } else if num == 1 {
            Some(
                PassDependencyDescription {
                    source_subpass: 0,
                    destination_subpass: SUBPASS_EXTERNAL,
                    source_stages: PipelineStages {
                        color_attachment_output: true,
                        ..PipelineStages::none()
                    },
                    destination_stages: PipelineStages {
                        all_commands: true,
                        ..PipelineStages::none()
                    },
                    source_access: AccessFlags {
                        color_attachment_read: true,
                        color_attachment_write: true,
                        ..AccessFlags::none()
                    },
                    destination_access: make_attachment_read_access(),
                    by_region: false,
                },
            )
        } else {
            None
        }
    }
}

} // verus!
