//! Scene color resolve pass: combines the light targets into scene color and
//! writes per-pixel luminance for exposure analysis.
use vstd::prelude::*;
use crate::renderpass::{
    attachment_read_write_access, color_attachment, geometry_write_access, make_attachment,
    make_attachment_read_write_access, make_geometry_write_access, make_simple_pass, no_stages,
    simple_pass, AttachmentDescription, Format, ImageLayout, LoadOp, PassDependencyDescription,
    PassDescription, PassView, PipelineStages, StoreOp, SUBPASS_EXTERNAL,
};

verus! {

pub const DIFFUSE_IN: usize = 0;
pub const SPECULAR_IN: usize = 1;
pub const SCENE_COLOR: usize = 2;
pub const LUMA_BUFFER: usize = 3;

/// The scene color resolve render pass.
#[derive(Clone, Copy, Debug)]
pub struct ResolveSceneColorRenderPass;

/// A light target read as input: loaded, not stored.
pub open spec fn float_input() -> AttachmentDescription {
    color_attachment(
        Format::R16G16B16A16Sfloat,
        LoadOp::Load,
        StoreOp::DontCare,
        ImageLayout::Undefined,
        ImageLayout::ColorAttachmentOptimal,
    )
}

/// The scene color target, cleared and stored.
pub open spec fn scene_color_desc() -> AttachmentDescription {
    color_attachment(
        Format::R16G16B16A16Sfloat,
        LoadOp::Clear,
        StoreOp::Store,
        ImageLayout::ColorAttachmentOptimal,
        ImageLayout::ColorAttachmentOptimal,
    )
}

pub(crate) fn make_float_input() -> (r: AttachmentDescription)
    ensures
        r == float_input(),
{
    make_attachment(
        Format::R16G16B16A16Sfloat,
        LoadOp::Load,
        StoreOp::DontCare,
        ImageLayout::Undefined,
        ImageLayout::ColorAttachmentOptimal,
    )
}

pub(crate) fn make_scene_color_desc() -> (r: AttachmentDescription)
    ensures
        r == scene_color_desc(),
{
    make_attachment(
        Format::R16G16B16A16Sfloat,
        LoadOp::Clear,
        StoreOp::Store,
        ImageLayout::ColorAttachmentOptimal,
        ImageLayout::ColorAttachmentOptimal,
    )
}

impl ResolveSceneColorRenderPass {
    pub open spec fn attachment_spec(num: usize) -> Option<AttachmentDescription> {
        if num == DIFFUSE_IN || num == SPECULAR_IN {
            Some(float_input())
        } else if num == SCENE_COLOR {
            Some(scene_color_desc())
        } else if num == LUMA_BUFFER {
            Some(
                color_attachment(
                    Format::R32Uint,
                    LoadOp::Clear,
                    StoreOp::Store,
                    ImageLayout::Undefined,
                    ImageLayout::ColorAttachmentOptimal,
                ),
            )
        } else {
            None
        }
    }

    pub open spec fn subpass_spec() -> PassView {
        simple_pass(
            seq![
                (SCENE_COLOR, ImageLayout::ColorAttachmentOptimal),
                (LUMA_BUFFER, ImageLayout::ColorAttachmentOptimal),
            ],
            seq![
                (DIFFUSE_IN, ImageLayout::ColorAttachmentOptimal),
                (SPECULAR_IN, ImageLayout::ColorAttachmentOptimal),
            ],
        )
    }

    pub open spec fn dependency_spec(num: usize) -> Option<PassDependencyDescription> {
        if num == 0 {
            Some(
                PassDependencyDescription {
                    source_subpass: SUBPASS_EXTERNAL,
                    destination_subpass: 0,
                    source_stages: PipelineStages { color_attachment_output: true, ..no_stages() },
                    destination_stages: PipelineStages { fragment_shader: true, ..no_stages() },
                    source_access: geometry_write_access(),
                    destination_access: attachment_read_write_access(),
                    by_region: false,
                },
            )
        } else {
            None
        }
    }

    pub fn num_attachments(&self) -> (r: usize)
        ensures
            r == 4,
    {
        4
    }

    /// The two light inputs, then scene color and luminance.
    pub fn attachment_desc(&self, num: usize) -> (r: Option<AttachmentDescription>)
        ensures
            r == Self::attachment_spec(num),
            r is Some <==> num < 4,
    {
        if num == DIFFUSE_IN || num == SPECULAR_IN {
            Some(make_float_input())
        } else if num == SCENE_COLOR {
            Some(make_scene_color_desc())
        } else if num == LUMA_BUFFER {
            Some(
                make_attachment(
                    Format::R32Uint,
                    LoadOp::Clear,
                    StoreOp::Store,
                    ImageLayout::Undefined,
                    ImageLayout::ColorAttachmentOptimal,
                ),
            )
        } else {
            None
        }
    }

    pub fn num_subpasses(&self) -> (r: usize)
        ensures
            r == 1,
    {
        1
    }

    /// The single subpass: writes scene color and luminance, reads the light targets.
    pub fn subpass_desc(&self, num: usize) -> (r: Option<PassDescription>)
        ensures
            r is Some <==> num == 0,
            r matches Some(d) ==> d.view() == Self::subpass_spec() && d.view().refers_within(4),
    {
        if num == 0 {
            let d = make_simple_pass(
                vec![
                    (SCENE_COLOR, ImageLayout::ColorAttachmentOptimal),
                    (LUMA_BUFFER, ImageLayout::ColorAttachmentOptimal),
                ],
                vec![
                    (DIFFUSE_IN, ImageLayout::ColorAttachmentOptimal),
                    (SPECULAR_IN, ImageLayout::ColorAttachmentOptimal),
                ],
            );
            proof {
                assert(d.view().color =~= Self::subpass_spec().color);
                assert(d.view().input =~= Self::subpass_spec().input);
            }
            Some(d)
        } else {
            None
        }
    }

    pub fn num_dependencies(&self) -> (r: usize)
        ensures
            r == 1,
    {
        1
    }

    /// Writes from before the pass are finished before its fragment shading.
    pub fn dependency_desc(&self, num: usize) -> (r: Option<PassDependencyDescription>)
        ensures
            r == Self::dependency_spec(num),
            r is Some <==> num < 1,
    {
        if num == 0 {
            Some(
                PassDependencyDescription {
                    source_subpass: SUBPASS_EXTERNAL,
                    destination_subpass: 0,
                    source_stages: PipelineStages {
                        color_attachment_output: true,
                        ..PipelineStages::none()
                    },
                    destination_stages: PipelineStages {
                        fragment_shader: true,
                        ..PipelineStages::none()
                    },
                    source_access: make_geometry_write_access(),
                    destination_access: make_attachment_read_write_access(),
                    by_region: false,
                },
            )
        } else {
            None
        }
    }
}

} // verus!
