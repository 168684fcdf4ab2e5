//! Lighting pass: reads the G-buffer as input attachments and writes the
//! diffuse and specular light accumulation targets.
use vstd::prelude::*;
use crate::renderpass::{
    color_attachment, make_attachment, make_simple_pass, simple_pass, AttachmentDescription, Format,
    ImageLayout, LoadOp, PassDependencyDescription, PassDescription, PassView, StoreOp,
};

verus! {

pub const POSITION_BUFFER: usize = 0;
pub const NORMAL_BUFFER: usize = 1;
pub const ALBEDO_BUFFER: usize = 2;
pub const ROUGHNESS_BUFFER: usize = 3;
pub const METALLIC_BUFFER: usize = 4;
pub const DIFFUSE_OUT: usize = 5;
pub const SPECULAR_OUT: usize = 6;

/// The deferred lighting render pass.
#[derive(Clone, Copy, Debug)]
pub struct DeferredLightingRenderPass;

/// A G-buffer channel, loaded and read in the shader-read layout.
pub open spec fn float_input_desc() -> AttachmentDescription {
    color_attachment(
        Format::R16G16B16A16Sfloat,
        LoadOp::Load,
        StoreOp::DontCare,
        ImageLayout::ShaderReadOnlyOptimal,
        ImageLayout::ShaderReadOnlyOptimal,
    )
}

/// A light accumulation target, cleared and stored.
pub open spec fn float_output_desc() -> AttachmentDescription {
    color_attachment(
        Format::R16G16B16A16Sfloat,
        LoadOp::Clear,
        StoreOp::Store,
        ImageLayout::ColorAttachmentOptimal,
        ImageLayout::ColorAttachmentOptimal,
    )
}

impl DeferredLightingRenderPass {
    pub open spec fn attachment_spec(num: usize) -> Option<AttachmentDescription> {
        if num < DIFFUSE_OUT {
            Some(float_input_desc())
        } else if num <= SPECULAR_OUT {
            Some(float_output_desc())
        } else {
            None
        }
    }

    pub open spec fn subpass_spec() -> PassView {
        simple_pass(
            seq![
                (DIFFUSE_OUT, ImageLayout::ColorAttachmentOptimal),
                (SPECULAR_OUT, ImageLayout::ColorAttachmentOptimal),
            ],
            seq![
                (POSITION_BUFFER, ImageLayout::ShaderReadOnlyOptimal),
                (NORMAL_BUFFER, ImageLayout::ShaderReadOnlyOptimal),
                (ALBEDO_BUFFER, ImageLayout::ShaderReadOnlyOptimal),
                (ROUGHNESS_BUFFER, ImageLayout::ShaderReadOnlyOptimal),
                (METALLIC_BUFFER, ImageLayout::ShaderReadOnlyOptimal),
            ],
        )
    }

    pub fn num_attachments(&self) -> (r: usize)
        ensures
            r == 7,
    {
        7
    }

    /// The five G-buffer inputs, then the diffuse and specular outputs.
    pub fn attachment_desc(&self, num: usize) -> (r: Option<AttachmentDescription>)
        ensures
            r == Self::attachment_spec(num),
            r is Some <==> num < 7,
    {
        if num < DIFFUSE_OUT {
            Some(
                make_attachment(
                    Format::R16G16B16A16Sfloat,
                    LoadOp::Load,
                    StoreOp::DontCare,
                    ImageLayout::ShaderReadOnlyOptimal,
                    ImageLayout::ShaderReadOnlyOptimal,
                ),
            )
        } else if num <= SPECULAR_OUT {
            Some(
                make_attachment(
                    Format::R16G16B16A16Sfloat,
                    LoadOp::Clear,
                    StoreOp::Store,
                    ImageLayout::ColorAttachmentOptimal,
                    ImageLayout::ColorAttachmentOptimal,
                ),
            )
        } else {
            None
        }
    }

    pub fn num_subpasses(&self) -> (r: usize)
        ensures
            r == 1,
    {
        1
    }

    /// The single subpass: writes both light targets, reads the G-buffer.
    pub fn subpass_desc(&self, num: usize) -> (r: Option<PassDescription>)
        ensures
            r is Some <==> num == 0,
            r matches Some(d) ==> d.view() == Self::subpass_spec() && d.view().refers_within(7),
    {
        if num == 0 {
            let color = vec![
                (DIFFUSE_OUT, ImageLayout::ColorAttachmentOptimal),
                (SPECULAR_OUT, ImageLayout::ColorAttachmentOptimal),
            ];
            let input = vec![
                (POSITION_BUFFER, ImageLayout::ShaderReadOnlyOptimal),
                (NORMAL_BUFFER, ImageLayout::ShaderReadOnlyOptimal),
                (ALBEDO_BUFFER, ImageLayout::ShaderReadOnlyOptimal),
                (ROUGHNESS_BUFFER, ImageLayout::ShaderReadOnlyOptimal),
                (METALLIC_BUFFER, ImageLayout::ShaderReadOnlyOptimal),
            ];
            let d = make_simple_pass(color, input);
            proof {
                assert(d.view().color =~= Self::subpass_spec().color);
                assert(d.view().input =~= Self::subpass_spec().input);
            }
            Some(d)
        } else {
            None
        }
    }

    pub fn num_dependencies(&self) -> (r: usize)
        ensures
            r == 0,
    {
        0
    }

    /// The pass declares no dependencies.
    pub fn dependency_desc(&self, num: usize) -> (r: Option<PassDependencyDescription>)
        ensures
            r is None,
    {
        None
    }
}

} // verus!
