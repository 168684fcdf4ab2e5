//! The attachment set: which images a frame renders into, with what format
//! and usage. The whole set is (re)allocated together at one size.
use vstd::prelude::*;
use crate::renderpass::Format;

verus! {

/// The semantic channels of the attachment set, in allocation order.
#[derive(Clone, Copy, Debug, PartialEq, Eq, Structural)]
pub enum Channel {
    Position,
    Normal,
    Albedo,
    Roughness,
    Metallic,
    DiffuseLight,
    SpecularLight,
    SceneColor,
    MainDepth,
    LumaRender,
}

/// How an image may be used.
#[derive(Clone, Copy, Debug, PartialEq, Eq, Structural)]
pub struct ImageUsage {
    pub transfer_source: bool,
    pub transfer_destination: bool,
    pub sampled: bool,
    pub color_attachment: bool,
    pub transient_attachment: bool,
    pub input_attachment: bool,
}

/// One image to allocate.
#[derive(Clone, Copy, Debug, PartialEq, Eq, Structural)]
pub struct AttachmentRequest {
    pub channel: Channel,
    pub width: u32,
    pub height: u32,
    pub format: Format,
    pub usage: ImageUsage,
}

/// Usage of the G-buffer and light channels: rendered to, read as input,
/// and copied out.
pub open spec fn gbuffer_usage() -> ImageUsage {
    ImageUsage {
        transfer_source: true,
        transfer_destination: false,
        sampled: false,
        color_attachment: true,
        transient_attachment: false,
        input_attachment: true,
    }
}

/// Usage of the luminance channel: as the G-buffer, and also cleared or
/// written by transfers.
pub open spec fn luma_usage() -> ImageUsage {
    ImageUsage { transfer_destination: true, ..gbuffer_usage() }
}

/// Usage of the depth channel: a transient attachment only.
pub open spec fn depth_usage() -> ImageUsage {
    ImageUsage {
        transfer_source: false,
        transfer_destination: false,
        sampled: false,
        color_attachment: false,
        transient_attachment: true,
        input_attachment: false,
    }
}

/// The channels in allocation order.
pub open spec fn channels_spec() -> Seq<Channel> {
    seq![
        Channel::Position,
        Channel::Normal,
        Channel::Albedo,
        Channel::Roughness,
        Channel::Metallic,
        Channel::DiffuseLight,
        Channel::SpecularLight,
        Channel::SceneColor,
        Channel::MainDepth,
        Channel::LumaRender,
    ]
}

impl Channel {
    pub open spec fn format_spec(self) -> Format {
        match self {
            Channel::MainDepth => Format::D32Sfloat,
            Channel::LumaRender => Format::R32Uint,
            _ => Format::R16G16B16A16Sfloat,
        }
    }

    pub open spec fn usage_spec(self) -> ImageUsage {
        match self {
            Channel::MainDepth => depth_usage(),
            Channel::LumaRender => luma_usage(),
            _ => gbuffer_usage(),
        }
    }

    /// The channel's pixel format.
    pub fn format(&self) -> (r: Format)
        ensures
            r == self.format_spec(),
    {
        match self {
            Channel::MainDepth => Format::D32Sfloat,
            Channel::LumaRender => Format::R32Uint,
            _ => Format::R16G16B16A16Sfloat,
        }
    }

    /// The channel's declared usage.
    pub fn usage(&self) -> (r: ImageUsage)
        ensures
            r == self.usage_spec(),
    {
        let gbuffer = ImageUsage {
            transfer_source: true,
            transfer_destination: false,
            sampled: false,
            color_attachment: true,
            transient_attachment: false,
            input_attachment: true,
        };
        match self {
            Channel::MainDepth => ImageUsage {
                transfer_source: false,
                transfer_destination: false,
                sampled: false,
                color_attachment: false,
                transient_attachment: true,
                input_attachment: false,
            },
            Channel::LumaRender => ImageUsage { transfer_destination: true, ..gbuffer },
            _ => gbuffer,
        }
    }
}

/// Every channel of the set, in allocation order.
pub fn channels() -> (r: Vec<Channel>)
    ensures
        r@ == channels_spec(),
{
    let r = vec![
        Channel::Position,
        Channel::Normal,
        Channel::Albedo,
        Channel::Roughness,
        Channel::Metallic,
        Channel::DiffuseLight,
        Channel::SpecularLight,
        Channel::SceneColor,
        Channel::MainDepth,
        Channel::LumaRender,
    ];
    proof {
        assert(r@ =~= channels_spec());
    }
    r
}

/// The images to allocate for a set at `dimensions`: one per channel, in
/// allocation order, all of the same size, each with its channel's format
/// and usage.
pub fn recreate_attachments(dimensions: [u32; 2]) -> (r: Vec<AttachmentRequest>)
    ensures
        r@.len() == channels_spec().len(),
        forall|i: int|
            0 <= i < r@.len() ==> (#[trigger] r@[i]) == (AttachmentRequest {
                channel: channels_spec()[i],
                width: dimensions[0],
                height: dimensions[1],
                format: channels_spec()[i].format_spec(),
                usage: channels_spec()[i].usage_spec(),
            }),
{
    let all = channels();
    let mut r: Vec<AttachmentRequest> = Vec::new();
    let mut i: usize = 0;
    while i < all.len()
        invariant
            all@ == channels_spec(),
            0 <= i <= all@.len(),
            r@.len() == i,
            forall|j: int|
                0 <= j < i ==> (#[trigger] r@[j]) == (AttachmentRequest {
                    channel: channels_spec()[j],
                    width: dimensions[0],
                    height: dimensions[1],
                    format: channels_spec()[j].format_spec(),
                    usage: channels_spec()[j].usage_spec(),
                }),
        decreases all@.len() - i,
    {
        let c = all[i];
        r.push(
            AttachmentRequest {
                channel: c,
                width: dimensions[0],
                height: dimensions[1],
                format: c.format(),
                usage: c.usage(),
            },
        );
        i = i + 1;
    }
    r
}

} // verus!
