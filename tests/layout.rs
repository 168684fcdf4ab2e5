use phosphor::attachments::{channels, recreate_attachments, Channel, ImageUsage};
use phosphor::geometry::generate_chunk_debug_line_indices;
use phosphor::material::MaterialParamType;
use phosphor::renderpass::{
    AttachmentDescription, DeferredLightingRenderPass, Format, GenericMeshShadingRenderPass,
    ImageLayout, LoadOp, PostProcessRenderPass, ResolveSceneColorRenderPass, StoreOp,
    SUBPASS_EXTERNAL,
};

#[test]
fn debug_line_indices_first_box() {
    assert_eq!(
        generate_chunk_debug_line_indices(0),
        [0, 1, 1, 2, 2, 3, 3, 0, 0, 4, 1, 5, 2, 6, 3, 7, 4, 5, 5, 6, 6, 7, 7, 4]
    );
}

#[test]
fn debug_line_indices_offset_box() {
    let r = generate_chunk_debug_line_indices(3);
    assert_eq!(r[0], 24);
    assert_eq!(r[9], 28);
    assert_eq!(r[23], 28);
    assert!(r.iter().all(|&i| (24..32).contains(&i)));
}

#[test]
fn deferred_lighting_layout() {
    let p = DeferredLightingRenderPass;
    assert_eq!(p.num_attachments(), 7);
    let input = p.attachment_desc(0).unwrap();
    assert_eq!(input.format, Format::R16G16B16A16Sfloat);
    assert_eq!(input.load, LoadOp::Load);
    assert_eq!(input.store, StoreOp::DontCare);
    assert_eq!(input.initial_layout, ImageLayout::ShaderReadOnlyOptimal);
    let out = p.attachment_desc(6).unwrap();
    assert_eq!(out.load, LoadOp::Clear);
    assert_eq!(out.store, StoreOp::Store);
    assert_eq!(p.attachment_desc(7), None);
    let sub = p.subpass_desc(0).unwrap();
    assert_eq!(sub.color_attachments, vec![(5, ImageLayout::ColorAttachmentOptimal), (6, ImageLayout::ColorAttachmentOptimal)]);
    assert_eq!(sub.input_attachments.iter().map(|a| a.0).collect::<Vec<_>>(), vec![0, 1, 2, 3, 4]);
    assert!(p.subpass_desc(1).is_none());
    assert_eq!(p.num_dependencies(), 0);
    assert!(p.dependency_desc(0).is_none());
}

#[test]
fn mesh_shading_layout() {
    let p = GenericMeshShadingRenderPass;
    assert_eq!(p.num_attachments(), 1);
    assert_eq!(
        p.attachment_desc(0),
        Some(AttachmentDescription {
            format: Format::B8G8R8A8Srgb,
            samples: 1,
            load: LoadOp::Clear,
            store: StoreOp::Store,
            stencil_load: LoadOp::DontCare,
            stencil_store: StoreOp::DontCare,
            initial_layout: ImageLayout::Undefined,
            final_layout: ImageLayout::ColorAttachmentOptimal,
        })
    );
    assert_eq!(p.attachment_desc(1), None);
    let d = p.dependency_desc(0).unwrap();
    assert_eq!(d.source_subpass, 0);
    assert_eq!(d.destination_subpass, SUBPASS_EXTERNAL);
    assert!(d.source_stages.color_attachment_output && d.destination_stages.fragment_shader);
    assert!(d.destination_access.input_attachment_read && !d.source_access.input_attachment_read);
    assert!(p.dependency_desc(1).is_none());
}

#[test]
fn resolve_scene_color_layout() {
    let p = ResolveSceneColorRenderPass;
    assert_eq!(p.num_attachments(), 4);
    assert_eq!(p.attachment_desc(3).unwrap().format, Format::R32Uint);
    assert_eq!(p.attachment_desc(2).unwrap().initial_layout, ImageLayout::ColorAttachmentOptimal);
    assert_eq!(p.attachment_desc(4), None);
    let sub = p.subpass_desc(0).unwrap();
    assert_eq!(sub.color_attachments.iter().map(|a| a.0).collect::<Vec<_>>(), vec![2, 3]);
    assert_eq!(sub.input_attachments.iter().map(|a| a.0).collect::<Vec<_>>(), vec![0, 1]);
    let d = p.dependency_desc(0).unwrap();
    assert_eq!(d.source_subpass, SUBPASS_EXTERNAL);
    assert_eq!(d.destination_subpass, 0);
}

#[test]
fn postprocess_layout() {
    let p = PostProcessRenderPass;
    assert_eq!(p.num_attachments(), 10);
    for i in 0..7 {
        assert_eq!(p.attachment_desc(i).unwrap().load, LoadOp::Load);
    }
    assert_eq!(p.attachment_desc(7).unwrap().format, Format::B8G8R8A8Srgb);
    assert_eq!(p.attachment_desc(9).unwrap().format, Format::R32Sint);
    assert_eq!(p.attachment_desc(10), None);
    assert_eq!(p.num_dependencies(), 2);
    let d0 = p.dependency_desc(0).unwrap();
    let d1 = p.dependency_desc(1).unwrap();
    assert!(d0.source_access.host_write && d0.source_access.transfer_write);
    assert!(d1.destination_stages.all_commands);
    assert_eq!(d1.destination_subpass, SUBPASS_EXTERNAL);
    assert!(p.dependency_desc(2).is_none());
}

#[test]
fn attachments_share_dimensions() {
    let reqs = recreate_attachments([1366, 768]);
    assert_eq!(reqs.len(), 10);
    assert_eq!(reqs.iter().map(|r| r.channel).collect::<Vec<_>>(), channels());
    assert!(reqs.iter().all(|r| r.width == 1366 && r.height == 768));
    let depth = reqs.iter().find(|r| r.channel == Channel::MainDepth).unwrap();
    assert_eq!(depth.format, Format::D32Sfloat);
    assert!(depth.usage.transient_attachment && !depth.usage.color_attachment);
    let luma = reqs.iter().find(|r| r.channel == Channel::LumaRender).unwrap();
    assert_eq!(luma.format, Format::R32Uint);
    assert_eq!(
        luma.usage,
        ImageUsage {
            transfer_source: true,
            transfer_destination: true,
            sampled: false,
            color_attachment: true,
            transient_attachment: false,
            input_attachment: true,
        }
    );
    assert!(!Channel::Albedo.usage().transfer_destination);
}

#[test]
fn material_param_kinds_are_distinct() {
    assert_ne!(MaterialParamType::Float, MaterialParamType::Vec4);
    assert_eq!(MaterialParamType::Texture.clone(), MaterialParamType::Texture);
}

#[test]
fn reduction_plan_for_analysis_buffer() {
    let p = phosphor::reduction::reduction_plan(512 * 512, 256);
    assert_eq!(p.stage1_groups, 1024);
    assert_eq!(p.stage2_groups, 4);
}

#[test]
fn reduction_plan_rounds_partial_groups_up() {
    let p = phosphor::reduction::reduction_plan(1000, 256);
    assert_eq!(p.stage1_groups, 4);
    assert_eq!(p.stage2_groups, 1);
    let empty = phosphor::reduction::reduction_plan(0, 64);
    assert_eq!((empty.stage1_groups, empty.stage2_groups), (0, 0));
    let max = phosphor::reduction::reduction_plan(u32::MAX, 1);
    assert_eq!(max.stage2_groups, u32::MAX);
}
