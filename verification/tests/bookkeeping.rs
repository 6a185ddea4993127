use render2d::buffer::{AppendPlan, BufferLedger};
use render2d::layout::{
    gpu_transform_desc, texture_vertex_desc, vertex_desc, VertexFormat, VertexStepMode, GPU_TRANSFORM_SIZE, INDEX_SIZE,
    TEXTURE_VERTEX_SIZE, VEC2_SIZE, VEC3_SIZE, VERTEX_SIZE,
};
use render2d::material::{texture_copy_layout, ColoredObject, DrawCall, InstanceSource, Material};
use render2d::pose::{InterpolatedPose, Progress};
use render2d::renderer::{FramePlan, Renderer};
use render2d::scene::{Scene, StaticDraw};
use render2d::utils::{acquire_outcome, choose_surface_format, SurfaceError, SurfaceStatus};

use wgpu::TextureFormat::{Bgra8Unorm, Bgra8UnormSrgb, Rgba16Float, Rgba8Unorm, Rgba8UnormSrgb};

type Record = [u32; 6];
type Pose = (i32, i32);

#[test]
fn record_sizes_match_the_float_records() {
    assert_eq!(std::mem::size_of::<[f32; 2]>() as u64, VEC2_SIZE);
    assert_eq!(std::mem::size_of::<[f32; 3]>() as u64, VEC3_SIZE);
    assert_eq!((3 * std::mem::size_of::<[f32; 2]>()) as u64, GPU_TRANSFORM_SIZE);
    assert_eq!((std::mem::size_of::<[f32; 2]>() + std::mem::size_of::<[f32; 3]>()) as u64, VERTEX_SIZE);
    assert_eq!((2 * std::mem::size_of::<[f32; 2]>()) as u64, TEXTURE_VERTEX_SIZE);
    assert_eq!(std::mem::size_of::<u16>() as u64, INDEX_SIZE);
}

#[test]
fn gpu_transform_layout_is_three_packed_vec2_per_instance() {
    let d = gpu_transform_desc();
    assert_eq!(d.array_stride, 24);
    assert_eq!(d.step_mode, VertexStepMode::Instance);
    let offsets: Vec<u64> = d.attributes.iter().map(|a| a.offset).collect();
    let locations: Vec<u32> = d.attributes.iter().map(|a| a.shader_location).collect();
    assert_eq!(offsets, vec![0, 8, 16]);
    assert_eq!(locations, vec![2, 3, 4]);
    assert!(d.attributes.iter().all(|a| a.format == VertexFormat::Float32x2));
}

#[test]
fn vertex_layouts_are_packed_per_vertex() {
    let v = vertex_desc();
    assert_eq!(v.array_stride, 20);
    assert_eq!(v.step_mode, VertexStepMode::Vertex);
    assert_eq!(v.attributes[0].format, VertexFormat::Float32x2);
    assert_eq!(v.attributes[1].format, VertexFormat::Float32x3);
    assert_eq!(v.attributes[1].offset, 8);
    assert_eq!(v.attributes[1].offset + v.attributes[1].format.size(), v.array_stride);
    let t = texture_vertex_desc();
    assert_eq!(t.array_stride, 16);
    assert_eq!(t.attributes.len(), 2);
    assert_eq!(t.attributes[1].offset + t.attributes[1].format.size(), t.array_stride);
    assert_eq!((t.attributes[0].shader_location, t.attributes[1].shader_location), (0, 1));
}

#[test]
fn ledger_pads_appends_and_doubles_its_capacity() {
    let mut l = BufferLedger::new();
    assert_eq!((l.bytes_used(), l.capacity()), (0, 0));
    assert_eq!(l.append(6), AppendPlan { offset: 0, padded_len: 8, grew: true });
    assert_eq!((l.bytes_used(), l.capacity()), (8, 8));
    assert_eq!(l.append(8), AppendPlan { offset: 8, padded_len: 8, grew: true });
    assert_eq!((l.bytes_used(), l.capacity()), (16, 16));
    assert_eq!(l.append(4), AppendPlan { offset: 16, padded_len: 4, grew: true });
    assert_eq!((l.bytes_used(), l.capacity()), (20, 32));
    assert_eq!(l.append(4), AppendPlan { offset: 20, padded_len: 4, grew: false });
    assert_eq!((l.bytes_used(), l.capacity()), (24, 32));
    assert_eq!(l.last_append(), AppendPlan { offset: 20, padded_len: 4, grew: false });
    assert_eq!(l.append(100), AppendPlan { offset: 24, padded_len: 100, grew: true });
    assert_eq!((l.bytes_used(), l.capacity()), (124, 124));
}

#[test]
fn ledger_accepts_only_aligned_writes_inside_the_used_bytes() {
    let mut l = BufferLedger::new();
    l.append(48);
    assert_eq!(l.update_aligned(24, 24), Some(24));
    assert_eq!(l.update_aligned(0, 48), Some(48));
    assert_eq!(l.update_aligned(0, 46), Some(48));
    assert_eq!(l.update_aligned(2, 4), None);
    assert_eq!(l.update_aligned(28, 24), None);
    assert_eq!(l.update_aligned(48, 0), Some(0));
    assert_eq!(l.update_aligned(52, 0), None);
    assert_eq!(l.update_aligned(0, u64::MAX), None);
}

#[test]
fn new_pose_rests_on_its_transform() {
    let p = InterpolatedPose::new((1, 2));
    assert_eq!(p.target(), (1, 2));
    assert_eq!(p.current(), (1, 2));
    assert_eq!(p.progress(0), Progress::Settled);
    assert_eq!(p.progress(u64::MAX), Progress::Settled);
}

#[test]
fn pose_moves_during_its_duration_then_settles() {
    let mut p = InterpolatedPose::new((0, 0));
    p.update_target(&(10, 10), 100, 10);
    assert_eq!(p.target(), (10, 10));
    assert_eq!(p.current(), (0, 0));
    assert_eq!(p.progress(50), Progress::Moving { elapsed: 0, duration: 10 });
    assert_eq!(p.progress(100), Progress::Moving { elapsed: 0, duration: 10 });
    assert_eq!(p.progress(105), Progress::Moving { elapsed: 5, duration: 10 });
    assert_eq!(p.progress(110), Progress::Moving { elapsed: 10, duration: 10 });
    assert_eq!(p.progress(111), Progress::Settled);
    assert_eq!(p.progress(u64::MAX), Progress::Settled);
}

#[test]
fn moving_the_target_starts_from_the_old_target() {
    let mut p = InterpolatedPose::new((0, 0));
    p.update_target(&(5, 5), 0, 100);
    p.move_target_absolute((9, 9), 20, 0);
    assert_eq!(p.current(), (5, 5));
    assert_eq!(p.target(), (9, 9));
    assert_eq!(p.progress(20), Progress::Settled);
    p.move_target_absolute((1, 1), 30, 7);
    assert_eq!(p.current(), (9, 9));
    assert_eq!(p.progress(37), Progress::Moving { elapsed: 7, duration: 7 });
}

#[test]
fn meshes_take_their_offsets_from_the_shared_buffers() {
    let mut m: Material<Record, Pose> = Material::new();
    assert_eq!(m.create_mesh(4, &[0, 1, 2, 2, 3, 0]), 0);
    assert_eq!((m.meshes[0].vertex_offset, m.meshes[0].index_offset, m.meshes[0].num_indices), (0, 0, 6));
    assert_eq!(m.vertex_buffer.bytes_used(), 64);
    assert_eq!(m.index_buffer.bytes_used(), 12);
    assert_eq!(m.vertex_buffer.last_append(), AppendPlan { offset: 0, padded_len: 64, grew: true });
    assert_eq!(m.create_mesh(3, &[0, 1, 2]), 1);
    // The vertex offset is counted from the index buffer and the index
    // offset from the vertex buffer.
    assert_eq!(m.meshes[1].vertex_offset, 12 / 16);
    assert_eq!(m.meshes[1].index_offset, 64 / 2);
    assert_eq!(m.meshes[1].num_indices, 3);
    assert_eq!(m.vertex_buffer.bytes_used(), 112);
    assert_eq!(m.index_buffer.bytes_used(), 20);
    assert_eq!(m.index_buffer.last_append(), AppendPlan { offset: 12, padded_len: 8, grew: true });
    assert_eq!(m.create_mesh(1, &[0]), 2);
    assert_eq!((m.meshes[2].vertex_offset, m.meshes[2].index_offset), (20 / 16, 112 / 2));
}

#[test]
fn instances_fill_their_buffers_record_by_record() {
    let mut m: Material<Record, Pose> = Material::new();
    m.create_mesh(4, &[0, 1, 2]);
    m.create_mesh(4, &[0, 1, 2]);
    m.add_instance([1; 6], 1);
    m.add_instance([2; 6], 1);
    assert_eq!(m.meshes[1].transformations, vec![[1; 6], [2; 6]]);
    assert!(m.meshes[0].transformations.is_empty());
    assert_eq!(m.meshes[1].direct_transform_buffer.bytes_used(), 48);
    assert_eq!(m.meshes[1].direct_transform_buffer.last_append(), AppendPlan { offset: 24, padded_len: 24, grew: true });
    assert_eq!(m.move_object_absolute(1, 1, [7; 6]), 24);
    assert_eq!(m.meshes[1].transformations, vec![[1; 6], [7; 6]]);
    assert_eq!(m.meshes[1].direct_transform_buffer.update_aligned(24, 24), Some(24));
    assert_eq!(m.move_object_absolute(1, 0, [8; 6]), 0);
    assert_eq!(m.meshes[1].transformations, vec![[8; 6], [7; 6]]);
}

#[test]
fn interpolated_instances_are_recomputed_from_their_poses() {
    let mut m: Material<Record, Pose> = Material::new();
    m.create_mesh(4, &[0, 1, 2]);
    m.add_interpolated_instance(&(3, 4), [0; 6], 0);
    m.add_interpolated_instance(&(5, 6), [0; 6], 0);
    assert_eq!(m.meshes[0].interpolated_poses.len(), 2);
    assert_eq!(m.meshes[0].interpolated_transforms.len(), 2);
    assert_eq!(m.meshes[0].interpolated_transform_buffer.bytes_used(), 48);
    assert_eq!(m.meshes[0].interpolated_poses[1].target(), (5, 6));
    m.update_interpolations(1000, |pose: &InterpolatedPose<Pose>, t: u64| {
        let (x, y) = pose.target();
        [x as u32, y as u32, t as u32, 0, 0, 0]
    });
    assert_eq!(m.meshes[0].interpolated_transforms, vec![[3, 4, 1000, 0, 0, 0], [5, 6, 1000, 0, 0, 0]]);
    assert!(m.meshes[0].transformations.is_empty());
}

#[test]
fn each_mesh_is_drawn_once_per_instance_buffer() {
    let mut m: Material<Record, Pose> = Material::new();
    assert!(m.draw_calls().is_empty());
    m.create_mesh(4, &[0, 1, 2, 2, 3, 0]);
    m.create_mesh(4, &[0, 1, 2]);
    m.add_instance([0; 6], 0);
    m.add_instance([0; 6], 0);
    m.add_interpolated_instance(&(0, 0), [0; 6], 1);
    let calls = m.draw_calls();
    assert_eq!(calls, vec![
        DrawCall { mesh: 0, instances: InstanceSource::Direct, index_start: 0, index_end: 6, base_vertex: 0, instance_count: 2 },
        DrawCall { mesh: 0, instances: InstanceSource::Interpolated, index_start: 0, index_end: 6, base_vertex: 0, instance_count: 0 },
        DrawCall { mesh: 1, instances: InstanceSource::Direct, index_start: 32, index_end: 35, base_vertex: 0, instance_count: 0 },
        DrawCall { mesh: 1, instances: InstanceSource::Interpolated, index_start: 32, index_end: 35, base_vertex: 0, instance_count: 1 },
    ]);
}

#[test]
fn texture_rows_are_four_bytes_per_texel() {
    let l = texture_copy_layout(100, 50);
    assert_eq!((l.offset, l.bytes_per_row, l.rows_per_image), (0, 400, 200));
}

#[test]
fn static_objects_follow_each_other_in_the_static_buffers() {
    let mut s: Scene<Record, Pose> = Scene::new();
    let a = s.add_static_object(3, &[0, 1, 2]);
    assert_eq!(a, ColoredObject { start_index: 0, num_indices: 3 });
    let b = s.add_static_object(4, &[0, 1, 2, 2, 3, 0]);
    // Three indices take six bytes, padded to eight: four index slots.
    assert_eq!(b, ColoredObject { start_index: 4, num_indices: 6 });
    assert_eq!(s.static_draws, vec![
        StaticDraw { index_start: 0, index_end: 3, base_vertex: 0 },
        StaticDraw { index_start: 4, index_end: 10, base_vertex: 3 },
    ]);
    assert_eq!(s.static_vertex_buffer.bytes_used(), 140);
    assert_eq!(s.add_material(), 0);
    assert_eq!(s.add_material(), 1);
    assert_eq!(s.materials.len(), 2);
}

#[test]
fn a_new_scene_becomes_the_active_scene() {
    let mut r: Renderer<Record, Pose> = Renderer::new();
    assert_eq!(r.active_scene, None);
    assert_eq!(r.create_scene(), 0);
    assert_eq!(r.active_scene, Some(0));
    assert_eq!(r.create_scene(), 1);
    assert_eq!(r.active_scene, Some(1));
    assert_eq!(r.scenes.len(), 2);
}

#[test]
fn object_instances_are_numbered_per_mesh() {
    let mut r: Renderer<Record, Pose> = Renderer::new();
    let s = r.create_scene();
    let mat = r.add_scene_material(s);
    let mesh = r.add_scene_object(s, mat, 4, &[0, 1, 2, 2, 3, 0]);
    assert_eq!(mesh, 0);
    assert_eq!(r.add_object_instance(s, mat, mesh, [1; 6]), 0);
    assert_eq!(r.add_object_instance(s, mat, mesh, [2; 6]), 1);
    assert_eq!(r.add_object_instance(s, mat, mesh, [3; 6]), 2);
    assert_eq!(r.move_object(mat, mesh, 2, [9; 6]), 48);
    assert_eq!(r.scenes[s].materials[mat].meshes[mesh].transformations, vec![[1; 6], [2; 6], [9; 6]]);
    let obj = r.add_static_object(s, 3, &[0, 1, 2]);
    assert_eq!(obj, ColoredObject { start_index: 0, num_indices: 3 });
}

#[test]
fn moving_an_object_acts_on_the_active_scene() {
    let mut r: Renderer<Record, Pose> = Renderer::new();
    for _ in 0..2 {
        let s = r.create_scene();
        let mat = r.add_scene_material(s);
        let mesh = r.add_scene_object(s, mat, 3, &[0, 1, 2]);
        r.add_object_instance(s, mat, mesh, [0; 6]);
    }
    r.move_object(0, 0, 0, [5; 6]);
    assert_eq!(r.scenes[1].materials[0].meshes[0].transformations[0], [5; 6]);
    assert_eq!(r.scenes[0].materials[0].meshes[0].transformations[0], [0; 6]);
}

#[test]
fn surface_answers_map_to_frame_outcomes() {
    assert_eq!(acquire_outcome(SurfaceStatus::Success), Ok(true));
    assert_eq!(acquire_outcome(SurfaceStatus::Suboptimal), Ok(false));
    assert_eq!(acquire_outcome(SurfaceStatus::Timeout), Err(SurfaceError::Timeout));
    assert_eq!(acquire_outcome(SurfaceStatus::Lost), Err(SurfaceError::Lost));
    assert_eq!(acquire_outcome(SurfaceStatus::Occluded), Err(SurfaceError::Occluded));
    assert_eq!(acquire_outcome(SurfaceStatus::Validation), Err(SurfaceError::Validation));
    assert_eq!(acquire_outcome(SurfaceStatus::Outdated), Err(SurfaceError::Outdated));
}

#[test]
fn the_first_srgb_format_is_chosen() {
    assert_eq!(choose_surface_format(&[Bgra8Unorm, Bgra8UnormSrgb, Rgba8UnormSrgb]), 1);
    assert_eq!(choose_surface_format(&[Rgba8UnormSrgb, Bgra8Unorm]), 0);
    assert_eq!(choose_surface_format(&[Rgba16Float, Rgba8Unorm, Bgra8Unorm]), 0);
    assert_eq!(choose_surface_format(&[Rgba16Float, Rgba8Unorm, Bgra8UnormSrgb]), 2);
    assert_eq!(choose_surface_format(&[Bgra8Unorm]), 0);
}

#[test]
fn a_frame_draws_the_active_scene_unless_the_surface_failed() {
    let mut r: Renderer<Record, Pose> = Renderer::new();
    assert_eq!(r.frame(SurfaceStatus::Success), Ok(FramePlan { scene: None, keep_configuration: true }));
    r.create_scene();
    r.create_scene();
    assert_eq!(r.frame(SurfaceStatus::Success), Ok(FramePlan { scene: Some(1), keep_configuration: true }));
    assert_eq!(r.frame(SurfaceStatus::Suboptimal), Ok(FramePlan { scene: Some(1), keep_configuration: false }));
    assert_eq!(r.frame(SurfaceStatus::Lost), Err(SurfaceError::Lost));
    assert_eq!(r.frame(SurfaceStatus::Outdated), Err(SurfaceError::Outdated));
}
