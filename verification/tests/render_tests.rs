use std::collections::HashMap;
use yakui::draw::{clip_scissor, plan_draw, Pipeline, ScissorRect, YakuiDrawCommand};
use yakui::mesh::MeshBuffers;
use yakui::texture_sync::{plan_texture_sync, TextureAction, TextureChange};
use yakui::textures::{
    sampler_settings, select_texture, ManagedTextureId, MipmapFilter, TextureId, TextureSource,
    UserTextures,
};

#[test]
fn scissor_is_cut_at_the_surface_edges() {
    assert_eq!(
        clip_scissor((10, 20), (100, 100), (50, 60)),
        Some(ScissorRect { x: 10, y: 20, width: 40, height: 40 })
    );
}

#[test]
fn scissor_inside_the_surface_is_the_clip() {
    assert_eq!(
        clip_scissor((1, 2), (3, 4), (100, 100)),
        Some(ScissorRect { x: 1, y: 2, width: 3, height: 4 })
    );
}

#[test]
fn scissor_beyond_or_on_the_edge_is_skipped() {
    assert_eq!(clip_scissor((101, 0), (5, 5), (100, 100)), None);
    assert_eq!(clip_scissor((100, 0), (5, 5), (100, 100)), None);
    assert_eq!(clip_scissor((0, 0), (0, 5), (100, 100)), None);
    assert_eq!(clip_scissor((0, 0), (5, 0), (100, 100)), None);
}

#[test]
fn unclipped_draw_covers_the_surface() {
    let cmd = YakuiDrawCommand { index_range: 3..9, bind_group: 42, pipeline: Pipeline::Text };
    let step = plan_draw(&cmd, None, (640, 480)).unwrap();
    assert_eq!(step.scissor, ScissorRect { x: 0, y: 0, width: 640, height: 480 });
    assert_eq!(step.pipeline, Pipeline::Text);
    assert_eq!(step.index_range, 3..9);
    assert_eq!(step.bind_group, 42);
}

#[test]
fn clipped_draw_uses_the_clip_or_is_skipped() {
    let cmd = YakuiDrawCommand { index_range: 0..6, bind_group: 1, pipeline: Pipeline::Main };
    let step = plan_draw(&cmd, Some(((600, 400), (100, 100))), (640, 480)).unwrap();
    assert_eq!(step.scissor, ScissorRect { x: 600, y: 400, width: 40, height: 80 });
    assert!(plan_draw(&cmd, Some(((700, 0), (10, 10))), (640, 480)).is_none());
}

#[test]
fn appended_meshes_are_rebased() {
    let mut mesh: MeshBuffers<[u8; 2]> = MeshBuffers::new();
    let r1 = mesh.append(&[[0, 0], [1, 1], [2, 2]], &[0, 1, 2]);
    assert_eq!(r1, 0..3);
    let r2 = mesh.append(&[[3, 3], [4, 4]], &[1, 0, 1]);
    assert_eq!(r2, 3..6);
    assert_eq!(mesh.indices(), &[0, 1, 2, 4, 3, 4]);
    assert_eq!(mesh.vertices().len(), 5);
    assert_eq!(mesh.vertices()[mesh.indices()[3] as usize], [4, 4]);
    mesh.clear();
    assert!(mesh.indices().is_empty());
    assert!(mesh.vertices().is_empty());
    assert_eq!(mesh.append(&[[9, 9]], &[0]), 0..1);
    assert_eq!(mesh.indices(), &[0]);
}

#[test]
fn missing_textures_fall_back_to_the_default() {
    let user = UserTextures::new();
    let mut managed: HashMap<u64, &str> = HashMap::new();
    managed.insert(5, "font atlas");
    assert_eq!(
        select_texture(Some(TextureId::Managed(ManagedTextureId(5))), &managed, &user),
        TextureSource::Managed(ManagedTextureId(5))
    );
    assert_eq!(
        select_texture(Some(TextureId::Managed(ManagedTextureId(6))), &managed, &user),
        TextureSource::Default
    );
    assert_eq!(select_texture(Some(TextureId::User(1u64 << 32)), &managed, &user), TextureSource::Default);
    assert_eq!(select_texture(Some(TextureId::User(0)), &managed, &user), TextureSource::Default);
    assert_eq!(select_texture(None, &managed, &user), TextureSource::Default);
    assert!(!user.contains(TextureId::User(1u64 << 32)));
    assert!(!user.contains(TextureId::Managed(ManagedTextureId(5))));
    assert!(user.get(1u64 << 32).is_none());
}

#[test]
fn texture_sync_creates_missing_then_applies_edits() {
    let mut current: HashMap<u64, ()> = HashMap::new();
    current.insert(1, ());
    let m = ManagedTextureId;
    let actions = plan_texture_sync(
        &current,
        &[m(1), m(2), m(2)],
        &[
            (m(3), TextureChange::Modified),
            (m(2), TextureChange::Modified),
            (m(1), TextureChange::Removed),
            (m(1), TextureChange::Modified),
            (m(4), TextureChange::Added),
            (m(4), TextureChange::Modified),
        ],
    );
    assert_eq!(
        actions,
        vec![
            TextureAction::Create(m(2)),
            TextureAction::Update(m(2)),
            TextureAction::Remove(m(1)),
            TextureAction::Create(m(4)),
            TextureAction::Update(m(4)),
        ]
    );
}

#[test]
fn texture_sync_with_nothing_to_do() {
    let current: HashMap<u64, ()> = HashMap::new();
    assert!(plan_texture_sync(&current, &[], &[]).is_empty());
}

#[test]
fn texture_sync_creates_each_missing_texture_once() {
    let mut current: HashMap<u64, ()> = HashMap::new();
    current.insert(2, ());
    let m = ManagedTextureId;
    let actions = plan_texture_sync(&current, &[m(1), m(2), m(3), m(1)], &[]);
    assert_eq!(actions, vec![TextureAction::Create(m(1)), TextureAction::Create(m(3))]);
}

#[test]
fn texture_sync_added_replaces_and_removed_drops() {
    let mut current: HashMap<u64, ()> = HashMap::new();
    current.insert(7, ());
    let m = ManagedTextureId;
    let actions = plan_texture_sync(
        &current,
        &[m(7)],
        &[(m(7), TextureChange::Added), (m(8), TextureChange::Removed), (m(8), TextureChange::Modified)],
    );
    assert_eq!(actions, vec![TextureAction::Create(m(7)), TextureAction::Remove(m(8))]);
}

#[test]
fn managed_and_default_textures_sample_the_nearest_mipmap() {
    let user = UserTextures::new();
    for source in [TextureSource::Default, TextureSource::Managed(ManagedTextureId(3))] {
        let s = sampler_settings(
            source,
            &user,
            wgpu::FilterMode::Linear,
            wgpu::FilterMode::Nearest,
            wgpu::AddressMode::Repeat,
        );
        assert_eq!(s.min_filter, wgpu::FilterMode::Linear);
        assert_eq!(s.mag_filter, wgpu::FilterMode::Nearest);
        assert_eq!(s.address_mode, wgpu::AddressMode::Repeat);
        assert!(matches!(s.mipmap, MipmapFilter::Nearest));
    }
}
