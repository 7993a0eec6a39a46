//! End-to-end scenarios for the compositing core: registry rotation,
//! cyclic binding resolution, the resize lifecycle and the per-frame
//! skip-or-draw decision.

use dimensions::composite::{
    composite_frame, pipeline_binding_layout, resolve_bindings, BindingKind, CompositeOutcome,
    PingPongBuffer, ViewTarget, MAX_TEXTURE_COUNT,
};
use dimensions::registry::{DimensionEntry, DimensionRegistry};
use dimensions::target::{TargetHandle, TargetManager};

fn arena_with(count: usize, width: u32, height: u32) -> (TargetManager, Vec<TargetHandle>) {
    let mut manager = TargetManager::new();
    let mut handles = Vec::new();
    for _ in 0..count {
        handles.push(manager.allocate(width, height));
    }
    (manager, handles)
}

fn registry_over(handles: &[TargetHandle]) -> DimensionRegistry {
    let mut entries = Vec::new();
    for h in handles {
        entries.push(DimensionEntry { texture: *h });
    }
    DimensionRegistry::new(entries)
}

#[test]
fn rotate_full_cycle_returns_selected() {
    let (_, handles) = arena_with(3, 1280, 720);
    let mut registry = registry_over(&handles);
    registry.rotate_next();
    assert_eq!(registry.selected, 1);
    registry.rotate_next();
    registry.rotate_next();
    assert_eq!(registry.selected, 0);
    // a second full cycle from a rotated start
    registry.rotate_next();
    for _ in 0..3 {
        registry.rotate_next();
    }
    assert_eq!(registry.selected, 1);
}

#[test]
fn rotate_on_empty_registry_is_noop() {
    let mut registry = DimensionRegistry::new(Vec::new());
    for _ in 0..5 {
        registry.rotate_next();
    }
    assert_eq!(registry.selected, 0);
    assert_eq!(registry.len(), 0);
}

#[test]
fn bindings_always_fill_every_slot() {
    let (manager, handles) = arena_with(3, 1280, 720);
    for n in 1..=3 {
        let registry = registry_over(&handles[..n]);
        let bindings = resolve_bindings(&registry, &manager).unwrap();
        assert_eq!(bindings.views.len(), MAX_TEXTURE_COUNT);
    }
}

#[test]
fn bindings_cyclic_window_wraps_without_duplicates() {
    let (manager, handles) = arena_with(3, 1280, 720);
    let mut registry = registry_over(&handles);
    registry.rotate_next();
    registry.rotate_next();
    assert_eq!(registry.selected, 2);
    let bindings = resolve_bindings(&registry, &manager).unwrap();
    assert_eq!(bindings.views, vec![handles[2], handles[0]]);
    assert_ne!(bindings.views[0], bindings.views[1]);
}

#[test]
fn resize_same_size_twice_is_idempotent() {
    let (mut manager, handles) = arena_with(2, 1280, 720);
    manager.resize(handles[0], 640, 360);
    let once = manager.size_of(handles[0]);
    manager.resize(handles[0], 640, 360);
    assert_eq!(manager.size_of(handles[0]), once);
    assert_eq!(once, Some((640, 360)));
    assert_eq!(manager.size_of(handles[1]), Some((1280, 720)));
}

#[test]
fn resize_zero_dimension_is_noop() {
    let (mut manager, handles) = arena_with(1, 1280, 720);
    manager.resize(handles[0], 0, 360);
    assert_eq!(manager.size_of(handles[0]), Some((1280, 720)));
    manager.resize(handles[0], 640, 0);
    assert_eq!(manager.size_of(handles[0]), Some((1280, 720)));
    manager.resize_all(0, 0);
    assert_eq!(manager.size_of(handles[0]), Some((1280, 720)));
}

#[test]
fn resize_stale_handle_is_noop() {
    let (mut manager, handles) = arena_with(1, 1280, 720);
    let stale = TargetHandle { index: 7 };
    manager.resize(stale, 640, 360);
    assert_eq!(manager.size_of(handles[0]), Some((1280, 720)));
    assert_eq!(manager.size_of(stale), None);
    assert!(!manager.is_valid(stale));
}

#[test]
fn allocate_hands_out_sequential_stable_handles() {
    let (mut manager, handles) = arena_with(2, 1280, 720);
    assert_eq!(handles[0].index, 0);
    assert_eq!(handles[1].index, 1);
    // a resize replaces storage under the same handles
    manager.resize_all(640, 360);
    assert!(manager.is_valid(handles[0]));
    assert!(manager.is_valid(handles[1]));
    assert_eq!(manager.len(), 2);
}

#[test]
fn scenario_two_dimensions_initial_selection() {
    let (manager, handles) = arena_with(2, 1280, 720);
    let registry = registry_over(&handles);
    assert_eq!(registry.selected, 0);
    let bindings = resolve_bindings(&registry, &manager).unwrap();
    assert_eq!(bindings.views, vec![handles[0], handles[1]]);
}

#[test]
fn scenario_rotation_shifts_window() {
    let (manager, handles) = arena_with(2, 1280, 720);
    let mut registry = registry_over(&handles);
    registry.rotate_next();
    assert_eq!(registry.selected, 1);
    let bindings = resolve_bindings(&registry, &manager).unwrap();
    assert_eq!(bindings.views, vec![handles[1], handles[0]]);
}

#[test]
fn scenario_single_dimension_repeats() {
    let (manager, handles) = arena_with(1, 1280, 720);
    let registry = registry_over(&handles);
    let bindings = resolve_bindings(&registry, &manager).unwrap();
    assert_eq!(bindings.views, vec![handles[0], handles[0]]);
}

#[test]
fn scenario_empty_registry_skips_frame() {
    let (manager, _) = arena_with(2, 1280, 720);
    let registry = DimensionRegistry::new(Vec::new());
    let mut view_target = ViewTarget::new();
    let outcome = composite_frame(&registry, &manager, true, true, &mut view_target);
    assert!(matches!(outcome, CompositeOutcome::Skipped));
    // no draw was issued and the ping-pong pair was not acquired
    assert_eq!(view_target.main, PingPongBuffer::First);
}

#[test]
fn scenario_resize_round_trip_restores_targets() {
    let (mut manager, handles) = arena_with(2, 1280, 720);
    manager.resize_all(640, 360);
    assert_eq!(manager.size_of(handles[0]), Some((640, 360)));
    assert_eq!(manager.size_of(handles[1]), Some((640, 360)));
    manager.resize_all(1280, 720);
    for h in &handles {
        assert!(manager.is_valid(*h));
        assert_eq!(manager.size_of(*h), Some((1280, 720)));
    }
}

#[test]
fn skipped_when_pipeline_not_ready() {
    let (manager, handles) = arena_with(2, 1280, 720);
    let registry = registry_over(&handles);
    let mut view_target = ViewTarget::new();
    let outcome = composite_frame(&registry, &manager, false, true, &mut view_target);
    assert!(matches!(outcome, CompositeOutcome::Skipped));
    assert_eq!(view_target.main, PingPongBuffer::First);
}

#[test]
fn skipped_when_globals_not_ready() {
    let (manager, handles) = arena_with(2, 1280, 720);
    let registry = registry_over(&handles);
    let mut view_target = ViewTarget::new();
    let outcome = composite_frame(&registry, &manager, true, false, &mut view_target);
    assert!(matches!(outcome, CompositeOutcome::Skipped));
}

#[test]
fn skipped_when_an_entry_does_not_resolve() {
    let (manager, handles) = arena_with(1, 1280, 720);
    let mut entries = Vec::new();
    entries.push(DimensionEntry { texture: handles[0] });
    entries.push(DimensionEntry { texture: TargetHandle { index: 99 } });
    let registry = DimensionRegistry::new(entries);
    assert!(resolve_bindings(&registry, &manager).is_none());
    let mut view_target = ViewTarget::new();
    let outcome = composite_frame(&registry, &manager, true, true, &mut view_target);
    assert!(matches!(outcome, CompositeOutcome::Skipped));
}

#[test]
fn drawn_issues_one_full_screen_triangle() {
    let (manager, handles) = arena_with(2, 1280, 720);
    let registry = registry_over(&handles);
    let mut view_target = ViewTarget::new();
    match composite_frame(&registry, &manager, true, true, &mut view_target) {
        CompositeOutcome::Drawn { bindings, destination, draw } => {
            assert_eq!(bindings.views, vec![handles[0], handles[1]]);
            assert_eq!(draw.vertex_count, 3);
            assert_eq!(draw.instance_count, 1);
            assert_eq!(destination, PingPongBuffer::Second);
            assert_eq!(view_target.main, PingPongBuffer::Second);
        }
        CompositeOutcome::Skipped => panic!("expected a draw"),
    }
}

#[test]
fn ping_pong_destination_alternates_across_frames() {
    let (manager, handles) = arena_with(2, 1280, 720);
    let registry = registry_over(&handles);
    let mut view_target = ViewTarget::new();
    let first = match composite_frame(&registry, &manager, true, true, &mut view_target) {
        CompositeOutcome::Drawn { destination, .. } => destination,
        CompositeOutcome::Skipped => panic!("expected a draw"),
    };
    let second = match composite_frame(&registry, &manager, true, true, &mut view_target) {
        CompositeOutcome::Drawn { destination, .. } => destination,
        CompositeOutcome::Skipped => panic!("expected a draw"),
    };
    assert_ne!(first, second);
    assert_eq!(first, PingPongBuffer::Second);
    assert_eq!(second, PingPongBuffer::First);
}

#[test]
fn sampler_comes_from_first_registered_texture() {
    let (manager, handles) = arena_with(2, 1280, 720);
    let mut registry = registry_over(&handles);
    registry.rotate_next();
    let bindings = resolve_bindings(&registry, &manager).unwrap();
    // rotation moves the window, not the sampler's source
    assert_eq!(bindings.sampler, handles[0]);
}

#[test]
fn binding_layout_matches_shader_contract() {
    let layout = pipeline_binding_layout();
    assert_eq!(layout.len(), 3);
    assert_eq!(layout[0].binding, 0);
    assert_eq!(layout[0].kind, BindingKind::GlobalsUniform);
    assert_eq!(layout[1].binding, 1);
    assert_eq!(layout[1].kind, BindingKind::TextureArray { count: MAX_TEXTURE_COUNT });
    assert_eq!(layout[2].binding, 2);
    assert_eq!(layout[2].kind, BindingKind::FilteringSampler);
}

#[test]
fn well_formedness_checks_reflect_state() {
    let (manager, handles) = arena_with(2, 1280, 720);
    assert!(manager.is_well_formed());
    let registry = registry_over(&handles);
    assert!(registry.is_well_formed());
    let broken = DimensionRegistry { entries: registry.entries, selected: 9 };
    assert!(!broken.is_well_formed());
}
