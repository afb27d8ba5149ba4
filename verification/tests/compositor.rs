use overlay_engine::compositor::{
    composite_scenes, dirty_monitor_ids, layer_source, scale_base, CompositorMetrics,
    CompositorScheduler, DirtyState, COMPOSITOR_WARN_COOLDOWN_TICKS,
};
use overlay_engine::present::{
    after_retry, after_wait, classify_present, initial_buffer, per_monitor_dim, AcquireOutcome,
    AcquireStep, PresentOutcome, DEVICE_HUNG, DEVICE_REMOVED, DEVICE_RESET, WAIT_FAILED,
    WAIT_IO_COMPLETION, WAIT_TIMEOUT,
};
use overlay_engine::protocol::{DesktopWindowMode, MonitorKind};
use overlay_engine::scene::{MonitorLayer, MonitorMetrics, MonitorScene, VirtualWindow};
use overlay_engine::server::{MonitorRegistration, SceneOutput, ServerState};

#[test]
fn scheduler_coalesces_duplicate_canvas_marks() {
    let mut scheduler = CompositorScheduler::new();
    scheduler.mark_canvas_presented(7);
    scheduler.mark_canvas_presented(7);
    scheduler.mark_canvas_presented(8);

    let dirty = scheduler.take_dirty();
    assert_eq!(dirty.canvas_ids.len(), 2);
    assert!(dirty.canvas_ids.contains(&7));
    assert!(dirty.canvas_ids.contains(&8));
    assert!(scheduler.take_dirty().is_empty());
}

#[test]
fn scheduler_coalesces_duplicate_monitor_marks() {
    let mut scheduler = CompositorScheduler::new();
    scheduler.mark_monitor_dirty(1);
    scheduler.mark_monitor_dirty(1);
    scheduler.mark_monitor_dirty(2);

    let dirty = scheduler.take_dirty();
    assert_eq!(dirty.monitor_ids.len(), 2);
    assert!(dirty.monitor_ids.contains(&1));
    assert!(dirty.monitor_ids.contains(&2));
    assert!(scheduler.take_dirty().is_empty());
}

#[test]
fn reports_commute() {
    let mut one = CompositorScheduler::new();
    one.mark_canvas_presented(3);
    one.mark_monitor_dirty(4);
    let mut other = CompositorScheduler::new();
    other.mark_monitor_dirty(4);
    other.mark_canvas_presented(3);
    let (a, b) = (one.take_dirty(), other.take_dirty());
    assert_eq!(a.canvas_ids, b.canvas_ids);
    assert_eq!(a.monitor_ids, b.monitor_ids);
}

fn window(visible: bool) -> VirtualWindow {
    VirtualWindow { x: 0, y: 0, logical_w: 8, logical_h: 6, visible }
}

fn layer(id: u32, canvas_id: u32, z_order: u32, visible: bool) -> MonitorLayer {
    MonitorLayer { id, app_id: 1, canvas_id, z_order, window: window(visible) }
}

/// Two monitors with scenes; the first has an output.
fn two_scenes() -> (ServerState, u32, u32) {
    let mut state = ServerState::new();
    let app = state.register_app(1, true).unwrap();
    for _ in 0..3 {
        state.create_canvas(app, 8, 6, 8, 6, Some(1)).unwrap();
    }
    let enter = |state: &mut ServerState| {
        state.enter_monitor(MonitorRegistration {
            pid: 1,
            kind: MonitorKind::GameBar,
            owner_app_id: None,
            request_id: None,
            target_canvas_id: None,
            mode: DesktopWindowMode::Bordered,
            flags: 0,
            manual_lifecycle: true,
        })
    };
    let first = enter(&mut state);
    let second = enter(&mut state);
    let metrics = MonitorMetrics { logical_w: 80, logical_h: 60 };
    let mut scene = MonitorScene::new(first, metrics);
    scene.layers = vec![layer(1, 1, 9, true), layer(2, 2, 4, false), layer(3, 3, 2, true)];
    state.monitor_scenes.insert(first, scene);
    let mut scene = MonitorScene::new(second, metrics);
    scene.layers = vec![layer(1, 2, 1, true)];
    state.monitor_scenes.insert(second, scene);
    state.monitor_scene_outputs.insert(
        first,
        SceneOutput { handle: 5, logical_w: 80, logical_h: 60, render_w: 80, render_h: 60 },
    );
    (state, first, second)
}

fn dirty(canvases: &[u32], monitors: &[u32]) -> DirtyState {
    let mut d = DirtyState::new();
    d.canvas_ids.extend(canvases.iter().copied());
    d.monitor_ids.extend(monitors.iter().copied());
    d
}

#[test]
fn visible_layers_are_drawn_back_to_front() {
    let (state, first, _) = two_scenes();
    let scenes = composite_scenes(&state, &dirty(&[1], &[]));
    assert_eq!(scenes.len(), 1);
    assert_eq!(scenes[0].monitor_id, first);
    assert_eq!(scenes[0].scene_id, first);
    assert_eq!((scenes[0].logical_w, scenes[0].logical_h), (80, 60));
    let order: Vec<u32> = scenes[0].layers.iter().map(|l| l.id).collect();
    assert_eq!(order, vec![3, 1]);
}

#[test]
fn only_changed_scenes_are_drawn() {
    let (state, first, second) = two_scenes();
    assert!(composite_scenes(&state, &DirtyState::new()).is_empty());
    assert_eq!(dirty_monitor_ids(&state, &dirty(&[99], &[])), vec![]);
    assert_eq!(dirty_monitor_ids(&state, &dirty(&[2], &[])), vec![first, second]);
    assert_eq!(dirty_monitor_ids(&state, &dirty(&[], &[second, first])), vec![first, second]);
    assert_eq!(dirty_monitor_ids(&state, &dirty(&[1], &[])), vec![first]);
}

#[test]
fn layers_are_drawn_from_their_presented_buffer() {
    let l = layer(1, 1, 1, true);
    assert_eq!(layer_source(&l, 2, 3), Some(2));
    assert_eq!(layer_source(&l, 3, 3), None);
    let flat = MonitorLayer { window: VirtualWindow { logical_h: 0, ..window(true) }, ..l };
    assert_eq!(layer_source(&flat, 0, 3), None);
    assert_eq!(scale_base(0), 1);
    assert_eq!(scale_base(7), 7);
}

#[test]
fn warnings_cool_down() {
    let mut m = CompositorMetrics::new();
    let slow = 9_500_000;
    for _ in 0..119 {
        assert_eq!(m.tick(1, slow, false).slow_average, None);
    }
    assert_eq!(m.tick(1, slow, false).slow_average, Some(slow));
    for _ in 0..COMPOSITOR_WARN_COOLDOWN_TICKS {
        assert_eq!(m.tick(1, slow, false).slow_average, None);
    }
    assert_eq!(m.tick(1, slow, false).slow_average, Some(slow));
}

#[test]
fn rendered_scenes_are_counted_by_interval() {
    let mut m = CompositorMetrics::new();
    assert_eq!(m.tick(2, 1, false).rendered, None);
    assert_eq!(m.tick(3, 1, true).rendered, Some(5));
    assert_eq!(m.tick(0, 1, true).rendered, None);
    assert_eq!(m.durations.len(), 2);
}

#[test]
fn waits_give_a_buffer_or_none() {
    let done = |o: AcquireOutcome| AcquireStep::Done(o);
    assert_eq!(after_wait(2, 3), done(AcquireOutcome::Acquired(2)));
    assert_eq!(after_wait(3, 3), done(AcquireOutcome::TimedOut));
    assert_eq!(after_wait(WAIT_TIMEOUT, 3), done(AcquireOutcome::TimedOut));
    assert_eq!(after_wait(WAIT_FAILED, 3), done(AcquireOutcome::Failed));
    assert_eq!(after_wait(WAIT_IO_COMPLETION, 3), AcquireStep::DrainAndRetry);
    assert_eq!(after_retry(1, 3), AcquireOutcome::Acquired(1));
    assert_eq!(after_retry(WAIT_FAILED, 3), AcquireOutcome::TimedOut);
    assert_eq!(initial_buffer(AcquireOutcome::Acquired(2)), Some(2));
    assert_eq!(initial_buffer(AcquireOutcome::TimedOut), Some(0));
    assert_eq!(initial_buffer(AcquireOutcome::Failed), None);
}

#[test]
fn lost_devices_are_told_from_missed_ticks() {
    assert_eq!(classify_present(None), PresentOutcome::Success);
    for code in [DEVICE_REMOVED, DEVICE_HUNG, DEVICE_RESET] {
        assert_eq!(classify_present(Some(code)), PresentOutcome::DeviceLost);
    }
    assert_eq!(classify_present(Some(0x8000_4005)), PresentOutcome::RetryNextTick);
}

#[test]
fn own_surfaces_have_a_bounded_extent() {
    assert_eq!(per_monitor_dim(0), 1);
    assert_eq!(per_monitor_dim(1080), 1080);
    assert_eq!(per_monitor_dim(4097), 4096);
}

#[test]
fn layer_identifiers_never_return() {
    let mut scene = MonitorScene::new(1, MonitorMetrics { logical_w: 8, logical_h: 6 });
    assert_eq!(scene.upsert_layer(1, 10, window(true)), 1);
    assert_eq!(scene.upsert_layer(2, 20, window(true)), 2);
    assert_eq!(scene.upsert_layer(2, 20, window(false)), 2);
    scene.remove_app_layers(2);
    assert_eq!(scene.layers.len(), 1);
    assert_eq!(scene.upsert_layer(2, 20, window(true)), 3);
    assert_eq!((scene.layers[1].id, scene.layers[1].z_order), (3, 2));
    scene.remove_app_layers(1);
    scene.remove_app_layers(2);
    assert!(scene.is_empty());
    assert_eq!(scene.upsert_layer(1, 10, window(true)), 4);
    assert_eq!(scene.layers[0].z_order, 1);
}
