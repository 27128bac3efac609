//! World behavior: the entity store, command application, the fixed tick
//! schedule, and snapshot publication.

use lunaris_core::bridge::{Channel, SendOutcome, UiToWorldCommand, WorldToUiState};
use lunaris_core::orchestrator::Orchestrator;
use lunaris_core::plugin::{run_plugin_updates, CorePlugin, Dummy, Plugin, TestPlugin};
use lunaris_core::render::{
    AvailableRenderers, RenderRequest, RendererSlot,
};
use lunaris_core::timeline::Timeline;
use lunaris_core::timeline_test::TimelineTestPlugin;
use lunaris_core::triangle::TriangleRenderer;
use lunaris_core::world::{world_tick, WorldState};

#[test]
fn spawned_entities_exist_until_despawned() {
    let mut world = WorldState::new();
    let a = world.spawn();
    let b = world.spawn();
    assert_ne!(a, b);
    assert!(world.contains(a));
    assert!(world.contains(b));
    assert!(world.despawn(a));
    assert!(!world.contains(a));
    assert!(world.contains(b));
    assert!(!world.despawn(a));
}

#[test]
fn request_render_commands_attach_requests() {
    let mut world = WorldState::new();
    let e = world.spawn();
    world.apply_ui_command(UiToWorldCommand::RequestRender { entity: e, frame: 10 });
    let req = world.request_of(e).expect("the request must be attached");
    assert_eq!(req.frame, 10);
    assert!(req.renderer_name.is_none());
}

#[test]
fn commands_for_missing_entities_are_ignored() {
    let mut world = WorldState::new();
    let e = world.spawn();
    world.despawn(e);
    world.apply_ui_command(UiToWorldCommand::RequestRender { entity: e, frame: 10 });
    assert!(!world.contains(e));
}

#[test]
fn set_playhead_commands_move_the_playhead() {
    let mut world = WorldState::new();
    world.apply_ui_command(UiToWorldCommand::SetPlayhead(42));
    assert_eq!(world.playhead(), 42);
    world.apply_ui_command(UiToWorldCommand::SetPlayhead(7));
    assert_eq!(world.playhead(), 7);
}

#[test]
fn quit_commands_raise_the_quit_flag() {
    let mut world = WorldState::new();
    assert!(!world.quit_requested());
    world.apply_ui_command(UiToWorldCommand::Quit);
    assert!(world.quit_requested());
}

#[test]
fn inbound_commands_are_drained_and_applied_in_order() {
    let mut world = WorldState::new();
    let mut commands: Channel<UiToWorldCommand> = Channel::new(8);
    commands.try_send(UiToWorldCommand::SetPlayhead(1));
    commands.try_send(UiToWorldCommand::SetPlayhead(2));
    commands.try_send(UiToWorldCommand::SetPlayhead(3));
    world.apply_ui_commands_to_world(&mut commands);
    assert_eq!(world.playhead(), 3);
    assert_eq!(commands.len(), 0);
}

#[test]
fn every_plugin_update_runs_in_registration_order() {
    let mut world = WorldState::new();
    let mut plugins = vec![
        CorePlugin::Dummy(<Dummy as Plugin>::new()),
        CorePlugin::Timeline(<Timeline as Plugin>::new()),
        CorePlugin::TimelineTest(<TimelineTestPlugin as Plugin>::new()),
        CorePlugin::Testing(<TestPlugin as Plugin>::new()),
    ];
    let results = run_plugin_updates(&mut plugins, &mut world);
    assert_eq!(results.len(), 4);
    for r in results {
        assert!(r.is_ok());
    }
    assert_eq!(plugins[0].name(), "dummy");
    assert_eq!(plugins[1].name(), "Timeline");
    assert_eq!(plugins[2].name(), "Timeline Test");
    assert_eq!(plugins[3].name(), "test plugin 1");
}

#[test]
fn one_tick_runs_the_fixed_schedule_end_to_end() {
    let mut world = WorldState::new();
    let e = world.spawn();
    let mut orch = Orchestrator::new(1, 1, 1);
    let mut reg = AvailableRenderers::new();
    reg.register(
        String::from("X"),
        RendererSlot::Triangle(<TriangleRenderer as Plugin>::new()),
    );
    let mut plugins = vec![CorePlugin::Dummy(<Dummy as Plugin>::new())];
    let mut commands: Channel<UiToWorldCommand> = Channel::new(8);
    let mut states: Channel<WorldToUiState> = Channel::new(8);
    commands.try_send(UiToWorldCommand::RequestRender { entity: e, frame: 10 });
    commands.try_send(UiToWorldCommand::SetPlayhead(10));

    let outcome = world_tick(
        &mut world,
        &mut orch,
        &mut reg,
        &mut plugins,
        &mut commands,
        &mut states,
    );

    assert!(outcome.continue_running);
    assert_eq!(outcome.publish, SendOutcome::Delivered);
    assert_eq!(outcome.tasks.len(), 1, "the request was dispatched this tick");
    assert_eq!(outcome.plugin_results.len(), 1);
    assert_eq!(commands.len(), 0, "all inbound commands were drained");
    // the published snapshot reflects the world at the tick's end
    let snap = states.drain_latest().unwrap();
    assert_eq!(snap.playhead, 10);
    assert!(snap.latest_renders.is_empty(), "nothing has completed yet");
    // the request was consumed by dispatch
    assert!(world.request_of(e).is_none());
}

#[test]
fn a_quit_command_ends_the_loop_after_the_current_tick() {
    let mut world = WorldState::new();
    let mut orch = Orchestrator::new(1, 1, 1);
    let mut reg = AvailableRenderers::new();
    let mut plugins: Vec<CorePlugin> = Vec::new();
    let mut commands: Channel<UiToWorldCommand> = Channel::new(8);
    let mut states: Channel<WorldToUiState> = Channel::new(8);
    commands.try_send(UiToWorldCommand::SetPlayhead(5));
    commands.try_send(UiToWorldCommand::Quit);
    let outcome = world_tick(
        &mut world,
        &mut orch,
        &mut reg,
        &mut plugins,
        &mut commands,
        &mut states,
    );
    // the tick still completes: the playhead moved and a snapshot went out
    assert!(!outcome.continue_running);
    assert_eq!(outcome.publish, SendOutcome::Delivered);
    assert_eq!(states.drain_latest().unwrap().playhead, 5);
}

#[test]
fn publishing_against_a_full_channel_drops_the_snapshot() {
    let mut world = WorldState::new();
    let mut orch = Orchestrator::new(1, 1, 1);
    let mut reg = AvailableRenderers::new();
    let mut plugins: Vec<CorePlugin> = Vec::new();
    let mut commands: Channel<UiToWorldCommand> = Channel::new(4);
    let mut states: Channel<WorldToUiState> = Channel::new(1);
    // a stale snapshot the UI has not drained
    let first = world_tick(
        &mut world,
        &mut orch,
        &mut reg,
        &mut plugins,
        &mut commands,
        &mut states,
    );
    assert_eq!(first.publish, SendOutcome::Delivered);
    commands.try_send(UiToWorldCommand::SetPlayhead(9));
    let second = world_tick(
        &mut world,
        &mut orch,
        &mut reg,
        &mut plugins,
        &mut commands,
        &mut states,
    );
    // the world thread never blocked; the new snapshot was dropped
    assert_eq!(second.publish, SendOutcome::DroppedFull);
    assert_eq!(states.len(), 1);
    let observed = states.drain_latest().unwrap();
    assert_eq!(observed.playhead, 0, "the buffered snapshot is the old one");
}

#[test]
fn snapshots_carry_each_entitys_latest_render() {
    let mut world = WorldState::new();
    let e = world.spawn();
    let img = lunaris_core::render::RawImage::from_rgba8(1, 1, vec![1, 2, 3, 255]).unwrap();
    lunaris_core::render::apply_render_result(&mut world, e, Ok(img));
    let snap = lunaris_core::world::snapshot(&world, Vec::new());
    assert_eq!(snap.latest_renders.len(), 1);
    assert_eq!(snap.latest_renders[0].0, e);
    assert_eq!(snap.latest_renders[0].1.as_bytes(), &vec![1u8, 2, 3, 255]);
    assert!(snap.plugin_ui_states.is_empty());
}
