use window_lifecycle::backend::TargetOs;
use window_lifecycle::driver::run_events;
use window_lifecycle::events::AppEvent;
use window_lifecycle::factory::{PixelConfig, StartupError};
use window_lifecycle::machine::{
    Action, App, BufferKind, Phase, PlatformEnv, RenderOp, frame_commands,
};

fn env_with_configs(ids: &[u64]) -> PlatformEnv {
    PlatformEnv {
        os: TargetOs::Other,
        configs: ids.iter().map(|id| PixelConfig { id: *id }).collect(),
        clear_color_addr: 11,
        clear_addr: 12,
    }
}

fn env() -> PlatformEnv {
    env_with_configs(&[7, 8])
}

fn ready_resources(app: &App) -> window_lifecycle::machine::ReadyResources {
    match app.phase {
        Phase::Ready(res) => res,
        _ => panic!("machine is not ready"),
    }
}

#[test]
fn activation_builds_every_resource() {
    let mut app = App::new();
    let actions = run_events(&mut app, &env(), &vec![AppEvent::Activated]).unwrap();
    assert_eq!(actions, vec![Action::Nothing]);
    let res = ready_resources(&app);
    assert_eq!(res.window.width, 800);
    assert_eq!(res.window.height, 600);
    assert!(res.window.visible);
    assert_eq!(res.config.id, 7);
    assert_eq!(res.surface.config_id, 7);
    assert_eq!(res.surface.width, 800);
    assert_eq!(res.surface.height, 600);
    assert_eq!(res.context.config_id, 7);
    assert_eq!(res.table.clear_color_addr, 11);
    assert_eq!(res.table.clear_addr, 12);
}

#[test]
fn activation_then_redraw_renders_once() {
    let mut app = App::new();
    let actions = run_events(
        &mut app,
        &env(),
        &vec![AppEvent::Activated, AppEvent::RedrawRequested],
    )
    .unwrap();
    assert_eq!(actions, vec![Action::Nothing, Action::Render]);
    let renders = actions.iter().filter(|a| **a == Action::Render).count();
    assert_eq!(renders, 1);
    assert!(matches!(app.phase, Phase::Ready(_)));
}

#[test]
fn frame_commands_clear_and_swap_once_in_order() {
    let ops = frame_commands();
    assert_eq!(
        ops,
        vec![
            RenderOp::PrePresentNotify,
            RenderOp::MakeCurrent,
            RenderOp::SetClearColor(255, 0, 0, 255),
            RenderOp::Clear(BufferKind::Color),
            RenderOp::SwapBuffers,
        ]
    );
    let clears = ops
        .iter()
        .filter(|op| matches!(op, RenderOp::Clear(_)))
        .count();
    let swaps = ops
        .iter()
        .filter(|op| matches!(op, RenderOp::SwapBuffers))
        .count();
    assert_eq!(clears, 1);
    assert_eq!(swaps, 1);
    let notify_at = ops
        .iter()
        .position(|op| matches!(op, RenderOp::PrePresentNotify))
        .unwrap();
    let bind_at = ops
        .iter()
        .position(|op| matches!(op, RenderOp::MakeCurrent))
        .unwrap();
    let clear_at = ops
        .iter()
        .position(|op| matches!(op, RenderOp::Clear(_)))
        .unwrap();
    let swap_at = ops
        .iter()
        .position(|op| matches!(op, RenderOp::SwapBuffers))
        .unwrap();
    assert!(notify_at < swap_at);
    assert!(bind_at < clear_at);
    assert!(clear_at < swap_at);
}

#[test]
fn close_halts_dispatch_before_trailing_redraw() {
    let mut app = App::new();
    let actions = run_events(
        &mut app,
        &env(),
        &vec![
            AppEvent::Activated,
            AppEvent::CloseRequested,
            AppEvent::RedrawRequested,
        ],
    )
    .unwrap();
    assert_eq!(actions, vec![Action::Nothing, Action::Exit]);
    assert_eq!(app.phase, Phase::Terminating);
}

#[test]
fn events_after_close_are_never_dispatched() {
    let mut app = App::new();
    let actions = run_events(
        &mut app,
        &env(),
        &vec![
            AppEvent::Activated,
            AppEvent::Other,
            AppEvent::CloseRequested,
            AppEvent::RedrawRequested,
            AppEvent::Resized(10, 10),
            AppEvent::CloseRequested,
        ],
    )
    .unwrap();
    assert_eq!(
        actions,
        vec![Action::Nothing, Action::Nothing, Action::Exit]
    );
    assert_eq!(app.phase, Phase::Terminating);
}

#[test]
fn redraw_without_activation_is_ignored() {
    let mut app = App::new();
    let actions = run_events(&mut app, &env(), &vec![AppEvent::RedrawRequested]).unwrap();
    assert_eq!(actions, vec![Action::Nothing]);
    assert_eq!(app.phase, Phase::Uninitialized);
}

#[test]
fn window_events_before_activation_do_nothing() {
    let mut app = App::new();
    let actions = run_events(
        &mut app,
        &env(),
        &vec![
            AppEvent::Resized(640, 480),
            AppEvent::RedrawRequested,
            AppEvent::CloseRequested,
            AppEvent::Other,
        ],
    )
    .unwrap();
    assert_eq!(actions, vec![Action::Nothing; 4]);
    assert_eq!(app.phase, Phase::Uninitialized);
}

#[test]
fn duplicate_activation_leaves_resources_untouched() {
    let mut app = App::new();
    run_events(&mut app, &env(), &vec![AppEvent::Activated]).unwrap();
    let before = ready_resources(&app);
    let actions = run_events(&mut app, &env_with_configs(&[99]), &vec![AppEvent::Activated])
        .unwrap();
    assert_eq!(actions, vec![Action::Nothing]);
    let after = ready_resources(&app);
    assert_eq!(before, after);
    assert_eq!(after.config.id, 7);
}

#[test]
fn resize_then_redraw_requests_once_and_renders_once() {
    let mut app = App::new();
    run_events(&mut app, &env(), &vec![AppEvent::Activated]).unwrap();
    let surface_before = ready_resources(&app).surface;
    let actions = run_events(
        &mut app,
        &env(),
        &vec![AppEvent::Resized(1024, 768), AppEvent::RedrawRequested],
    )
    .unwrap();
    assert_eq!(actions, vec![Action::RequestRedraw, Action::Render]);
    let requests = actions
        .iter()
        .filter(|a| **a == Action::RequestRedraw)
        .count();
    let renders = actions.iter().filter(|a| **a == Action::Render).count();
    assert_eq!(requests, 1);
    assert_eq!(renders, 1);
    let surface_after = ready_resources(&app).surface;
    assert_eq!(surface_before, surface_after);
    assert_eq!(surface_after.width, 800);
    assert_eq!(surface_after.height, 600);
}

#[test]
fn unknown_events_are_ignored_while_ready() {
    let mut app = App::new();
    let actions = run_events(
        &mut app,
        &env(),
        &vec![AppEvent::Activated, AppEvent::Other, AppEvent::Other],
    )
    .unwrap();
    assert_eq!(
        actions,
        vec![Action::Nothing, Action::Nothing, Action::Nothing]
    );
    assert!(matches!(app.phase, Phase::Ready(_)));
}

#[test]
fn activation_with_no_configuration_is_fatal() {
    let mut app = App::new();
    let result = run_events(&mut app, &env_with_configs(&[]), &vec![AppEvent::Activated]);
    assert_eq!(result, Err(StartupError::NoConfig));
    assert_eq!(app.phase, Phase::Uninitialized);
}

#[test]
fn terminating_machine_ignores_everything() {
    let mut app = App::new();
    run_events(
        &mut app,
        &env(),
        &vec![AppEvent::Activated, AppEvent::CloseRequested],
    )
    .unwrap();
    assert_eq!(app.phase, Phase::Terminating);
    let mut step_app = App { phase: Phase::Terminating };
    let actions = run_events(
        &mut step_app,
        &env(),
        &vec![AppEvent::Activated, AppEvent::RedrawRequested],
    )
    .unwrap();
    assert_eq!(actions, vec![Action::Nothing, Action::Nothing]);
    assert_eq!(step_app.phase, Phase::Terminating);
}
