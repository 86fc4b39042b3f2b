//! The application state machine.
//!
//! The machine owns the window, display connection, configuration, surface,
//! context and function table as one bundle: either all are present
//! ("ready") or none ("uninitialized"), and after a close request no further
//! resource access occurs ("terminating"). The first activation event builds
//! the bundle; every later event maps to an action the unverified shell
//! carries out against the real platform objects.

use vstd::prelude::*;
use crate::backend::{TargetOs, select_backend, spec_select_backend};
use crate::events::AppEvent;
use crate::factory::{
    CurrentContext, DisplayConnection, DrawingSurface, FunctionTable, PendingContext, PixelConfig,
    StartupError, connect, create_context, create_surface, make_current, resolve_table,
    select_config, spec_create_surface, spec_make_current, spec_select_config,
};

verus! {

/// Initial logical window width.
pub const INITIAL_WIDTH: u32 = 800;

/// Initial logical window height.
pub const INITIAL_HEIGHT: u32 = 600;

/// Red component of the fixed clear color, on a 0..=255 scale
/// (255 is full intensity).
pub const CLEAR_RED: u8 = 255;

/// Green component of the fixed clear color.
pub const CLEAR_GREEN: u8 = 0;

/// Blue component of the fixed clear color.
pub const CLEAR_BLUE: u8 = 0;

/// Alpha component of the fixed clear color.
pub const CLEAR_ALPHA: u8 = 255;

/// The model of the application's window: its logical size and visibility.
/// The native handle is opaque to this library and stays with the shell.
#[derive(Clone, Copy, Debug, PartialEq, Eq, Structural)]
pub struct AppWindow {
    pub width: u32,
    pub height: u32,
    pub visible: bool,
}

/// The window every run opens: initial logical size and visible.
pub open spec fn spec_initial_window() -> AppWindow {
    AppWindow { width: INITIAL_WIDTH, height: INITIAL_HEIGHT, visible: true }
}

/// The attributes the window is created with.
pub fn initial_window() -> (r: AppWindow)
    ensures
        r == spec_initial_window(),
{
    AppWindow { width: INITIAL_WIDTH, height: INITIAL_HEIGHT, visible: true }
}

/// The five lazily-created resources, present together or not at all.
/// They are created in dependency order: window, display connection,
/// configuration, surface, context, function table.
#[derive(Clone, Copy, Debug, PartialEq, Eq, Structural)]
pub struct ReadyResources {
    pub window: AppWindow,
    pub display: DisplayConnection,
    pub config: PixelConfig,
    pub surface: DrawingSurface,
    pub context: CurrentContext,
    pub table: FunctionTable,
}

/// Well-formedness of a ready bundle: the surface has strictly positive
/// dimensions, and surface and context were created from the selected
/// configuration, so re-asserting the context current cannot be rejected
/// for a configuration mismatch.
pub open spec fn resources_wf(r: ReadyResources) -> bool {
    &&& r.surface.width > 0
    &&& r.surface.height > 0
    &&& r.surface.config_id == r.config.id
    &&& r.context.config_id == r.config.id
}

/// Well-formedness of a phase: resources, when present, are well formed.
/// The phases themselves enforce that the five resources are present
/// together or absent together; no partial presence is expressible.
pub open spec fn phase_wf(phase: Phase) -> bool {
    match phase {
        Phase::Ready(res) => resources_wf(res),
        _ => true,
    }
}

/// The machine's lifecycle phase. There is no path back from `Ready` to
/// `Uninitialized`: teardown is implicit process cleanup, and the only
/// transition out of `Ready` is to `Terminating` on a close request.
#[derive(Clone, Copy, Debug, PartialEq, Eq, Structural)]
pub enum Phase {
    /// All resources absent; window events are ignored here.
    Uninitialized,
    /// All resources present.
    Ready(ReadyResources),
    /// A close was requested; no further resource access occurs.
    Terminating,
}

/// What the shell must do after a step. The machine never performs platform
/// work itself; it decides, and the shell carries the action out.
#[derive(Clone, Copy, Debug, PartialEq, Eq, Structural)]
pub enum Action {
    /// No platform work.
    Nothing,
    /// Ask the windowing system for a future redraw.
    RequestRedraw,
    /// Render one frame: perform `frame_commands` in order.
    Render,
    /// Stop dispatching events and return control to the caller.
    Exit,
}

/// The plain values the shell observed from the platform, needed to build
/// the ready bundle on activation: the host operating system, the
/// pixel-format configurations the display connection enumerates, and the
/// addresses the two graphics entry points resolved to (zero for null).
pub struct PlatformEnv {
    pub os: TargetOs,
    pub configs: Vec<PixelConfig>,
    pub clear_color_addr: u64,
    pub clear_addr: u64,
}

/// What activation builds: the whole bundle, or the startup failure that
/// aborts the process. The window takes the initial attributes, the first
/// enumerated configuration is selected, the surface is sized from the
/// window, and the context is created from the same configuration and made
/// current against the surface.
pub open spec fn spec_build_resources(
    os: TargetOs,
    configs: Seq<PixelConfig>,
    clear_color_addr: u64,
    clear_addr: u64,
) -> Result<ReadyResources, StartupError> {
    match spec_select_config(configs) {
        Err(e) => Err(e),
        Ok(config) => {
            let window = spec_initial_window();
            match spec_create_surface(config, window.width, window.height) {
                Err(e) => Err(e),
                Ok(surface) => {
                    match spec_make_current(PendingContext { config_id: config.id }, surface) {
                        Err(e) => Err(e),
                        Ok(context) => Ok(
                            ReadyResources {
                                window,
                                display: DisplayConnection { backend: spec_select_backend(os) },
                                config,
                                surface,
                                context,
                                table: FunctionTable { clear_color_addr, clear_addr },
                            },
                        ),
                    }
                },
            }
        },
    }
}

/// Builds the ready bundle from the observed platform values, in dependency
/// order. Fails exactly when the display connection enumerated no
/// configuration: the initial window dimensions are strictly positive, and
/// the context is created from the surface's own configuration.
pub fn build_resources(env: &PlatformEnv) -> (r: Result<ReadyResources, StartupError>)
    ensures
        r == spec_build_resources(env.os, env.configs@, env.clear_color_addr, env.clear_addr),
        r matches Ok(res) ==> resources_wf(res),
{
    let window = initial_window();
    let display = connect(select_backend(env.os));
    let config = match select_config(&env.configs) {
        Ok(c) => c,
        Err(e) => {
            return Err(e);
        },
    };
    let surface = match create_surface(&config, window.width, window.height) {
        Ok(s) => s,
        Err(e) => {
            return Err(e);
        },
    };
    let pending = create_context(&config);
    let context = match make_current(pending, &surface) {
        Ok(c) => c,
        Err(e) => {
            return Err(e);
        },
    };
    let table = resolve_table(env.clear_color_addr, env.clear_addr);
    Ok(ReadyResources { window, display, config, surface, context, table })
}

/// The transition relation: from a phase and one event to the next phase
/// and the shell's action, or the fatal startup failure. Window events
/// before activation are ignored rather than failing; an activation while
/// ready is ignored and leaves the resources untouched; a resize does not
/// touch the surface, it only requests a redraw; unrecognised events are
/// ignored for forward compatibility. `Exit` is returned exactly on a close
/// request while ready.
pub open spec fn spec_step(
    phase: Phase,
    event: AppEvent,
    os: TargetOs,
    configs: Seq<PixelConfig>,
    clear_color_addr: u64,
    clear_addr: u64,
) -> Result<(Phase, Action), StartupError> {
    match phase {
        Phase::Uninitialized => match event {
            AppEvent::Activated => match spec_build_resources(
                os,
                configs,
                clear_color_addr,
                clear_addr,
            ) {
                Ok(res) => Ok((Phase::Ready(res), Action::Nothing)),
                Err(e) => Err(e),
            },
            _ => Ok((phase, Action::Nothing)),
        },
        Phase::Ready(res) => match event {
            AppEvent::Activated => Ok((phase, Action::Nothing)),
            AppEvent::CloseRequested => Ok((Phase::Terminating, Action::Exit)),
            AppEvent::Resized(_, _) => Ok((phase, Action::RequestRedraw)),
            AppEvent::RedrawRequested => Ok((phase, Action::Render)),
            AppEvent::Other => Ok((phase, Action::Nothing)),
        },
        Phase::Terminating => Ok((phase, Action::Nothing)),
    }
}

/// The application state machine. It owns only the model state; the real
/// platform objects live with the shell, which keeps them present exactly
/// while the machine is ready.
pub struct App {
    pub phase: Phase,
}

impl App {
    /// Whether the machine's resources, if present, are well formed.
    pub open spec fn wf(self) -> bool {
        phase_wf(self.phase)
    }

    /// A machine with every resource absent.
    pub fn new() -> (r: App)
        ensures
            r.phase == Phase::Uninitialized,
            r.wf(),
    {
        App { phase: Phase::Uninitialized }
    }

    /// Processes one event: moves to the next phase and returns the action
    /// the shell must perform. An error is a fatal startup failure (it can
    /// only arise from activation) and leaves the machine unchanged.
    pub fn step(&mut self, event: &AppEvent, env: &PlatformEnv) -> (r: Result<
        Action,
        StartupError,
    >)
        ensures
            match spec_step(
                old(self).phase,
                *event,
                env.os,
                env.configs@,
                env.clear_color_addr,
                env.clear_addr,
            ) {
                Ok(x) => r == Ok::<Action, StartupError>(x.1) && final(self).phase == x.0,
                Err(e) => r == Err::<Action, StartupError>(e) && final(self).phase == old(
                    self,
                ).phase,
            },
            old(self).wf() ==> final(self).wf(),
    {
        let phase = self.phase;
        match phase {
            Phase::Uninitialized => match event {
                AppEvent::Activated => match build_resources(env) {
                    Ok(res) => {
                        self.phase = Phase::Ready(res);
                        Ok(Action::Nothing)
                    },
                    Err(e) => Err(e),
                },
                _ => Ok(Action::Nothing),
            },
            Phase::Ready(_) => match event {
                AppEvent::Activated => Ok(Action::Nothing),
                AppEvent::CloseRequested => {
                    self.phase = Phase::Terminating;
                    Ok(Action::Exit)
                },
                AppEvent::Resized(_, _) => Ok(Action::RequestRedraw),
                AppEvent::RedrawRequested => Ok(Action::Render),
                AppEvent::Other => Ok(Action::Nothing),
            },
            Phase::Terminating => Ok(Action::Nothing),
        }
    }
}

/// Which buffer a clear command targets.
#[derive(Clone, Copy, Debug, PartialEq, Eq, Structural)]
pub enum BufferKind {
    Color,
}

/// One command of the render step, for the shell to perform against the
/// real window, context, surface and function table.
#[derive(Clone, Copy, Debug, PartialEq, Eq, Structural)]
pub enum RenderOp {
    /// Tell the window presentation is imminent; must precede the swap.
    PrePresentNotify,
    /// Re-assert the context current against the surface (idempotent if
    /// already current; driver rejection is fatal).
    MakeCurrent,
    /// Set the clear color, components on a 0..=255 scale.
    SetClearColor(u8, u8, u8, u8),
    /// Clear the given buffer.
    Clear(BufferKind),
    /// Swap the surface's buffers, making the frame visible; may block
    /// under the platform's presentation policy.
    SwapBuffers,
}

/// The frame's command sequence: the pre-present notification first, then
/// the defensive re-bind of the context, then the fixed clear, then the
/// swap that presents.
pub open spec fn spec_frame_commands() -> Seq<RenderOp> {
    seq![
        RenderOp::PrePresentNotify,
        RenderOp::MakeCurrent,
        RenderOp::SetClearColor(CLEAR_RED, CLEAR_GREEN, CLEAR_BLUE, CLEAR_ALPHA),
        RenderOp::Clear(BufferKind::Color),
        RenderOp::SwapBuffers,
    ]
}

/// The commands of one frame, in the order the shell must perform them on
/// a `Render` action: exactly one clear and one swap, with the pre-present
/// notification before the swap and the context re-bound before drawing.
pub fn frame_commands() -> (r: Vec<RenderOp>)
    ensures
        r@ == spec_frame_commands(),
{
    let mut r: Vec<RenderOp> = Vec::new();
    r.push(RenderOp::PrePresentNotify);
    r.push(RenderOp::MakeCurrent);
    r.push(RenderOp::SetClearColor(CLEAR_RED, CLEAR_GREEN, CLEAR_BLUE, CLEAR_ALPHA));
    r.push(RenderOp::Clear(BufferKind::Color));
    r.push(RenderOp::SwapBuffers);
    proof {
        assert(r@ =~= spec_frame_commands());
    }
    r
}

} // verus!
