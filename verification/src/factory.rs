//! The display and context factory.
//!
//! Turns a native window's handles into a working surface and context pair.
//! The platform's own objects are opaque; this library models each resource
//! by the plain values its logic reads — which pixel-format configuration a
//! resource was created from, a surface's pixel size, whether a context is
//! current — and validates the chain: the first enumerated configuration is
//! accepted, a surface needs strictly positive dimensions, and surface and
//! context must have been created from matching configurations before the
//! context can be made current. The unverified shell mirrors each verified
//! step with the corresponding platform call.

use vstd::prelude::*;
use crate::backend::Backend;

verus! {

/// A fatal application-startup failure. Every later phase depends
/// structurally on the factory having succeeded, so none of these is
/// retried or degraded: the process terminates with a descriptive cause.
#[derive(Clone, Copy, Debug, PartialEq, Eq, Structural)]
pub enum StartupError {
    /// The display connection enumerated no pixel-format configuration.
    NoConfig,
    /// A drawing surface was requested with a zero width or height.
    ZeroSize,
    /// Context activation was rejected because the context and the surface
    /// were created from different pixel-format configurations.
    ConfigMismatch,
}

impl StartupError {
    /// A descriptive cause, reported when the process terminates.
    pub fn describe(&self) -> (r: &'static str)
        ensures
            r@ == self.spec_describe(),
    {
        match self {
            StartupError::NoConfig => "no pixel-format configuration available",
            StartupError::ZeroSize => "drawing surface dimensions must be non-zero",
            StartupError::ConfigMismatch => "context and surface configurations do not match",
        }
    }

    /// The words `describe` returns for each failure.
    pub open spec fn spec_describe(&self) -> Seq<char> {
        match self {
            StartupError::NoConfig => "no pixel-format configuration available"@,
            StartupError::ZeroSize => "drawing surface dimensions must be non-zero"@,
            StartupError::ConfigMismatch => "context and surface configurations do not match"@,
        }
    }
}

/// A connection to the platform's graphics subsystem, created from the
/// window's native display handle and the chosen backend. It must outlive
/// every surface and context derived from it; the unverified shell holds
/// the platform object itself.
#[derive(Clone, Copy, Debug, PartialEq, Eq, Structural)]
pub struct DisplayConnection {
    pub backend: Backend,
}

/// An immutable pixel-format descriptor, one of the list the display
/// connection enumerates. The identifier stands for the platform's opaque
/// descriptor; two resources are compatible exactly when they were created
/// from descriptors with the same identifier.
#[derive(Clone, Copy, Debug, PartialEq, Eq, Structural)]
pub struct PixelConfig {
    pub id: u64,
}

/// A presentable target bound to the window's native handle, sized at
/// creation from the window's pixel dimensions. A later window resize does
/// not resize it: its dimensions may go stale, an accepted limitation.
#[derive(Clone, Copy, Debug, PartialEq, Eq, Structural)]
pub struct DrawingSurface {
    pub config_id: u64,
    pub width: u32,
    pub height: u32,
}

/// A rendering context as created: not yet current on any thread.
#[derive(Clone, Copy, Debug, PartialEq, Eq, Structural)]
pub struct PendingContext {
    pub config_id: u64,
}

/// The capability token for a context that has been made current on the
/// dispatch thread. Drawing and presenting are only meaningful while this
/// token exists; at most one context is current on a thread at a time.
#[derive(Clone, Copy, Debug, PartialEq, Eq, Structural)]
pub struct CurrentContext {
    pub config_id: u64,
}

/// The resolved set of callable graphics entry points, bound to the active
/// display connection and immutable once constructed. An address of zero is
/// an unresolved entry point: permitted at construction (lazy binding), and
/// a caller error if called through.
#[derive(Clone, Copy, Debug, PartialEq, Eq, Structural)]
pub struct FunctionTable {
    pub clear_color_addr: u64,
    pub clear_addr: u64,
}

/// Opens a display connection for the chosen backend.
///
/// A platform refusal is an unrecoverable failure inside the platform call
/// itself; the model connection records which backend it targets.
pub fn connect(backend: Backend) -> (r: DisplayConnection)
    ensures
        r.backend == backend,
{
    DisplayConnection { backend }
}

/// Which configuration a display connection's enumeration yields.
pub open spec fn spec_select_config(configs: Seq<PixelConfig>) -> Result<PixelConfig, StartupError> {
    if configs.len() == 0 {
        Err(StartupError::NoConfig)
    } else {
        Ok(configs[0])
    }
}

/// Selects a pixel-format configuration from the list the display
/// connection enumerates: the first one offered is accepted, with no
/// ranking or fallback. An empty enumeration is a fatal startup failure.
pub fn select_config(configs: &Vec<PixelConfig>) -> (r: Result<PixelConfig, StartupError>)
    ensures
        r == spec_select_config(configs@),
{
    if configs.len() == 0 {
        Err(StartupError::NoConfig)
    } else {
        Ok(configs[0])
    }
}

/// What creating a surface yields for a configuration and a size.
pub open spec fn spec_create_surface(config: PixelConfig, width: u32, height: u32) -> Result<
    DrawingSurface,
    StartupError,
> {
    if width == 0 || height == 0 {
        Err(StartupError::ZeroSize)
    } else {
        Ok(DrawingSurface { config_id: config.id, width, height })
    }
}

/// Creates a drawing surface bound to the window, sized from the window's
/// current pixel dimensions. A zero width or height is an invariant
/// violation and fails creation rather than silently proceeding.
pub fn create_surface(config: &PixelConfig, width: u32, height: u32) -> (r: Result<
    DrawingSurface,
    StartupError,
>)
    ensures
        r == spec_create_surface(*config, width, height),
{
    if width == 0 || height == 0 {
        Err(StartupError::ZeroSize)
    } else {
        Ok(DrawingSurface { config_id: config.id, width, height })
    }
}

/// Creates a rendering context from a configuration. The context is not
/// current until explicitly activated against a surface.
pub fn create_context(config: &PixelConfig) -> (r: PendingContext)
    ensures
        r.config_id == config.id,
{
    PendingContext { config_id: config.id }
}

/// What activating a context against a surface yields.
pub open spec fn spec_make_current(context: PendingContext, surface: DrawingSurface) -> Result<
    CurrentContext,
    StartupError,
> {
    if context.config_id == surface.config_id {
        Ok(CurrentContext { config_id: context.config_id })
    } else {
        Err(StartupError::ConfigMismatch)
    }
}

/// Makes a context current against a surface, consuming the not-yet-current
/// context and returning the capability token for drawing. Activation is
/// rejected when the two were created from different configurations.
pub fn make_current(context: PendingContext, surface: &DrawingSurface) -> (r: Result<
    CurrentContext,
    StartupError,
>)
    ensures
        r == spec_make_current(context, *surface),
{
    if context.config_id == surface.config_id {
        Ok(CurrentContext { config_id: context.config_id })
    } else {
        Err(StartupError::ConfigMismatch)
    }
}

/// Resolves the rendering function table through the display's
/// address-resolution mechanism. The shell passes the address each entry
/// point resolved to, with zero for null: unresolved entry points are
/// permitted at construction time and bind lazily.
pub fn resolve_table(clear_color_addr: u64, clear_addr: u64) -> (r: FunctionTable)
    ensures
        r.clear_color_addr == clear_color_addr,
        r.clear_addr == clear_addr,
{
    FunctionTable { clear_color_addr, clear_addr }
}

impl FunctionTable {
    /// Whether every entry point the render step calls through resolved to
    /// a non-null address. Construction does not validate this eagerly;
    /// calling through an unresolved entry point is a caller error.
    pub fn fully_resolved(&self) -> (r: bool)
        ensures
            r == (self.clear_color_addr != 0 && self.clear_addr != 0),
    {
        self.clear_color_addr != 0 && self.clear_addr != 0
    }
}

} // verus!
