use window_lifecycle::backend::{Backend, TargetOs, select_backend};
use window_lifecycle::factory::{
    PendingContext, PixelConfig, StartupError, connect, create_context, create_surface,
    make_current, resolve_table, select_config,
};

#[test]
fn backend_selection_is_total_and_fixed() {
    assert_eq!(select_backend(TargetOs::Windows), Backend::Wgl);
    assert_eq!(select_backend(TargetOs::MacOs), Backend::Cgl);
    assert_eq!(select_backend(TargetOs::Other), Backend::Egl);
}

#[test]
fn connect_records_the_chosen_backend() {
    assert_eq!(connect(Backend::Egl).backend, Backend::Egl);
    assert_eq!(connect(Backend::Wgl).backend, Backend::Wgl);
}

#[test]
fn first_configuration_is_accepted() {
    let configs = vec![PixelConfig { id: 3 }, PixelConfig { id: 4 }, PixelConfig { id: 5 }];
    assert_eq!(select_config(&configs), Ok(PixelConfig { id: 3 }));
}

#[test]
fn empty_enumeration_yields_no_config() {
    assert_eq!(select_config(&vec![]), Err(StartupError::NoConfig));
}

#[test]
fn surface_takes_the_window_dimensions() {
    let surface = create_surface(&PixelConfig { id: 9 }, 320, 240).unwrap();
    assert_eq!(surface.config_id, 9);
    assert_eq!(surface.width, 320);
    assert_eq!(surface.height, 240);
}

#[test]
fn zero_width_fails_surface_creation() {
    assert_eq!(
        create_surface(&PixelConfig { id: 1 }, 0, 600),
        Err(StartupError::ZeroSize)
    );
}

#[test]
fn zero_height_fails_surface_creation() {
    assert_eq!(
        create_surface(&PixelConfig { id: 1 }, 800, 0),
        Err(StartupError::ZeroSize)
    );
}

#[test]
fn context_starts_from_the_configuration() {
    let context = create_context(&PixelConfig { id: 2 });
    assert_eq!(context.config_id, 2);
}

#[test]
fn matching_configurations_activate() {
    let config = PixelConfig { id: 6 };
    let surface = create_surface(&config, 800, 600).unwrap();
    let current = make_current(create_context(&config), &surface).unwrap();
    assert_eq!(current.config_id, 6);
}

#[test]
fn mismatched_configurations_reject_activation() {
    let surface = create_surface(&PixelConfig { id: 6 }, 800, 600).unwrap();
    let result = make_current(PendingContext { config_id: 5 }, &surface);
    assert_eq!(result, Err(StartupError::ConfigMismatch));
}

#[test]
fn null_entry_points_are_permitted_at_construction() {
    let table = resolve_table(0, 0);
    assert_eq!(table.clear_color_addr, 0);
    assert_eq!(table.clear_addr, 0);
    assert!(!table.fully_resolved());
    assert!(resolve_table(21, 22).fully_resolved());
}

#[test]
fn startup_errors_carry_a_descriptive_cause() {
    assert_eq!(
        StartupError::NoConfig.describe(),
        "no pixel-format configuration available"
    );
    assert_eq!(
        StartupError::ZeroSize.describe(),
        "drawing surface dimensions must be non-zero"
    );
    assert_eq!(
        StartupError::ConfigMismatch.describe(),
        "context and surface configurations do not match"
    );
}
