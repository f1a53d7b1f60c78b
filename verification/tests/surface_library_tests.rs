use rseed::library::{instance_config, query_layers, Library, LibraryError, ENGINE_NAME};
use rseed::surface::{
    required_extensions, surface_route, PlatformTag, Surface, SurfaceError, SurfaceRoute,
};
use rseed::version::Version;

#[test]
fn each_platform_requires_its_extension_pair() {
    let cases = [
        (PlatformTag::Windows, "VK_KHR_win32_surface"),
        (PlatformTag::Wayland, "VK_KHR_wayland_surface"),
        (PlatformTag::Xlib, "VK_KHR_xlib_surface"),
        (PlatformTag::Xcb, "VK_KHR_xcb_surface"),
        (PlatformTag::Android, "VK_KHR_android_surface"),
        (PlatformTag::MacOs, "VK_EXT_metal_surface"),
        (PlatformTag::Ios, "VK_EXT_metal_surface"),
    ];
    for (tag, expected) in cases {
        let exts = required_extensions(tag).unwrap();
        assert_eq!(exts, vec!["VK_KHR_surface", expected]);
    }
}

#[test]
fn an_unknown_platform_has_no_extensions() {
    assert_eq!(
        required_extensions(PlatformTag::Unknown),
        Err(SurfaceError::ExtensionUnsupported)
    );
}

#[test]
fn each_platform_routes_to_its_creation_call() {
    assert_eq!(surface_route(PlatformTag::Windows), Ok(SurfaceRoute::Win32));
    assert_eq!(surface_route(PlatformTag::Wayland), Ok(SurfaceRoute::Wayland));
    assert_eq!(surface_route(PlatformTag::Xlib), Ok(SurfaceRoute::Xlib));
    assert_eq!(surface_route(PlatformTag::Xcb), Ok(SurfaceRoute::Xcb));
    assert_eq!(surface_route(PlatformTag::Android), Ok(SurfaceRoute::Android));
    assert_eq!(surface_route(PlatformTag::MacOs), Ok(SurfaceRoute::Metal));
    assert_eq!(surface_route(PlatformTag::Ios), Ok(SurfaceRoute::Metal));
    assert_eq!(
        surface_route(PlatformTag::Unknown),
        Err(SurfaceError::ExtensionUnsupported)
    );
}

#[test]
fn surface_init_carries_the_native_handle() {
    let s = Surface::init(PlatformTag::Xcb, Ok(42)).unwrap();
    assert_eq!(s.route, SurfaceRoute::Xcb);
    assert_eq!(s.handle, 42);
}

#[test]
fn surface_init_reports_the_rejected_call() {
    assert_eq!(
        Surface::init(PlatformTag::Xcb, Err(-5)),
        Err(SurfaceError::CreationFailure(-5))
    );
}

#[test]
fn surface_init_rejects_an_unknown_platform_before_the_call() {
    assert_eq!(
        Surface::init(PlatformTag::Unknown, Ok(42)),
        Err(SurfaceError::ExtensionUnsupported)
    );
}

#[test]
fn the_instance_descriptor_embeds_the_packed_identities() {
    let version = Version { major: 0, minor: 0, patch: 1 };
    let config = instance_config(String::from("Test"), version, PlatformTag::Wayland).unwrap();
    assert_eq!(config.application_name, "Test");
    // The fixed application version 2.0.0, packed.
    assert_eq!(config.application_version, 2u32 << 22);
    // The engine identity: its name and its version 0.0.1, packed.
    assert_eq!(config.engine_name, "RSeeD");
    assert_eq!(ENGINE_NAME, "RSeeD");
    assert_eq!(config.engine_version, 1);
    // The given version becomes the requested API version.
    assert_eq!(config.api_version, 1);
    assert_eq!(config.layers, vec!["VK_LAYER_KHRONOS_validation"]);
    assert_eq!(
        config.extensions,
        vec!["VK_KHR_surface", "VK_KHR_wayland_surface"]
    );
    // A warn-level threshold admits errors and warnings, nothing lower.
    assert_eq!(config.debug_severity_mask, 0x1100);
}

#[test]
fn the_validation_layer_list_is_fixed() {
    assert_eq!(query_layers(), vec!["VK_LAYER_KHRONOS_validation"]);
}

#[test]
fn library_failures_come_in_stage_order() {
    let v = Version { major: 0, minor: 0, patch: 1 };
    // Loader failure wins over everything.
    assert!(matches!(
        Library::init(String::from("T"), v, PlatformTag::Unknown, false, Err(-1)),
        Err(LibraryError::LoadFailure)
    ));
    // Then the unrecognized platform.
    assert!(matches!(
        Library::init(String::from("T"), v, PlatformTag::Unknown, true, Ok(1)),
        Err(LibraryError::ExtensionUnsupported)
    ));
    // Then the rejected native call, with its code.
    assert!(matches!(
        Library::init(String::from("T"), v, PlatformTag::Xlib, true, Err(-9)),
        Err(LibraryError::InstanceCreationFailure(-9))
    ));
}

#[test]
fn library_init_carries_the_instance_handle_and_layers() {
    let v = Version { major: 1, minor: 2, patch: 3 };
    let lib = Library::init(String::from("T"), v, PlatformTag::Xlib, true, Ok(77)).unwrap();
    assert_eq!(lib.instance, 77);
    assert_eq!(lib.enabled_layers, vec!["VK_LAYER_KHRONOS_validation"]);
    assert_eq!(lib.config.api_version, (1u32 << 22) | (2 << 12) | 3);
}
