//! Platform surface resolution: which native extensions a window handle's
//! platform requires, and which platform-specific creation call serves it.
//!
//! The application layer reads the platform tag off the native window
//! handle and performs the dispatched creation call; the dispatch itself
//! and the extension choice are verified here.

use vstd::prelude::*;

verus! {

/// The platform a native window handle belongs to, read off its tag.
#[derive(Clone, Copy, Debug, PartialEq, Eq, Structural)]
pub enum PlatformTag {
    Windows,
    Wayland,
    Xlib,
    Xcb,
    Android,
    MacOs,
    Ios,
    Unknown,
}

/// Errors of surface creation.  The payload of
/// [`SurfaceError::CreationFailure`] is the native result code.
#[derive(Clone, Copy, Debug, PartialEq, Eq, Structural)]
pub enum SurfaceError {
    CreationFailure(i32),
    ExtensionUnsupported,
}

/// The platform-specific surface extension each recognized platform
/// requires beside the base surface extension.
pub open spec fn platform_extension(tag: PlatformTag) -> Seq<char> {
    match tag {
        PlatformTag::Windows => "VK_KHR_win32_surface"@,
        PlatformTag::Wayland => "VK_KHR_wayland_surface"@,
        PlatformTag::Xlib => "VK_KHR_xlib_surface"@,
        PlatformTag::Xcb => "VK_KHR_xcb_surface"@,
        PlatformTag::Android => "VK_KHR_android_surface"@,
        PlatformTag::MacOs => "VK_EXT_metal_surface"@,
        PlatformTag::Ios => "VK_EXT_metal_surface"@,
        PlatformTag::Unknown => Seq::<char>::empty(),
    }
}

/// Resolves the native extensions to enable for a platform: the base
/// surface extension and the platform's own, or
/// [`SurfaceError::ExtensionUnsupported`] for an unrecognized platform.
pub fn required_extensions(tag: PlatformTag) -> (r: Result<Vec<&'static str>, SurfaceError>)
    ensures
        r is Ok <==> tag != PlatformTag::Unknown,
        r matches Ok(v) ==> v@.len() == 2 && v@[0]@ == "VK_KHR_surface"@ && v@[1]@
            == platform_extension(tag),
        r matches Err(e) ==> e == SurfaceError::ExtensionUnsupported,
{
    let second: &'static str = match tag {
        PlatformTag::Windows => "VK_KHR_win32_surface",
        PlatformTag::Wayland => "VK_KHR_wayland_surface",
        PlatformTag::Xlib => "VK_KHR_xlib_surface",
        PlatformTag::Xcb => "VK_KHR_xcb_surface",
        PlatformTag::Android => "VK_KHR_android_surface",
        PlatformTag::MacOs => "VK_EXT_metal_surface",
        PlatformTag::Ios => "VK_EXT_metal_surface",
        PlatformTag::Unknown => { return Err(SurfaceError::ExtensionUnsupported); },
    };
    let mut v: Vec<&'static str> = Vec::new();
    v.push("VK_KHR_surface");
    v.push(second);
    Ok(v)
}

/// The platform-specific creation call that serves a platform; both Apple
/// platforms go through the Metal layer.
#[derive(Clone, Copy, Debug, PartialEq, Eq, Structural)]
pub enum SurfaceRoute {
    Win32,
    Wayland,
    Xlib,
    Xcb,
    Android,
    Metal,
}

/// The creation route of each recognized platform.
pub open spec fn route_of(tag: PlatformTag) -> Option<SurfaceRoute> {
    match tag {
        PlatformTag::Windows => Some(SurfaceRoute::Win32),
        PlatformTag::Wayland => Some(SurfaceRoute::Wayland),
        PlatformTag::Xlib => Some(SurfaceRoute::Xlib),
        PlatformTag::Xcb => Some(SurfaceRoute::Xcb),
        PlatformTag::Android => Some(SurfaceRoute::Android),
        PlatformTag::MacOs => Some(SurfaceRoute::Metal),
        PlatformTag::Ios => Some(SurfaceRoute::Metal),
        PlatformTag::Unknown => None,
    }
}

/// Dispatches surface creation to the platform's native call, or fails
/// with [`SurfaceError::ExtensionUnsupported`] for an unrecognized
/// platform.
pub fn surface_route(tag: PlatformTag) -> (r: Result<SurfaceRoute, SurfaceError>)
    ensures
        r matches Ok(route) ==> route_of(tag) == Some(route),
        r is Ok <==> route_of(tag) is Some,
        r matches Err(e) ==> e == SurfaceError::ExtensionUnsupported,
{
    match tag {
        PlatformTag::Windows => Ok(SurfaceRoute::Win32),
        PlatformTag::Wayland => Ok(SurfaceRoute::Wayland),
        PlatformTag::Xlib => Ok(SurfaceRoute::Xlib),
        PlatformTag::Xcb => Ok(SurfaceRoute::Xcb),
        PlatformTag::Android => Ok(SurfaceRoute::Android),
        PlatformTag::MacOs => Ok(SurfaceRoute::Metal),
        PlatformTag::Ios => Ok(SurfaceRoute::Metal),
        PlatformTag::Unknown => Err(SurfaceError::ExtensionUnsupported),
    }
}

/// A created platform surface: the route it was created through and the
/// native handle the call returned.
#[derive(Clone, Copy, Debug, PartialEq, Eq, Structural)]
pub struct Surface {
    pub route: SurfaceRoute,
    pub handle: u64,
}

impl Surface {
    /// Builds the surface from the platform tag and the outcome of the
    /// dispatched native call: an unrecognized platform fails with
    /// [`SurfaceError::ExtensionUnsupported`] before any call, and a
    /// rejected native call fails with [`SurfaceError::CreationFailure`]
    /// carrying the native code.
    pub fn init(tag: PlatformTag, native: Result<u64, i32>) -> (r: Result<Surface, SurfaceError>)
        ensures
            route_of(tag) is None ==> r == Err::<Surface, SurfaceError>(
                SurfaceError::ExtensionUnsupported,
            ),
            route_of(tag) matches Some(route) ==> r == (match native {
                Ok(h) => Ok::<Surface, SurfaceError>(Surface { route, handle: h }),
                Err(code) => Err::<Surface, SurfaceError>(SurfaceError::CreationFailure(code)),
            }),
    {
        let route = match surface_route(tag) {
            Ok(route) => route,
            Err(e) => { return Err(e); },
        };
        match native {
            Ok(h) => Ok(Surface { route, handle: h }),
            Err(code) => Err(SurfaceError::CreationFailure(code)),
        }
    }
}

} // verus!
