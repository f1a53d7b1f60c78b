//! The native library stage: entry-point loading and instance creation.
//!
//! The instance descriptor embeds the packed application and engine
//! versions, the validation layers, the platform surface extensions, and
//! the debug-messenger severity threshold.  The application layer loads
//! the entry points and performs the native call; the descriptor contents
//! and the failure policy are verified here.

use vstd::prelude::*;

use crate::logger::{severity_mask, severity_mask_of};
use crate::surface::{platform_extension, required_extensions, PlatformTag, SurfaceError};
use crate::version::{packed_of, Version};

verus! {

/// The engine's own name, baked into every instance descriptor.
pub const ENGINE_NAME: &'static str = "RSeeD";

/// The engine's own version, baked into every instance descriptor.
pub fn engine_version() -> (v: Version)
    ensures
        v == (Version { major: 0, minor: 0, patch: 1 }),
{
    Version { major: 0, minor: 0, patch: 1 }
}

/// Errors of loading the library and creating the instance.  The payload
/// of [`LibraryError::InstanceCreationFailure`] is the native result code.
#[derive(Clone, Copy, Debug, PartialEq, Eq, Structural)]
pub enum LibraryError {
    LoadFailure,
    InstanceCreationFailure(i32),
    ExtensionUnsupported,
}

/// The validation layers to enable.
pub fn query_layers() -> (r: Vec<&'static str>)
    ensures
        r@.len() == 1,
        r@[0]@ == "VK_LAYER_KHRONOS_validation"@,
{
    let mut layers: Vec<&'static str> = Vec::new();
    layers.push("VK_LAYER_KHRONOS_validation");
    layers
}

/// Everything the native instance creation call is given.
#[derive(Debug)]
pub struct InstanceConfig {
    pub application_name: String,
    /// The packed application version.
    pub application_version: u32,
    pub engine_name: &'static str,
    /// The packed engine version.
    pub engine_version: u32,
    /// The packed API version requested of the native library.
    pub api_version: u32,
    pub layers: Vec<&'static str>,
    pub extensions: Vec<&'static str>,
    /// The severity threshold mask of the attached debug messenger.
    pub debug_severity_mask: u32,
}

/// Builds the instance descriptor: the fixed application version, the
/// engine identity, the given version as the API version, the validation
/// layers, the platform's surface extensions, and a warn-level debug
/// threshold.  An unrecognized platform fails with
/// [`LibraryError::ExtensionUnsupported`] before any native call.
pub fn instance_config(app_name: String, app_version: Version, platform: PlatformTag) -> (r:
    Result<InstanceConfig, LibraryError>)
    ensures
        r is Ok <==> platform != PlatformTag::Unknown,
        r matches Err(e) ==> e == LibraryError::ExtensionUnsupported,
        r matches Ok(c) ==> c.application_name@ == app_name@ && c.application_version
            == packed_of(2, 0, 0) && c.engine_name@ == "RSeeD"@ && c.engine_version == packed_of(
            0,
            0,
            1,
        ) && c.api_version == packed_of(app_version.major, app_version.minor, app_version.patch)
            && c.layers@.len() == 1 && c.layers@[0]@ == "VK_LAYER_KHRONOS_validation"@
            && c.extensions@.len() == 2 && c.extensions@[0]@ == "VK_KHR_surface"@
            && c.extensions@[1]@ == platform_extension(platform) && c.debug_severity_mask
            == severity_mask_of(2),
{
    let extensions = match required_extensions(platform) {
        Ok(v) => v,
        Err(SurfaceError::ExtensionUnsupported) => {
            return Err(LibraryError::ExtensionUnsupported);
        },
        Err(SurfaceError::CreationFailure(_)) => {
            return Err(LibraryError::ExtensionUnsupported);
        },
    };
    let fixed_app_version = Version { major: 2, minor: 0, patch: 0 };
    let engine = engine_version();
    Ok(
        InstanceConfig {
            application_name: app_name,
            application_version: fixed_app_version.packed(),
            engine_name: ENGINE_NAME,
            engine_version: engine.packed(),
            api_version: app_version.packed(),
            layers: query_layers(),
            extensions,
            debug_severity_mask: severity_mask(2),
        },
    )
}

/// The loaded library: the instance descriptor it was created with, the
/// native instance handle, and the validation layers carried forward to
/// logical-device creation.
#[derive(Debug)]
pub struct Library {
    pub config: InstanceConfig,
    pub instance: u64,
    pub enabled_layers: Vec<&'static str>,
}

impl Library {
    /// Builds the library stage from the native outcomes: whether the
    /// entry points loaded, and what the instance creation call returned.
    /// Failures come in stage order: a loader failure first, then an
    /// unrecognized platform, then a rejected native call with its code.
    pub fn init(
        app_name: String,
        app_version: Version,
        platform: PlatformTag,
        entry_loaded: bool,
        instance_result: Result<u64, i32>,
    ) -> (r: Result<Library, LibraryError>)
        ensures
            !entry_loaded ==> (r matches Err(e) && e == LibraryError::LoadFailure),
            entry_loaded && platform == PlatformTag::Unknown ==> (r matches Err(e) && e
                == LibraryError::ExtensionUnsupported),
            (entry_loaded && platform != PlatformTag::Unknown && instance_result is Err) ==> (
            r matches Err(e) && e == LibraryError::InstanceCreationFailure(
                instance_result->Err_0,
            )),
            (entry_loaded && platform != PlatformTag::Unknown && instance_result is Ok)
                ==> (r matches Ok(lib) && lib.instance == instance_result->Ok_0
                && lib.config.application_name@
                == app_name@ && lib.config.api_version == packed_of(
                app_version.major,
                app_version.minor,
                app_version.patch,
            ) && lib.enabled_layers@.len() == 1 && lib.enabled_layers@[0]@
                == "VK_LAYER_KHRONOS_validation"@),
    {
        if !entry_loaded {
            return Err(LibraryError::LoadFailure);
        }
        let config = match instance_config(app_name, app_version, platform) {
            Ok(c) => c,
            Err(e) => { return Err(e); },
        };
        match instance_result {
            Ok(h) => Ok(Library { config, instance: h, enabled_layers: query_layers() }),
            Err(code) => Err(LibraryError::InstanceCreationFailure(code)),
        }
    }
}

} // verus!
