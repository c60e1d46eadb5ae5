//! The preference flags of Streamline.

use vstd::prelude::*;

verus! {

/// Do not track the state of command lists.
pub const DISABLE_CL_STATE_TRACKING: u64 = 1;

/// Do not draw debugging text.
pub const DISABLE_DEBUG_TEXT: u64 = 2;

/// The application hooks the graphics API itself.
pub const USE_MANUAL_HOOKING: u64 = 4;

/// Allow updates over the air.
pub const ALLOW_OTA: u64 = 8;

/// Do not check the version of the operating system.
pub const BYPASS_OS_VERSION_CHECK: u64 = 16;

/// Put a proxy before the DXGI factory.
pub const USE_DXGI_FACTORY_PROXY: u64 = 32;

/// Load plugins that were downloaded.
pub const LOAD_DOWNLOADED_PLUGINS: u64 = 64;

/// Resources are tagged for single frames.
pub const USE_FRAME_BASED_RESOURCE_TAGGING: u64 = 128;

} // verus!
