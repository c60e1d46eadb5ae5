//! DLSS Frame Generation through NVIDIA Streamline.

pub mod api;
pub mod dlssg_status;
pub mod error;
pub mod ffi;
pub mod frame;
pub mod frame_gen;
pub mod preference_flags;
pub mod result;
pub mod security;
pub mod signer;
pub mod tagging;
pub mod types;
