use vstd::prelude::*;

verus! {

/// Why a device could not be acquired. Every variant is terminal: nothing is
/// retried beyond the one built-in windowed/fullscreen fallback.
#[derive(Debug, Clone, Copy, PartialEq, Eq, Structural)]
pub enum D3D9GrabError {
    /// Device creation reported success but handed back a null device.
    AsMutError,
    /// Both creation attempts failed; carries the second attempt's result code.
    CreateDeviceError(i32),
    /// The Direct3D 9 factory could not be created.
    D3DCreate9Null,
    /// The calling process owns no top-level window.
    GetProcessWindowFailed,
}

} // verus!
