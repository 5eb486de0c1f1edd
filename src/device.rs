use vstd::prelude::*;

use crate::window::WindowHandle;

verus! {

/// The default display adapter.
pub const ADAPTER_DEFAULT: u32 = 0;

/// The hardware-abstraction-layer device type.
pub const DEVICE_TYPE_HAL: u32 = 1;

/// Behaviour flag asking for software vertex processing.
pub const CREATE_SOFTWARE_VERTEX_PROCESSING: u32 = 0x20;

/// Swap effect that discards the back buffer on present.
pub const SWAP_EFFECT_DISCARD: u32 = 1;

/// A Direct3D 9 device, held as its raw address; zero is the null device.
#[derive(Debug, Clone, Copy, PartialEq, Eq, Structural)]
pub struct DeviceHandle {
    pub raw: usize,
}

impl DeviceHandle {
    pub open spec fn valid(self) -> bool {
        self.raw != 0
    }

    /// Whether the handle refers to a device at all.
    pub fn is_valid(&self) -> (r: bool)
        ensures
            r == self.valid(),
    {
        self.raw != 0
    }
}

/// How the device presents frames. Zero back-buffer values mean "match the
/// window".
#[derive(Debug, Clone, Copy, PartialEq, Eq, Structural)]
pub struct PresentationConfig {
    pub back_buffer_width: u32,
    pub back_buffer_height: u32,
    pub back_buffer_format: u32,
    pub back_buffer_count: u32,
    pub multi_sample_type: u32,
    pub multi_sample_quality: u32,
    pub swap_effect: u32,
    pub device_window: WindowHandle,
    pub windowed: bool,
    pub enable_auto_depth_stencil: bool,
    pub auto_depth_stencil_format: u32,
    pub flags: u32,
    pub refresh_rate_hz: u32,
    pub presentation_interval: u32,
}

/// Everything handed to one device-creation call.
#[derive(Debug, Clone, Copy, PartialEq, Eq, Structural)]
pub struct CreateRequest {
    pub adapter: u32,
    pub device_type: u32,
    pub focus_window: WindowHandle,
    pub behavior_flags: u32,
    pub config: PresentationConfig,
}

/// The first request for `window`: default adapter, HAL device, software
/// vertex processing, discard swap effect, the window as focus and device
/// window, fullscreen-style (not windowed), everything else zero.
pub open spec fn first_request(window: WindowHandle) -> CreateRequest {
    CreateRequest {
        adapter: ADAPTER_DEFAULT,
        device_type: DEVICE_TYPE_HAL,
        focus_window: window,
        behavior_flags: CREATE_SOFTWARE_VERTEX_PROCESSING,
        config: PresentationConfig {
            back_buffer_width: 0,
            back_buffer_height: 0,
            back_buffer_format: 0,
            back_buffer_count: 0,
            multi_sample_type: 0,
            multi_sample_quality: 0,
            swap_effect: SWAP_EFFECT_DISCARD,
            device_window: window,
            windowed: false,
            enable_auto_depth_stencil: false,
            auto_depth_stencil_format: 0,
            flags: 0,
            refresh_rate_hz: 0,
            presentation_interval: 0,
        },
    }
}

/// `request` with its windowed flag inverted and nothing else changed.
pub open spec fn fallback_request(request: CreateRequest) -> CreateRequest {
    CreateRequest {
        config: PresentationConfig { windowed: !request.config.windowed, ..request.config },
        ..request
    }
}

impl CreateRequest {
    /// The first creation request for `window`.
    pub fn first(window: WindowHandle) -> (r: CreateRequest)
        ensures
            r == first_request(window),
    {
        CreateRequest {
            adapter: ADAPTER_DEFAULT,
            device_type: DEVICE_TYPE_HAL,
            focus_window: window,
            behavior_flags: CREATE_SOFTWARE_VERTEX_PROCESSING,
            config: PresentationConfig {
                back_buffer_width: 0,
                back_buffer_height: 0,
                back_buffer_format: 0,
                back_buffer_count: 0,
                multi_sample_type: 0,
                multi_sample_quality: 0,
                swap_effect: SWAP_EFFECT_DISCARD,
                device_window: window,
                windowed: false,
                enable_auto_depth_stencil: false,
                auto_depth_stencil_format: 0,
                flags: 0,
                refresh_rate_hz: 0,
                presentation_interval: 0,
            },
        }
    }

    /// The same request with the windowed flag inverted.
    pub fn fallback(&self) -> (r: CreateRequest)
        ensures
            r == fallback_request(*self),
    {
        CreateRequest {
            config: PresentationConfig { windowed: !self.config.windowed, ..self.config },
            ..*self
        }
    }
}

} // verus!
