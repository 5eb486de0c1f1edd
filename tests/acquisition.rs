use d3d9_device_grab::acquire::{check_device, Acquisition, Action, Event};
use d3d9_device_grab::device::{
    CreateRequest, DeviceHandle, PresentationConfig, ADAPTER_DEFAULT,
    CREATE_SOFTWARE_VERTEX_PROCESSING, DEVICE_TYPE_HAL, SWAP_EFFECT_DISCARD,
};
use d3d9_device_grab::error::D3D9GrabError;
use d3d9_device_grab::window::{WindowHandle, WindowSearch};

const DEVICE_LOST: i32 = 0x8876_0868u32 as i32;
const NOT_AVAILABLE: i32 = 0x8876_086Cu32 as i32;

fn window() -> WindowHandle {
    WindowHandle { raw: 0x1234 }
}

/// Drives an acquisition up to its first device-creation request.
fn up_to_first_attempt(w: WindowHandle) -> (Acquisition, CreateRequest) {
    let (mut state, action) = Acquisition::begin();
    assert_eq!(action, Action::ResolveWindow);
    assert_eq!(state.step(Event::WindowResolved(Some(w))), Action::CreateFactory);
    match state.step(Event::FactoryCreated(0xdead0)) {
        Action::CreateDevice(request) => (state, request),
        other => panic!("expected a device request, got {:?}", other),
    }
}

fn expected_first(w: WindowHandle) -> CreateRequest {
    CreateRequest {
        adapter: 0,
        device_type: 1,
        focus_window: w,
        behavior_flags: 0x20,
        config: PresentationConfig {
            back_buffer_width: 0,
            back_buffer_height: 0,
            back_buffer_format: 0,
            back_buffer_count: 0,
            multi_sample_type: 0,
            multi_sample_quality: 0,
            swap_effect: 1,
            device_window: w,
            windowed: false,
            enable_auto_depth_stencil: false,
            auto_depth_stencil_format: 0,
            flags: 0,
            refresh_rate_hz: 0,
            presentation_interval: 0,
        },
    }
}

#[test]
fn constants_match_direct3d() {
    assert_eq!(ADAPTER_DEFAULT, 0);
    assert_eq!(DEVICE_TYPE_HAL, 1);
    assert_eq!(CREATE_SOFTWARE_VERTEX_PROCESSING, 0x20);
    assert_eq!(SWAP_EFFECT_DISCARD, 1);
}

#[test]
fn first_request_is_fullscreen_with_defaults() {
    let (_, request) = up_to_first_attempt(window());
    assert_eq!(request, expected_first(window()));
    assert_eq!(CreateRequest::first(window()), expected_first(window()));
}

#[test]
fn no_owned_window_fails_before_factory() {
    let mut search = WindowSearch::new(42);
    assert!(search.visit(WindowHandle { raw: 1 }, 7));
    assert!(search.visit(WindowHandle { raw: 2 }, 8));
    assert_eq!(search.result(), None);
    let (mut state, _) = Acquisition::begin();
    let action = state.step(Event::WindowResolved(search.result()));
    assert_eq!(action, Action::Finish(Err(D3D9GrabError::GetProcessWindowFailed)));
    assert_eq!(state, Acquisition::Finished);
    assert!(!state.accepts(&Event::FactoryCreated(1)));
}

#[test]
fn no_windows_at_all_fails() {
    let search = WindowSearch::new(42);
    assert_eq!(search.result(), None);
}

#[test]
fn search_stops_at_first_owned_window() {
    let mut search = WindowSearch::new(42);
    assert!(search.visit(WindowHandle { raw: 10 }, 1));
    assert!(!search.visit(WindowHandle { raw: 11 }, 42));
    assert!(!search.visit(WindowHandle { raw: 12 }, 42));
    assert_eq!(search.result(), Some(WindowHandle { raw: 11 }));
}

#[test]
fn factory_null_short_circuits() {
    let (mut state, _) = Acquisition::begin();
    state.step(Event::WindowResolved(Some(window())));
    let action = state.step(Event::FactoryCreated(0));
    assert_eq!(action, Action::Finish(Err(D3D9GrabError::D3DCreate9Null)));
    assert!(!state.accepts(&Event::DeviceCreated { code: 0, device: DeviceHandle { raw: 8 } }));
}

#[test]
fn fallback_flips_only_windowed() {
    let (mut state, first) = up_to_first_attempt(window());
    let action = state.step(Event::DeviceCreated { code: NOT_AVAILABLE, device: DeviceHandle { raw: 0 } });
    let retry = match action {
        Action::CreateDevice(r) => r,
        other => panic!("expected a retry, got {:?}", other),
    };
    assert!(retry.config.windowed);
    let mut expected = first;
    expected.config.windowed = true;
    assert_eq!(retry, expected);
    assert_eq!(first.fallback(), expected);
    // the retry is the last creation: whatever it reports, acquisition ends
    let end = state.step(Event::DeviceCreated { code: NOT_AVAILABLE, device: DeviceHandle { raw: 0 } });
    assert!(matches!(end, Action::Finish(_)));
    assert_eq!(state, Acquisition::Finished);
}

#[test]
fn fallback_success_returns_device() {
    let (mut state, first) = up_to_first_attempt(window());
    assert!(!first.config.windowed);
    let retry = state.step(Event::DeviceCreated { code: NOT_AVAILABLE, device: DeviceHandle { raw: 0 } });
    let mut windowed = expected_first(window());
    windowed.config.windowed = true;
    assert_eq!(retry, Action::CreateDevice(windowed));
    let action = state.step(Event::DeviceCreated { code: 0, device: DeviceHandle { raw: 0x5000 } });
    assert_eq!(action, Action::Finish(Ok(DeviceHandle { raw: 0x5000 })));
}

#[test]
fn both_attempts_fail_reports_second_code() {
    let (mut state, _) = up_to_first_attempt(window());
    state.step(Event::DeviceCreated { code: NOT_AVAILABLE, device: DeviceHandle { raw: 0 } });
    let action = state.step(Event::DeviceCreated { code: DEVICE_LOST, device: DeviceHandle { raw: 0 } });
    assert_eq!(action, Action::Finish(Err(D3D9GrabError::CreateDeviceError(DEVICE_LOST))));
    assert_ne!(action, Action::Finish(Err(D3D9GrabError::CreateDeviceError(NOT_AVAILABLE))));
}

#[test]
fn first_success_makes_no_retry() {
    let (mut state, _) = up_to_first_attempt(window());
    let action = state.step(Event::DeviceCreated { code: 0, device: DeviceHandle { raw: 0x7000 } });
    assert_eq!(action, Action::Finish(Ok(DeviceHandle { raw: 0x7000 })));
    assert_eq!(state, Acquisition::Finished);
    assert!(!state.accepts(&Event::DeviceCreated { code: 0, device: DeviceHandle { raw: 1 } }));
}

#[test]
fn null_device_on_first_success_is_rejected() {
    let (mut state, _) = up_to_first_attempt(window());
    let action = state.step(Event::DeviceCreated { code: 0, device: DeviceHandle { raw: 0 } });
    assert_eq!(action, Action::Finish(Err(D3D9GrabError::AsMutError)));
}

#[test]
fn null_device_on_fallback_success_is_rejected() {
    let (mut state, _) = up_to_first_attempt(window());
    state.step(Event::DeviceCreated { code: NOT_AVAILABLE, device: DeviceHandle { raw: 0 } });
    let action = state.step(Event::DeviceCreated { code: 0, device: DeviceHandle { raw: 0 } });
    assert_eq!(action, Action::Finish(Err(D3D9GrabError::AsMutError)));
}

#[test]
fn check_device_gate() {
    assert_eq!(check_device(DeviceHandle { raw: 0 }), Err(D3D9GrabError::AsMutError));
    assert_eq!(check_device(DeviceHandle { raw: 3 }), Ok(DeviceHandle { raw: 3 }));
    assert!(DeviceHandle { raw: 3 }.is_valid());
    assert!(!DeviceHandle { raw: 0 }.is_valid());
}

#[test]
fn accepts_only_the_awaited_event() {
    let (state, _) = Acquisition::begin();
    assert!(state.accepts(&Event::WindowResolved(None)));
    assert!(!state.accepts(&Event::FactoryCreated(1)));
    let factory = Acquisition::CreatingFactory { window: window() };
    assert!(factory.accepts(&Event::FactoryCreated(0)));
    assert!(!factory.accepts(&Event::WindowResolved(None)));
}
