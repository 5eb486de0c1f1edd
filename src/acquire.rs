use vstd::prelude::*;

use crate::device::{CreateRequest, DeviceHandle, PresentationConfig, first_request, fallback_request};
use crate::error::D3D9GrabError;
use crate::window::{WindowHandle, first_owned};

verus! {

/// What the caller must do next.
#[derive(Debug, Clone, Copy, PartialEq, Eq)]
pub enum Action {
    /// Find a top-level window owned by the calling process (see
    /// `WindowSearch`) and report it with `Event::WindowResolved`.
    ResolveWindow,
    /// Create the Direct3D 9 factory and report it with
    /// `Event::FactoryCreated`.
    CreateFactory,
    /// Call device creation on the factory with this request and report the
    /// outcome with `Event::DeviceCreated`.
    CreateDevice(CreateRequest),
    /// Acquisition is over, with this result.
    Finish(Result<DeviceHandle, D3D9GrabError>),
}

/// What the caller observed when it carried out an action.
#[derive(Debug, Clone, Copy, PartialEq, Eq)]
pub enum Event {
    /// The window found, or `None` when the process owns no top-level window.
    WindowResolved(Option<WindowHandle>),
    /// The factory created, as its raw address; zero when none was created.
    FactoryCreated(usize),
    /// Device creation returned result `code` (zero for success) and left
    /// `device` behind.
    DeviceCreated { code: i32, device: DeviceHandle },
}

/// Where an acquisition stands.
#[derive(Debug, Clone, Copy, PartialEq, Eq, Structural)]
pub enum Acquisition {
    /// Waiting for the process's window.
    ResolvingWindow,
    /// Waiting for the factory, with the window found.
    CreatingFactory { window: WindowHandle },
    /// Waiting for the first device creation, made with `request`.
    FirstAttempt { request: CreateRequest },
    /// Waiting for the fallback device creation, made with `request`.
    Fallback { request: CreateRequest },
    /// Done; no further event is accepted.
    Finished,
}

/// The result for a creation call that reported success with `device`.
pub open spec fn checked_device(device: DeviceHandle) -> Result<DeviceHandle, D3D9GrabError> {
    if device.valid() {
        Ok(device)
    } else {
        Err(D3D9GrabError::AsMutError)
    }
}

/// The next state and action when `event` arrives in `state`; `None` when the
/// state does not wait for an event of that kind.
pub open spec fn next(state: Acquisition, event: Event) -> Option<(Acquisition, Action)> {
    match state {
        Acquisition::ResolvingWindow => match event {
            Event::WindowResolved(None) => Some(
                (Acquisition::Finished, Action::Finish(Err(D3D9GrabError::GetProcessWindowFailed))),
            ),
            Event::WindowResolved(Some(window)) => Some(
                (Acquisition::CreatingFactory { window }, Action::CreateFactory),
            ),
            _ => None,
        },
        Acquisition::CreatingFactory { window } => match event {
            Event::FactoryCreated(factory) => if factory == 0 {
                Some((Acquisition::Finished, Action::Finish(Err(D3D9GrabError::D3DCreate9Null))))
            } else {
                Some(
                    (
                        Acquisition::FirstAttempt { request: first_request(window) },
                        Action::CreateDevice(first_request(window)),
                    ),
                )
            },
            _ => None,
        },
        Acquisition::FirstAttempt { request } => match event {
            Event::DeviceCreated { code, device } => if code != 0 {
                Some(
                    (
                        Acquisition::Fallback { request: fallback_request(request) },
                        Action::CreateDevice(fallback_request(request)),
                    ),
                )
            } else {
                Some((Acquisition::Finished, Action::Finish(checked_device(device))))
            },
            _ => None,
        },
        Acquisition::Fallback { request } => match event {
            Event::DeviceCreated { code, device } => if code != 0 {
                Some(
                    (
                        Acquisition::Finished,
                        Action::Finish(Err(D3D9GrabError::CreateDeviceError(code))),
                    ),
                )
            } else {
                Some((Acquisition::Finished, Action::Finish(checked_device(device))))
            },
            _ => None,
        },
        Acquisition::Finished => None,
    }
}

/// Rejects a device that creation reported as made but that is null.
pub fn check_device(device: DeviceHandle) -> (r: Result<DeviceHandle, D3D9GrabError>)
    ensures
        r == checked_device(device),
{
    if device.is_valid() {
        Ok(device)
    } else {
        Err(D3D9GrabError::AsMutError)
    }
}

impl Acquisition {
    /// Starts an acquisition: the first thing to do is to find the window.
    pub fn begin() -> (r: (Acquisition, Action))
        ensures
            r == (Acquisition::ResolvingWindow, Action::ResolveWindow),
    {
        (Acquisition::ResolvingWindow, Action::ResolveWindow)
    }

    /// Whether this state waits for an event of the kind of `event`.
    pub fn accepts(&self, event: &Event) -> (r: bool)
        ensures
            r == next(*self, *event) is Some,
    {
        match (self, event) {
            (Acquisition::ResolvingWindow, Event::WindowResolved(_)) => true,
            (Acquisition::CreatingFactory { .. }, Event::FactoryCreated(_)) => true,
            (Acquisition::FirstAttempt { .. }, Event::DeviceCreated { .. }) => true,
            (Acquisition::Fallback { .. }, Event::DeviceCreated { .. }) => true,
            _ => false,
        }
    }

    /// Takes in what the caller observed and returns what it must do next.
    pub fn step(&mut self, event: Event) -> (action: Action)
        requires
            next(*old(self), event) is Some,
        ensures
            next(*old(self), event) == Some((*final(self), action)),
    {
        let (state, action) = match (*self, event) {
            (Acquisition::ResolvingWindow, Event::WindowResolved(found)) => match found {
                None => (
                    Acquisition::Finished,
                    Action::Finish(Err(D3D9GrabError::GetProcessWindowFailed)),
                ),
                Some(window) => (Acquisition::CreatingFactory { window }, Action::CreateFactory),
            },
            (Acquisition::CreatingFactory { window }, Event::FactoryCreated(factory)) => {
                if factory == 0 {
                    (Acquisition::Finished, Action::Finish(Err(D3D9GrabError::D3DCreate9Null)))
                } else {
                    let request = CreateRequest::first(window);
                    (Acquisition::FirstAttempt { request }, Action::CreateDevice(request))
                }
            },
            (Acquisition::FirstAttempt { request }, Event::DeviceCreated { code, device }) => {
                if code != 0 {
                    let retry = request.fallback();
                    (Acquisition::Fallback { request: retry }, Action::CreateDevice(retry))
                } else {
                    (Acquisition::Finished, Action::Finish(check_device(device)))
                }
            },
            (Acquisition::Fallback { .. }, Event::DeviceCreated { code, device }) => {
                if code != 0 {
                    (
                        Acquisition::Finished,
                        Action::Finish(Err(D3D9GrabError::CreateDeviceError(code))),
                    )
                } else {
                    (Acquisition::Finished, Action::Finish(check_device(device)))
                }
            },
            // excluded by the precondition
            _ => (*self, Action::ResolveWindow),
        };
        *self = state;
        action
    }
}

} // verus!

verus! {

/// A finished acquisition accepts no further event, so nothing more is
/// created once a result is out.
pub proof fn lemma_finished_is_final(event: Event)
    ensures
        next(Acquisition::Finished, event) is None,
{
}

/// When none of the enumerated windows belongs to the calling process, the
/// search finds nothing and the acquisition ends with
/// `GetProcessWindowFailed` at once, before any factory or device is created.
pub proof fn lemma_no_owned_window(windows: Seq<(WindowHandle, u32)>, process: u32)
    requires
        forall|i: int| 0 <= i < windows.len() ==> windows[i].1 != process,
    ensures
        first_owned(windows, process) is None,
        next(Acquisition::ResolvingWindow, Event::WindowResolved(first_owned(windows, process)))
            == Some(
            (Acquisition::Finished, Action::Finish(Err(D3D9GrabError::GetProcessWindowFailed))),
        ),
    decreases windows.len(),
{
    if windows.len() > 0 {
        let rest = windows.drop_last();
        assert forall|i: int| 0 <= i < rest.len() implies rest[i].1 != process by {
            assert(rest[i] == windows[i]);
        }
        lemma_no_owned_window(rest, process);
    }
}

/// When the factory cannot be created, the acquisition ends with
/// `D3DCreate9Null` and asks for no device.
pub proof fn lemma_factory_null(window: WindowHandle)
    ensures
        next(Acquisition::CreatingFactory { window }, Event::FactoryCreated(0)) == Some(
            (Acquisition::Finished, Action::Finish(Err(D3D9GrabError::D3DCreate9Null))),
        ),
{
}

/// When the first creation fails, exactly one retry is asked for. Its request
/// differs from the first only in the windowed flag, which is inverted, and
/// whatever the retry reports, the acquisition then finishes.
pub proof fn lemma_single_fallback(request: CreateRequest, code: i32, device: DeviceHandle)
    requires
        code != 0,
    ensures
        next(Acquisition::FirstAttempt { request }, Event::DeviceCreated { code, device })
            matches Some((state, Action::CreateDevice(retry))) && {
            &&& state == (Acquisition::Fallback { request: retry })
            &&& retry.adapter == request.adapter
            &&& retry.device_type == request.device_type
            &&& retry.focus_window == request.focus_window
            &&& retry.behavior_flags == request.behavior_flags
            &&& retry.config.windowed == !request.config.windowed
            &&& retry.config == (PresentationConfig { windowed: retry.config.windowed, ..request.config })
            &&& forall|e: Event|
                #![trigger next(state, e)]
                next(state, e) matches Some((s, a)) ==> s == Acquisition::Finished && a is Finish
        },
{
}

/// When both creations fail, the error carries the second attempt's code;
/// the first attempt's code is not reported.
pub proof fn lemma_final_error_only(
    request: CreateRequest,
    first_code: i32,
    first_device: DeviceHandle,
    second_code: i32,
    second_device: DeviceHandle,
)
    requires
        first_code != 0,
        second_code != 0,
    ensures
        next(
            Acquisition::FirstAttempt { request },
            Event::DeviceCreated { code: first_code, device: first_device },
        ) matches Some((state, _)) && next(
            state,
            Event::DeviceCreated { code: second_code, device: second_device },
        ) == Some(
            (
                Acquisition::Finished,
                Action::Finish(Err(D3D9GrabError::CreateDeviceError(second_code))),
            ),
        ),
{
}

/// When the first creation succeeds with a usable device, that device is the
/// result and no second creation is asked for.
pub proof fn lemma_first_success(request: CreateRequest, device: DeviceHandle)
    requires
        device.valid(),
    ensures
        next(Acquisition::FirstAttempt { request }, Event::DeviceCreated { code: 0, device })
            == Some((Acquisition::Finished, Action::Finish(Ok(device)))),
{
}

/// A creation that reports success but leaves a null device behind ends the
/// acquisition with `AsMutError`, on either attempt.
pub proof fn lemma_null_device(request: CreateRequest, device: DeviceHandle)
    requires
        !device.valid(),
    ensures
        next(Acquisition::FirstAttempt { request }, Event::DeviceCreated { code: 0, device })
            == Some((Acquisition::Finished, Action::Finish(Err(D3D9GrabError::AsMutError)))),
        next(Acquisition::Fallback { request }, Event::DeviceCreated { code: 0, device })
            == Some((Acquisition::Finished, Action::Finish(Err(D3D9GrabError::AsMutError)))),
{
}

} // verus!

verus! {

/// The states and actions that `events` lead to from `state`, one action per
/// event; `None` when some event is not the one awaited.
pub open spec fn run(state: Acquisition, events: Seq<Event>) -> Option<(Acquisition, Seq<Action>)>
    decreases events.len(),
{
    if events.len() == 0 {
        Some((state, Seq::empty()))
    } else {
        match next(state, events[0]) {
            None => None,
            Some((s, a)) => match run(s, events.drop_first()) {
                None => None,
                Some((last, actions)) => Some((last, seq![a] + actions)),
            },
        }
    }
}

/// The device-creation requests among `actions`, in order.
pub open spec fn device_requests(actions: Seq<Action>) -> Seq<CreateRequest>
    decreases actions.len(),
{
    if actions.len() == 0 {
        Seq::empty()
    } else {
        let rest = device_requests(actions.drop_first());
        match actions[0] {
            Action::CreateDevice(request) => seq![request] + rest,
            _ => rest,
        }
    }
}

/// The device requests that may still be made from `state`, once the window
/// is known.
spec fn requests_left(state: Acquisition) -> Seq<CreateRequest> {
    match state {
        Acquisition::CreatingFactory { window } => seq![
            first_request(window),
            fallback_request(first_request(window)),
        ],
        Acquisition::FirstAttempt { request } => seq![fallback_request(request)],
        _ => Seq::empty(),
    }
}

proof fn lemma_requests_within(state: Acquisition, events: Seq<Event>)
    requires
        state !is ResolvingWindow,
        run(state, events) is Some,
    ensures
        ({
            let made = device_requests(run(state, events).unwrap().1);
            &&& made.len() <= requests_left(state).len()
            &&& made == requests_left(state).subrange(0, made.len() as int)
        }),
    decreases events.len(),
{
    if events.len() == 0 {
        assert(requests_left(state).subrange(0, 0) =~= Seq::<CreateRequest>::empty());
    } else {
        let (s, a) = next(state, events[0]).unwrap();
        lemma_requests_within(s, events.drop_first());
        let actions = run(s, events.drop_first()).unwrap().1;
        let all = seq![a] + actions;
        assert(all.drop_first() =~= actions);
        assert(all[0] == a);
        let made = device_requests(actions);
        let left = requests_left(state);
        match a {
            Action::CreateDevice(r) => {
                assert(left =~= seq![r] + requests_left(s));
                assert(seq![r] + made =~= left.subrange(0, made.len() + 1 as int));
            },
            _ => {
                assert(made =~= left.subrange(0, made.len() as int));
            },
        }
    }
}

/// Whatever events an acquisition is fed from its start, it asks for at most
/// two devices: the first request is the fullscreen-style request for the
/// window found, and a second one, the only retry, is the first with the
/// windowed flag inverted and nothing else changed.
pub proof fn lemma_at_most_one_retry(events: Seq<Event>)
    requires
        run(Acquisition::ResolvingWindow, events) is Some,
    ensures
        ({
            let made = device_requests(run(Acquisition::ResolvingWindow, events).unwrap().1);
            &&& made.len() <= 2
            &&& made.len() >= 1 ==> made[0] == first_request(made[0].focus_window)
                && !made[0].config.windowed
            &&& made.len() == 2 ==> made[1] == fallback_request(made[0])
        }),
{
    if events.len() > 0 {
        let (s, a) = next(Acquisition::ResolvingWindow, events[0]).unwrap();
        lemma_requests_within(s, events.drop_first());
        let actions = run(s, events.drop_first()).unwrap().1;
        let all = seq![a] + actions;
        assert(all.drop_first() =~= actions);
        assert(all[0] == a);
        let made = device_requests(actions);
        if made.len() >= 1 {
            assert(made[0] == requests_left(s)[0]);
        }
        if made.len() == 2 {
            assert(made[1] == requests_left(s)[1]);
        }
    } else {
        assert(device_requests(Seq::<Action>::empty()) =~= Seq::<CreateRequest>::empty());
    }
}

} // verus!
