use halley::xwayland::control::{
    active_window_property_value, display_name, focus_sink_for_active_window,
    AllowedActions, ConnectReply, Connecting, ErrorKind, IcccmState, PopupMotion, ReplyError,
    Screen, X11Control,
};
use halley::xwayland::ewmh::{
    create_focus_sink, publish_ewmh, supporting_wm_window, Atoms, PropertyType, XCall, XRequest,
};
use halley::xwayland::keyboard::{
    key_repeat_controls, repeat_interval_ms, KeyRepeatReply, KeyRepeatStep, KeyboardControls,
};
use halley::xwayland::pointer::root_pointer_coordinates;

fn bits(point: (f64, f64)) -> (u64, u64) {
    (point.0.to_bits(), point.1.to_bits())
}

#[test]
fn repeat_rate_converts_to_xkb_interval() {
    assert_eq!(repeat_interval_ms(20), 50);
    assert_eq!(repeat_interval_ms(30), 33);
    assert_eq!(repeat_interval_ms(45), 22);
}

#[test]
fn repeat_intervals_are_rounded_quotients() {
    let quotient = |rate: i32| {
        (1000.0 / rate.max(1) as f32)
            .round()
            .clamp(1.0, f32::from(u16::MAX)) as u16
    };
    for rate in -10..100_000 {
        assert_eq!(repeat_interval_ms(rate), quotient(rate), "{rate}");
    }
    for rate in [i32::MIN, i32::MAX, i32::MAX - 1, 1 << 24, (1 << 24) + 1] {
        assert_eq!(repeat_interval_ms(rate), quotient(rate), "{rate}");
    }
}

#[test]
fn native_wayland_focus_uses_the_x11_focus_sink() {
    assert_eq!(focus_sink_for_active_window(None, 41), Some(41));
    assert_eq!(focus_sink_for_active_window(Some(73), 41), None);
}

#[test]
fn native_wayland_focus_publishes_the_sink_as_active() {
    assert_eq!(active_window_property_value(None, true, 41), 41);
    assert_eq!(active_window_property_value(None, false, 41), 0);
    assert_eq!(active_window_property_value(Some(73), true, 41), 73);
}

#[test]
fn root_pointer_coordinates_do_not_wrap_or_accept_nonfinite_values() {
    assert_eq!(
        root_pointer_coordinates(bits((1972.503, 1190.397))),
        Some((1973, 1190))
    );
    for point in [
        (f64::NAN, 0.0),
        (0.0, f64::INFINITY),
        (32768.0, 0.0),
        (-32769.0, 0.0),
    ] {
        assert_eq!(root_pointer_coordinates(bits(point)), None);
    }
}

#[test]
fn root_pointer_coordinates_round_like_floats() {
    let reference = |x: f64| {
        let rounded = x.round();
        if !x.is_finite() || rounded < i16::MIN as f64 || rounded > i16::MAX as f64 {
            None
        } else {
            Some((rounded as i16, 0))
        }
    };
    let mut samples = vec![
        0.0,
        -0.0,
        0.5,
        -0.5,
        0.49999999999999994,
        0.9999999999999999,
        1.5,
        -1.5,
        2.5,
        32767.0,
        32767.49,
        32767.5,
        -32768.0,
        -32768.49,
        -32768.5,
        f64::MIN_POSITIVE,
        5e-324,
        f64::MAX,
        f64::MIN,
        f64::NEG_INFINITY,
        4503599627370497.5,
    ];
    for i in -2000..2000 {
        samples.push(i as f64 * 0.37);
        samples.push(i as f64 * 17.123456789);
    }
    for x in samples {
        assert_eq!(root_pointer_coordinates(bits((x, 0.0))), reference(x), "{x}");
    }
}

fn atoms() -> Atoms {
    Atoms {
        UTF8_STRING: 100,
        WM_S0: 101,
        WM_STATE: 102,
        _NET_SUPPORTED: 103,
        _NET_SUPPORTING_WM_CHECK: 104,
        _NET_WM_NAME: 105,
        _NET_ACTIVE_WINDOW: 106,
        _NET_CLIENT_LIST: 107,
        _NET_CLIENT_LIST_STACKING: 108,
        _NET_NUMBER_OF_DESKTOPS: 109,
        _NET_CURRENT_DESKTOP: 110,
        _NET_DESKTOP_GEOMETRY: 111,
        _NET_DESKTOP_VIEWPORT: 112,
        _NET_WORKAREA: 113,
        _NET_WM_MOVERESIZE: 114,
        _NET_WM_STATE: 115,
        _NET_WM_STATE_MAXIMIZED_VERT: 116,
        _NET_WM_STATE_MAXIMIZED_HORZ: 117,
        _NET_WM_STATE_HIDDEN: 118,
        _NET_WM_STATE_FULLSCREEN: 119,
        _NET_WM_STATE_DEMANDS_ATTENTION: 120,
        _NET_WM_STATE_FOCUSED: 121,
        _NET_WM_STATE_SKIP_TASKBAR: 122,
        _NET_WM_STATE_SKIP_PAGER: 123,
        _NET_WM_ALLOWED_ACTIONS: 124,
        _NET_FRAME_EXTENTS: 125,
        _NET_WM_ACTION_MOVE: 126,
        _NET_WM_ACTION_RESIZE: 127,
        _NET_WM_ACTION_MINIMIZE: 128,
        _NET_WM_ACTION_MAXIMIZE_HORZ: 129,
        _NET_WM_ACTION_MAXIMIZE_VERT: 130,
        _NET_WM_ACTION_FULLSCREEN: 131,
    }
}

const ROOT: u32 = 1;
const SINK: u32 = 41;

fn screen(emulated_input: bool) -> Screen {
    Screen {
        root: ROOT,
        root_depth: 24,
        emulated_input,
    }
}

fn go(progress: Connecting, reply: ConnectReply, emulated_input: bool) -> Connecting {
    X11Control::connect(&screen(emulated_input), &atoms(), progress, reply)
}

fn published(emulated_input: bool) -> Connecting {
    let progress = go(Connecting::Owner, ConnectReply::Owner(5), emulated_input);
    assert!(matches!(progress, Connecting::Support));
    let support = 77u32.to_ne_bytes().to_vec();
    let progress = go(
        progress,
        ConnectReply::Property {
            format: 32,
            value: support,
        },
        emulated_input,
    );
    assert!(matches!(progress, Connecting::Sink { support_window: 77 }));
    let progress = go(
        progress,
        ConnectReply::Created { window: SINK },
        emulated_input,
    );
    let progress = go(
        progress,
        ConnectReply::Geometry {
            width: 640,
            height: 480,
        },
        emulated_input,
    );
    match &progress {
        Connecting::Publish { focus_sink, calls } => {
            assert_eq!(*focus_sink, SINK);
            assert_eq!(*calls, publish_ewmh(ROOT, 77, 640, 480, &atoms()));
        }
        _ => panic!("nothing published"),
    }
    go(progress, ConnectReply::Published, emulated_input)
}

fn control() -> X11Control {
    let progress = published(false);
    assert!(matches!(
        progress,
        Connecting::Pointer { focus_sink: SINK }
    ));
    match go(progress, ConnectReply::Xtest { available: true }, false) {
        Connecting::Ready(control) => control,
        _ => panic!("not ready"),
    }
}

#[test]
fn displays_are_named_by_their_number() {
    assert_eq!(display_name(0), ":0");
    assert_eq!(display_name(u32::MAX), ":4294967295");
}

#[test]
fn connecting_needs_a_window_manager() {
    match go(Connecting::Owner, ConnectReply::Owner(0), false) {
        Connecting::Failed(message) => assert_eq!(message, "Smithay XWM does not own WM_S0"),
        _ => panic!("connected without a window manager"),
    }
    let reply = ConnectReply::Property {
        format: 32,
        value: vec![0; 4],
    };
    match go(Connecting::Support, reply, false) {
        Connecting::Failed(message) => assert_eq!(
            message,
            "Smithay XWM did not publish _NET_SUPPORTING_WM_CHECK"
        ),
        _ => panic!("connected without a support window"),
    }
}

#[test]
fn wrong_replies_leave_connecting_where_it_is() {
    assert!(matches!(
        go(Connecting::Owner, ConnectReply::Published, false),
        Connecting::Owner
    ));
}

#[test]
fn support_windows_are_native_numbers() {
    let window = 0x01020304u32;
    assert_eq!(
        supporting_wm_window(32, &window.to_ne_bytes().to_vec()),
        Ok(window)
    );
    let two = [window.to_ne_bytes(), 9u32.to_ne_bytes()].concat();
    assert_eq!(supporting_wm_window(32, &two), Ok(window));
    for (format, value) in [
        (8, window.to_ne_bytes().to_vec()),
        (32, vec![1, 2, 3]),
        (32, vec![]),
        (32, vec![0; 4]),
    ] {
        assert_eq!(
            supporting_wm_window(format, &value),
            Err("Smithay XWM did not publish _NET_SUPPORTING_WM_CHECK".to_owned())
        );
    }
}

#[test]
fn redirected_input_is_never_injected() {
    match published(true) {
        Connecting::Ready(control) => assert_eq!(
            control.popup_pointer_motion(9, bits((1.0, 2.0))),
            PopupMotion::Refused
        ),
        _ => panic!("XTEST was asked for"),
    }
}

fn values(call: &XCall) -> (u32, u32, PropertyType, Vec<u32>) {
    match &call.request {
        XRequest::ChangeProperty32 {
            window,
            property,
            kind,
            values,
        } => (*window, *property, *kind, values.clone()),
        _ => panic!("no 32-bit property"),
    }
}

#[test]
fn ewmh_support_is_published_in_order() {
    let calls = publish_ewmh(ROOT, 77, 640, 480, &atoms());
    assert_eq!(calls.len(), 7);
    assert!(calls.iter().all(|call| !call.checked));
    assert_eq!(
        calls[0].request,
        XRequest::ChangeProperty8 {
            window: 77,
            property: 105,
            kind: PropertyType::Interned(100),
            bytes: b"Halley".to_vec()
        }
    );
    let supported = values(&calls[1]);
    assert_eq!(supported.1, 103);
    assert_eq!(supported.2, PropertyType::Atom);
    assert_eq!(supported.3, (103..=131).collect::<Vec<u32>>());
    assert_eq!(values(&calls[2]), (ROOT, 109, PropertyType::Cardinal, vec![1]));
    assert_eq!(values(&calls[3]), (ROOT, 110, PropertyType::Cardinal, vec![0]));
    assert_eq!(values(&calls[4]).3, [640, 480]);
    assert_eq!(values(&calls[5]).3, [0, 0]);
    assert_eq!(values(&calls[6]).3, [0, 0, 640, 480]);
}

#[test]
fn focus_sinks_are_off_screen() {
    let calls = create_focus_sink(ROOT, 24, SINK);
    assert!(calls.iter().all(|call| call.checked));
    assert_eq!(
        calls[0].request,
        XRequest::CreateWindow {
            window: SINK,
            parent: ROOT,
            depth: 24,
            x: -1,
            y: -1,
            width: 1,
            height: 1,
            border: 0
        }
    );
    assert_eq!(calls[1].request, XRequest::MapWindow { window: SINK });
}

#[test]
fn popup_drags_wait_for_the_press_and_end_with_a_round_trip() {
    let mut control = control();
    let at = bits((1972.503, 1190.397));
    assert_eq!(
        control.popup_pointer_motion(9, at),
        PopupMotion::QueryPointer { x: 1973, y: 1190 }
    );
    assert_eq!(
        X11Control::popup_pointer_queried(None, 1973, 1190),
        PopupMotion::Refused
    );
    assert_eq!(
        X11Control::popup_pointer_queried(Some(0x0200), 1973, 1190),
        PopupMotion::Refused
    );
    assert_eq!(
        X11Control::popup_pointer_queried(Some(0x0104), 1973, 1190),
        PopupMotion::Deliver { x: 1973, y: 1190 }
    );
    assert!(!control.popup_pointer_sent(9, false));
    assert!(!control.popup_pointer_active());
    assert!(!control.finish_popup_pointer());
    assert!(control.popup_pointer_sent(9, true));
    assert!(control.popup_pointer_active());
    assert_eq!(
        control.popup_pointer_motion(9, at),
        PopupMotion::Deliver { x: 1973, y: 1190 }
    );
    assert_eq!(
        control.popup_pointer_motion(10, at),
        PopupMotion::QueryPointer { x: 1973, y: 1190 }
    );
    assert_eq!(
        control.popup_pointer_motion(9, bits((40000.0, 0.0))),
        PopupMotion::Refused
    );
    assert!(control.finish_popup_pointer());
    assert!(!control.popup_pointer_active());
}

const GONE: ReplyError = ReplyError::X11(ErrorKind::Window);

#[test]
fn frame_extents_are_sent_once_and_forgotten_with_the_window() {
    let mut control = control();
    let extents = (1, 2, -3, 4);
    let call = control.set_frame_extents(9, extents).unwrap();
    assert!(call.checked);
    assert_eq!(
        values(&call),
        (
            9,
            125,
            PropertyType::Cardinal,
            vec![1, 2, (-3i32) as u32, 4]
        )
    );
    assert_eq!(control.frame_extents_set(9, extents, Err(GONE)), Ok(()));
    assert!(control.set_frame_extents(9, extents).is_some());
    assert_eq!(
        control.frame_extents_set(9, extents, Err(ReplyError::Connection)),
        Err(ReplyError::Connection)
    );
    assert!(control.set_frame_extents(9, extents).is_some());
    assert_eq!(control.frame_extents_set(9, extents, Ok(())), Ok(()));
    assert!(control.set_frame_extents(9, extents).is_none());
    assert!(control.set_frame_extents(9, (0, 0, 0, 0)).is_some());
    assert!(control.set_frame_extents(10, extents).is_some());
    control.forget_window(9);
    assert!(control.set_frame_extents(9, extents).is_some());
}

#[test]
fn only_destroyed_windows_are_tolerated() {
    let other = ReplyError::X11(ErrorKind::Other);
    for outcome in [X11Control::withdrawn, X11Control::allowed_actions_set] {
        assert_eq!(outcome(Ok(())), Ok(()));
        assert_eq!(outcome(Err(GONE)), Ok(()));
        assert_eq!(outcome(Err(other)), Err(other));
        assert_eq!(
            outcome(Err(ReplyError::Connection)),
            Err(ReplyError::Connection)
        );
    }
}

#[test]
fn window_states_are_published_and_withdrawn() {
    let control = control();
    let normal = control.set_wm_state(9, IcccmState::Normal);
    assert!(normal.checked);
    assert_eq!(
        values(&normal),
        (9, 102, PropertyType::Interned(102), vec![1, 0])
    );
    assert_eq!(
        values(&control.set_wm_state(9, IcccmState::Iconic)).3,
        [3, 0]
    );
    let withdrawn = control.withdraw(9);
    assert!(withdrawn.checked);
    assert_eq!(
        withdrawn.request,
        XRequest::DeleteProperty {
            window: 9,
            property: 102
        }
    );
}

#[test]
fn desktop_geometry_is_published_when_it_changes() {
    let mut control = control();
    let area = Some((-10, 20, 600, 400));
    let calls = control.publish_desktop_geometry((640, 480), area);
    assert_eq!(calls.len(), 3);
    assert!(calls.iter().all(|call| !call.checked));
    assert_eq!(
        values(&calls[0]),
        (ROOT, 111, PropertyType::Cardinal, vec![640, 480])
    );
    assert_eq!(values(&calls[1]).3, [(-10i32) as u32, 20, 600, 400]);
    assert_eq!(calls[2].request, XRequest::Flush);
    assert_eq!(control.publish_desktop_geometry((640, 480), area).len(), 3);
    control.desktop_geometry_published((640, 480), area);
    assert!(control.publish_desktop_geometry((640, 480), area).is_empty());
    let unknown = control.publish_desktop_geometry((640, 480), None);
    assert_eq!(
        unknown[1].request,
        XRequest::DeleteProperty {
            window: ROOT,
            property: 113
        }
    );
}

#[test]
fn active_windows_are_published_once_and_focus_is_parked() {
    let mut control = control();
    let calls = control.set_active_window(None, true);
    assert_eq!(
        values(&calls.property.unwrap()),
        (ROOT, 106, PropertyType::Window, vec![SINK])
    );
    assert_eq!(
        calls.focus[0].request,
        XRequest::SetInputFocus { window: SINK }
    );
    assert_eq!(calls.focus[1].request, XRequest::Flush);
    assert!(calls.focus.iter().all(|call| !call.checked));
    control.active_window_set(None, true);
    let again = control.set_active_window(None, true);
    assert!(again.property.is_none());
    assert_eq!(again.focus.len(), 2);
    let window = control.set_active_window(Some(9), true);
    assert_eq!(values(&window.property.unwrap()).3, [9]);
    assert_eq!(window.focus.len(), 1);
    let nobody = control.set_active_window(None, false);
    assert_eq!(values(&nobody.property.unwrap()).3, [0]);
}

#[test]
fn globally_active_clients_get_focus_without_waiting() {
    let calls = control().focus_window(9);
    assert_eq!(calls[0].request, XRequest::SetInputFocus { window: 9 });
    assert_eq!(calls[1].request, XRequest::Flush);
    assert!(calls.iter().all(|call| !call.checked));
}

#[test]
fn allowed_actions_are_listed_and_supported() {
    let control = control();
    let all = control.set_allowed_actions(9, AllowedActions::default());
    assert!(all.checked);
    assert_eq!(
        values(&all),
        (
            9,
            124,
            PropertyType::Atom,
            vec![126, 127, 128, 129, 130, 131]
        )
    );
    let some = control.set_allowed_actions(
        9,
        AllowedActions {
            move_: false,
            resize: false,
            minimize: true,
            maximize: false,
            fullscreen: true,
        },
    );
    assert_eq!(values(&some).3, [128, 131]);
    let supported = values(&publish_ewmh(ROOT, 77, 1, 1, &atoms())[1]).3;
    assert!(values(&all).3.iter().all(|atom| supported.contains(atom)));
}

fn controls() -> KeyboardControls {
    KeyboardControls {
        internal_mods_mask: 1,
        internal_mods_real_mods: 2,
        ignore_lock_mods_mask: 3,
        ignore_lock_mods_real_mods: 4,
        internal_mods_vmods: 5,
        ignore_lock_mods_vmods: 6,
        mouse_keys_dflt_btn: 7,
        groups_wrap: 8,
        access_x_option: 9,
        slow_keys_delay: 10,
        debounce_delay: 11,
        mouse_keys_delay: 12,
        mouse_keys_interval: 13,
        mouse_keys_time_to_max: 14,
        mouse_keys_max_speed: 15,
        mouse_keys_curve: -16,
        access_x_timeout: 17,
        access_x_timeout_mask: 18,
        access_x_timeout_values: 19,
        access_x_timeout_options_mask: 20,
        access_x_timeout_options_values: 21,
        per_key_repeat: [22; 32],
    }
}

#[test]
fn key_repeat_keeps_the_other_controls() {
    let update = key_repeat_controls(&controls(), 600, 25);
    assert_eq!(update.device, 0x100);
    assert_eq!(update.affect_enabled_controls, 1);
    assert_eq!(update.enabled_controls, 1);
    assert_eq!(update.change_controls, 1);
    assert_eq!((update.repeat_delay, update.repeat_interval), (600, 40));
    assert_eq!(update.affect_internal_real_mods, 1);
    assert_eq!(update.internal_real_mods, 2);
    assert_eq!(update.affect_internal_virtual_mods, 5);
    assert_eq!(update.internal_virtual_mods, 5);
    assert_eq!(update.ignore_lock_virtual_mods, 6);
    assert_eq!(update.mouse_keys_curve, -16);
    assert_eq!(update.per_key_repeat, [22; 32]);
    assert_eq!(key_repeat_controls(&controls(), -5, 25).repeat_delay, 1);
    assert_eq!(
        key_repeat_controls(&controls(), i32::MAX, 25).repeat_delay,
        u16::MAX
    );
}

#[test]
fn key_repeat_is_configured_step_by_step() {
    let next = |step, reply| X11Control::configure_key_repeat(600, 25, Some((step, reply)));
    let step = X11Control::configure_key_repeat(600, 25, None);
    assert!(matches!(step, KeyRepeatStep::SetMode { enabled: true }));
    let step = next(step, KeyRepeatReply::Confirmed);
    assert!(matches!(step, KeyRepeatStep::UseExtension));
    let step = next(step, KeyRepeatReply::Extension { supported: true });
    assert!(matches!(step, KeyRepeatStep::GetControls { device: 0x100 }));
    let step = next(step, KeyRepeatReply::Controls(controls()));
    match &step {
        KeyRepeatStep::SetControls(update) => {
            assert_eq!(*update, key_repeat_controls(&controls(), 600, 25))
        }
        _ => panic!("no controls"),
    }
    let step = next(step, KeyRepeatReply::Confirmed);
    assert!(matches!(step, KeyRepeatStep::Flush));
    assert!(matches!(
        next(step, KeyRepeatReply::Confirmed),
        KeyRepeatStep::Done
    ));
}

#[test]
fn key_repeat_needs_xkb_only_when_it_is_on() {
    let step = X11Control::configure_key_repeat(600, 0, None);
    assert!(matches!(step, KeyRepeatStep::SetMode { enabled: false }));
    let step =
        X11Control::configure_key_repeat(600, 0, Some((step, KeyRepeatReply::Confirmed)));
    assert!(matches!(step, KeyRepeatStep::Flush));
    let failed = X11Control::configure_key_repeat(
        600,
        25,
        Some((
            KeyRepeatStep::UseExtension,
            KeyRepeatReply::Extension { supported: false },
        )),
    );
    match failed {
        KeyRepeatStep::Failed(message) => assert_eq!(
            message,
            "XWayland does not support XKB 1.0 keyboard controls"
        ),
        _ => panic!("XKB is needed"),
    }
}
