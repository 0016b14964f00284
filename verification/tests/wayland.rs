use halley::wayland::dmabuf::{
    advertisement, create_global, defer_until_readable, send_output_feedback, Advertisement,
    DesktopWindow, DmabufCapabilities, DmabufGlobal, FeedbackTarget, Format, OutputScene,
};
use halley::wayland::permissions::{
    allowed, approved_paths, peer_executable, same_executable, ApprovedFile, Capability,
    ClientState, FileIdentity, PeerCredentials, Permissions,
};
use halley::wayland::virtual_keyboard::request;
use halley::wayland::wlr_gamma_control::{
    decode_ramp, ramp_len, read_ramp, Announcement, ControlData, Failure, FileMetadata,
    GlobalData, ReadJob, State,
};

// What a pending buffer generates: a blocker and its readiness source.
fn pending_planes() -> Result<(&'static str, &'static str), ()> {
    Ok(("blocker", "source"))
}

#[test]
fn ready_buffers_do_not_register_a_source_or_install_a_blocker() {
    let ready: Result<(&str, &str), ()> = Err(());
    assert!(defer_until_readable(ready, |_| panic!("already ready")).is_none());
}

#[test]
fn failed_source_registration_does_not_leave_an_orphan_blocker() {
    assert!(defer_until_readable(pending_planes(), |_| false).is_none());
}

#[test]
fn pending_buffers_install_their_blocker_once_the_source_is_registered() {
    let mut registered = Vec::new();
    let blocker = defer_until_readable(pending_planes(), |source| {
        registered.push(source);
        true
    });
    assert_eq!(blocker, Some("blocker"));
    assert_eq!(registered, ["source"]);
}

const ARGB8888_LINEAR: Format = Format {
    code: 0x34325241,
    modifier: 0,
};

fn capabilities(main_device: Option<u64>) -> DmabufCapabilities {
    DmabufCapabilities::new(main_device, vec![ARGB8888_LINEAR])
}

#[test]
fn omits_global_without_renderer_formats() {
    assert_eq!(
        advertisement(&DmabufCapabilities::new(None, Default::default())),
        Advertisement::Omitted
    );
}

#[test]
fn falls_back_to_version_three_without_a_device() {
    assert_eq!(advertisement(&capabilities(None)), Advertisement::Version3);
}

#[test]
fn selects_version_five_when_feedback_has_a_device() {
    assert_eq!(
        advertisement(&capabilities(Some(42))),
        Advertisement::Version5(42)
    );
}

#[test]
fn a_device_without_formats_is_not_advertised() {
    let none = DmabufCapabilities::new(Some(42), vec![]);
    assert_eq!(advertisement(&none), Advertisement::Omitted);
    let built: Option<DmabufGlobal<()>> =
        create_global(&none, |_, _| -> Result<(), ()> { panic!("nothing to build") });
    assert!(built.is_none());
}

#[test]
fn globals_are_the_strongest_that_can_be_built() {
    let formats: DmabufGlobal<&str> = DmabufGlobal::Formats(vec![ARGB8888_LINEAR]);
    assert_eq!(
        create_global(&capabilities(Some(42)), |device, formats| {
            assert_eq!(device, 42);
            assert_eq!(formats, [ARGB8888_LINEAR]);
            Ok::<_, ()>("feedback")
        }),
        Some(DmabufGlobal::DefaultFeedback("feedback"))
    );
    assert_eq!(
        create_global(&capabilities(Some(42)), |_, _| Err::<&str, ()>(())),
        Some(formats)
    );
    assert_eq!(
        create_global(&capabilities(None), |_, _| -> Result<&str, ()> {
            panic!("no device")
        }),
        Some(DmabufGlobal::Formats(vec![ARGB8888_LINEAR]))
    );
}

fn scene(locked: bool) -> OutputScene {
    OutputScene {
        locked,
        lock_surfaces: vec![1, 2],
        windows: vec![
            DesktopWindow {
                id: 3,
                on_output: true,
            },
            DesktopWindow {
                id: 4,
                on_output: false,
            },
            DesktopWindow {
                id: 5,
                on_output: true,
            },
        ],
        layers: vec![6],
        dnd_icon: Some(7),
    }
}

#[test]
fn feedback_goes_to_what_the_output_shows() {
    assert_eq!(
        send_output_feedback(&scene(false)),
        [
            FeedbackTarget::Window(3),
            FeedbackTarget::Window(5),
            FeedbackTarget::Layer(6),
            FeedbackTarget::DragIcon(7),
        ]
    );
    let mut bare = scene(false);
    bare.dnd_icon = None;
    assert_eq!(send_output_feedback(&bare).len(), 3);
}

#[test]
fn a_lock_keeps_feedback_to_itself() {
    assert_eq!(
        send_output_feedback(&scene(true)),
        [FeedbackTarget::LockSurface(1), FeedbackTarget::LockSurface(2)]
    );
}

#[test]
fn locks_drop_virtual_keyboard_requests() {
    assert_eq!(request(false, "key"), Some("key"));
    assert_eq!(request(true, "key"), None);
}

#[test]
fn ordinary_connections_have_no_desktop_capabilities() {
    assert_eq!(Permissions::default().0, [false; 4]);
}

fn file(dev: u64, ino: u64) -> Option<FileIdentity> {
    Some(FileIdentity {
        is_file: true,
        dev,
        ino,
    })
}

#[test]
fn grants_match_executable_identity_not_a_claimed_name() {
    let current = file(1, 100);
    let shell = file(1, 200);
    assert!(same_executable(current, &b"/opt/ime".to_vec(), current));
    assert!(!same_executable(current, &b"/bin/sh".to_vec(), shell));
    assert!(!same_executable(current, &b"*".to_vec(), current));
    assert!(!same_executable(current, &b"/missing/approved".to_vec(), None));
}

#[test]
fn only_regular_files_on_the_same_device_are_the_same() {
    let path = b"/opt/ime".to_vec();
    let directory = Some(FileIdentity {
        is_file: false,
        dev: 1,
        ino: 100,
    });
    assert!(!same_executable(file(1, 100), &path, file(2, 100)));
    assert!(!same_executable(file(1, 100), &path, file(1, 101)));
    assert!(!same_executable(directory, &path, directory));
    assert!(!same_executable(None, &path, file(1, 100)));
}

#[test]
fn grants_are_per_client_and_per_capability() {
    let ordinary = ClientState::default();
    for capability in [
        Capability::Capture,
        Capability::Clipboard,
        Capability::VirtualKeyboard,
        Capability::InputMethod,
    ] {
        assert!(!allowed(Some(&ordinary), capability));
    }
    let ime = ClientState {
        permissions: Permissions([false, false, false, true]),
    };
    assert!(allowed(Some(&ime), Capability::InputMethod));
    assert!(!allowed(Some(&ime), Capability::Capture));
    assert!(!allowed(Some(&ime), Capability::Clipboard));
    assert!(!allowed(Some(&ime), Capability::VirtualKeyboard));
    assert!(!allowed(None, Capability::InputMethod));
}

fn approved(path: &str, identity: Option<FileIdentity>) -> ApprovedFile {
    ApprovedFile {
        path: path.as_bytes().to_vec(),
        identity,
    }
}

fn policy() -> [Vec<ApprovedFile>; 4] {
    [
        vec![],
        vec![
            approved("/opt/other", file(1, 5)),
            approved("/opt/tool", file(1, 7)),
        ],
        vec![approved("tool", file(1, 7))],
        vec![approved("/opt/link", file(1, 7))],
    ]
}

#[test]
fn sockets_get_what_their_executable_was_granted() {
    let own = Some(PeerCredentials {
        pid: 12,
        uid: 1000,
    });
    assert_eq!(
        Permissions::for_socket(own, 1000, file(1, 7), &policy()).0,
        [false, true, false, true]
    );
    assert_eq!(
        Permissions::for_socket(own, 1000, file(1, 8), &policy()).0,
        [false; 4]
    );
}

#[test]
fn strangers_get_nothing() {
    for peer in [
        None,
        Some(PeerCredentials {
            pid: 12,
            uid: 1001,
        }),
        Some(PeerCredentials { pid: 0, uid: 1000 }),
        Some(PeerCredentials {
            pid: -1,
            uid: 1000,
        }),
    ] {
        assert_eq!(
            Permissions::for_socket(peer, 1000, file(1, 7), &policy()).0,
            [false; 4]
        );
        assert!(peer_executable(peer, 1000).is_none());
    }
    assert_eq!(
        peer_executable(
            Some(PeerCredentials {
                pid: 12,
                uid: 1000
            }),
            1000
        )
        .unwrap(),
        "/proc/12/exe"
    );
}

#[test]
fn approvals_are_absolute_paths_between_colons() {
    let list = b"/usr/bin/grim:relative::/opt/a b".to_vec();
    assert_eq!(
        approved_paths(Some(&list)),
        vec![b"/usr/bin/grim".to_vec(), b"/opt/a b".to_vec()]
    );
    assert!(approved_paths(None).is_empty());
    assert!(approved_paths(Some(&vec![])).is_empty());
}

#[test]
fn capabilities_are_listed_at_their_places() {
    for (place, capability) in Capability::all().into_iter().enumerate() {
        assert_eq!(capability.index(), place);
    }
}

#[test]
fn oversized_files_are_not_read() {
    for len in [11, 13] {
        let result = read_ramp(
            2,
            || Ok(FileMetadata { is_file: true, len }),
            |_| panic!("the size is wrong"),
        );
        assert!(result.is_err());
    }
}

#[test]
fn capabilities_have_their_own_variables() {
    let names = Capability::all().map(|capability| capability.variable());
    assert_eq!(
        names,
        [
            "HALLEY_ALLOW_SCREEN_CAPTURE",
            "HALLEY_ALLOW_CLIPBOARD_CONTROL",
            "HALLEY_ALLOW_VIRTUAL_KEYBOARD",
            "HALLEY_ALLOW_INPUT_METHOD",
        ]
    );
}

fn read_file(bytes: &[u8], gamma_size: u32) -> Result<Vec<u16>, String> {
    read_ramp(
        gamma_size,
        || {
            Ok(FileMetadata {
                is_file: true,
                len: bytes.len() as u64,
            })
        },
        |len| {
            assert_eq!(len, bytes.len());
            Ok(bytes.to_vec())
        },
    )
}

#[test]
fn ramp_parser_preserves_native_channel_order() {
    let values = [1u16, 2, 3, 4, 5, 6];
    let bytes = values
        .iter()
        .flat_map(|value| value.to_ne_bytes())
        .collect::<Vec<_>>();
    assert_eq!(read_file(&bytes, 2).unwrap(), values);
}

#[test]
fn ramp_parser_rejects_short_and_trailing_data() {
    assert!(read_file(&[0; 11], 2).is_err());
    assert!(read_file(&[0; 13], 2).is_err());
}

#[test]
fn ramp_parser_rejects_open_stream_without_waiting_for_eof() {
    let result = read_ramp(
        2,
        || {
            Ok(FileMetadata {
                is_file: false,
                len: 12,
            })
        },
        |_| panic!("a stream is not read"),
    );
    assert_eq!(
        result.unwrap_err(),
        "gamma ramp must be a regular file of the advertised size"
    );
}

#[test]
fn ramp_errors_say_what_failed() {
    let metadata = read_ramp(2, || Err("EIO".to_owned()), |_| Ok(vec![]));
    assert_eq!(metadata.unwrap_err(), "gamma file metadata: EIO");
    let bytes = read_ramp(
        2,
        || {
            Ok(FileMetadata {
                is_file: true,
                len: 12,
            })
        },
        |_| Err("EIO".to_owned()),
    );
    assert_eq!(bytes.unwrap_err(), "failed to read gamma ramp: EIO");
}

#[test]
fn ramps_hold_three_channels_of_two_bytes() {
    assert_eq!(ramp_len(0), Ok(0));
    assert_eq!(ramp_len(256), Ok(1536));
    assert_eq!(
        decode_ramp(&0xABCDu16.to_ne_bytes().to_vec()),
        vec![0xABCD]
    );
    assert_eq!(decode_ramp(&vec![0, 0, 9]), vec![0]);
}

fn size_256(_: u64) -> Result<u32, ()> {
    Ok(256)
}

fn held() -> State {
    let mut state = State::new();
    let size = state.gamma_size(Some(1), size_256);
    assert_eq!(size, Some(256));
    assert_eq!(
        state.get_gamma_control(Some(1), size, 11),
        Announcement::GammaSize(256)
    );
    state
}

#[test]
fn an_output_has_one_control_at_a_time() {
    let mut state = held();
    let size = state.gamma_size(Some(1), |_| -> Result<u32, ()> {
        panic!("held outputs are not asked")
    });
    assert_eq!(size, None);
    assert_eq!(
        state.get_gamma_control(Some(1), size, 12),
        Announcement::Failed
    );
    assert!(state.is_current(1, 11));
    assert!(!state.is_current(1, 12));
}

#[test]
fn unknown_outputs_and_drivers_without_gamma_fail() {
    let mut state = State::new();
    assert_eq!(state.gamma_size(None, size_256), None);
    assert_eq!(state.gamma_size(Some(3), |_| Err::<u32, ()>(())), None);
    assert_eq!(
        state.get_gamma_control(None, None, 12),
        Announcement::Failed
    );
    assert_eq!(
        state.get_gamma_control(Some(3), None, 12),
        Announcement::Failed
    );
    assert!(!state.is_current(3, 12));
}

#[test]
fn disabled_outputs_lose_their_control() {
    let mut state = held();
    assert_eq!(state.output_disabled(1), Some(11));
    assert_eq!(state.output_disabled(1), None);
    assert_eq!(state.gamma_size(Some(1), size_256), Some(256));
}

#[test]
fn ramps_are_queued_for_the_holder_only() {
    let mut state = held();
    let data = ControlData::new(Some(256));
    let mut queued = Vec::new();
    let failure = state.set_gamma(11, &data, |job| {
        queued.push(job);
        true
    });
    assert_eq!(failure, None);
    assert_eq!(
        queued,
        [ReadJob {
            gamma_size: 256,
            output: 1,
            control: 11
        }]
    );
    assert_eq!(
        state.set_gamma(12, &ControlData::new(None), |_| panic!("holds nothing")),
        None
    );
}

#[test]
fn a_full_queue_fails_the_control() {
    let mut state = held();
    let failure = state.set_gamma(11, &ControlData::new(Some(256)), |_| false);
    assert_eq!(
        failure,
        Some(Failure {
            output: 1,
            control: 11,
            message: "gamma reader unavailable or queue full".to_owned()
        })
    );
    assert!(!state.is_current(1, 11));
}

#[test]
fn ramps_reach_the_driver_and_failures_end_the_control() {
    let mut state = held();
    let done = state.finish_read(1, 11, Ok(vec![5]), |output, ramp| {
        assert_eq!((output, ramp), (1, vec![5]));
        Ok(())
    });
    assert_eq!(done, None);
    assert!(state.is_current(1, 11));
    let failed = state.finish_read(1, 11, Ok(vec![5]), |_, _| Err("busy".to_owned()));
    assert_eq!(failed.unwrap().message, "busy");
    assert!(!state.is_current(1, 11));
    let mut state = held();
    let failed = state.finish_read(1, 11, Err("bad file".to_owned()), |_, _| {
        panic!("nothing to apply")
    });
    assert_eq!(failed.unwrap().message, "bad file");
}

#[test]
fn stale_ramps_are_ignored() {
    let mut state = held();
    assert_eq!(state.destroyed(11), Some(1));
    let stale = state.finish_read(1, 11, Ok(vec![5]), |_, _| panic!("stale"));
    assert_eq!(stale, None);
    assert_eq!(state.destroyed(11), None);
    state.get_gamma_control(Some(1), Some(256), 12);
    let replaced = state.finish_read(1, 11, Err("late".to_owned()), |_, _| panic!("stale"));
    assert_eq!(replaced, None);
    assert!(state.is_current(1, 12));
}

#[test]
fn the_global_is_seen_where_it_is_enabled() {
    assert!(GlobalData::new(true).can_view());
    assert!(!GlobalData::new(false).can_view());
}
