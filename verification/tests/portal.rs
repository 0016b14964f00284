use halley::bus::BusError;
use halley::paths::{same_path, split};
use halley::portal::auth::{
    approved_frontends, authenticate, frontend, frontend_name, frontend_variable, same_owner,
    Authenticating, Reply,
};
use halley::portal::session::{CaptureSource, CursorMode, SessionStore};

#[test]
fn rejects_missing_replaced_and_well_known_owners() {
    assert!(same_owner(":1.2", ":1.2").is_ok());
    assert!(same_owner(":1.3", ":1.2").is_err());
    assert!(same_owner("", "").is_err());
    assert!(same_owner(
        "org.freedesktop.portal.Desktop",
        "org.freedesktop.portal.Desktop"
    )
    .is_err());
}

#[test]
fn sessions_retain_identity_and_cannot_be_overwritten() {
    let mut sessions = SessionStore::default();
    sessions
        .create("/session/one".into(), ":1.2".into(), "app.a".into())
        .unwrap();
    assert!(sessions
        .create("/session/one".into(), ":1.3".into(), "app.b".into())
        .is_err());
    let session = sessions.get("/session/one").unwrap();
    assert_eq!(session.owner, ":1.2");
    assert_eq!(session.app_id, "app.a");
}

#[test]
fn session_limit_is_released_on_close() {
    let mut sessions = SessionStore::default();
    for index in 0..64 {
        sessions
            .create(format!("/session/{index}"), ":1.2".into(), "app".into())
            .unwrap();
    }
    assert!(sessions
        .create("/session/full".into(), ":1.2".into(), "app".into())
        .is_err());
    sessions.remove("/session/0");
    assert!(sessions
        .create("/session/new".into(), ":1.2".into(), "app".into())
        .is_ok());
}

#[test]
fn new_sessions_select_nothing_and_hide_the_cursor() {
    let mut sessions = SessionStore::default();
    let first = sessions
        .create("/a".into(), ":1.2".into(), "app".into())
        .unwrap();
    let second = sessions
        .create("/b".into(), ":1.2".into(), "app".into())
        .unwrap();
    assert_eq!(first.id, "halley1");
    assert_eq!(second.id, "halley2");
    assert_eq!(first.selected, None);
    assert_eq!(first.cursor_mode, CursorMode::Hidden);
}

#[test]
fn refused_sessions_say_why_and_use_no_number() {
    let mut sessions = SessionStore::default();
    sessions
        .create("/a".into(), ":1.2".into(), "app".into())
        .unwrap();
    assert_eq!(
        sessions
            .create("/a".into(), ":1.2".into(), "app".into())
            .unwrap_err(),
        "session already exists or session limit reached"
    );
    let next = sessions
        .create("/b".into(), ":1.2".into(), "app".into())
        .unwrap();
    assert_eq!(next.id, "halley2");
}

#[test]
fn changes_through_a_session_stay_in_the_store() {
    let mut sessions = SessionStore::default();
    sessions
        .create("/a".into(), ":1.2".into(), "app".into())
        .unwrap();
    sessions
        .create("/b".into(), ":1.3".into(), "app".into())
        .unwrap();
    sessions.get_mut("/a").unwrap().selected = Some(CaptureSource { id: 9 });
    assert_eq!(
        sessions.get("/a").unwrap().selected,
        Some(CaptureSource { id: 9 })
    );
    assert_eq!(sessions.get("/b").unwrap().selected, None);
    assert!(sessions.get_mut("/c").is_none());
    sessions.remove("/a");
    sessions.remove("/a");
    assert!(sessions.get("/a").is_none());
    assert_eq!(sessions.get("/b").unwrap().owner, ":1.3");
}

struct Machine {
    bus: Result<(), String>,
    owner: Option<&'static str>,
    uid: Option<u32>,
    pid: Option<u32>,
    executable: Option<&'static str>,
    named: Option<&'static str>,
    resolved: Vec<(&'static str, &'static str)>,
}

fn machine() -> Machine {
    Machine {
        bus: Ok(()),
        owner: Some(":1.9"),
        uid: Some(1000),
        pid: Some(4321),
        executable: Some("/usr/libexec/xdg-desktop-portal"),
        named: None,
        resolved: vec![(
            "/usr/libexec/xdg-desktop-portal",
            "/usr/libexec/xdg-desktop-portal",
        )],
    }
}

fn authenticate_on(machine: &Machine, sender: Option<&str>) -> Result<String, BusError> {
    let mut progress = frontend(sender.map(str::to_owned));
    loop {
        let reply = match &progress {
            Authenticating::Bus { .. } => Reply::Bus(machine.bus.clone()),
            Authenticating::Owner { .. } => Reply::Owner(machine.owner.map(str::to_owned)),
            Authenticating::User { .. } => Reply::User(machine.uid),
            Authenticating::Process { .. } => Reply::Process(machine.pid),
            Authenticating::Executable { link, .. } => {
                assert_eq!(link, "/proc/4321/exe");
                Reply::Executable(machine.executable.map(|p| p.as_bytes().to_vec()))
            }
            Authenticating::Named { .. } => {
                Reply::Named(machine.named.map(|p| p.as_bytes().to_vec()))
            }
            Authenticating::Resolve { path, .. } => Reply::Resolved(
                machine
                    .resolved
                    .iter()
                    .find(|(from, _)| from.as_bytes() == path.as_slice())
                    .map(|(_, to)| to.as_bytes().to_vec()),
            ),
            Authenticating::Settled(_) => break,
        };
        progress = authenticate(progress, reply, 1000);
    }
    match progress {
        Authenticating::Settled(result) => result,
        _ => unreachable!(),
    }
}

fn denied() -> Result<String, BusError> {
    Err(BusError::AccessDenied(
        "only the authenticated xdg-desktop-portal frontend may access this object".to_owned(),
    ))
}

#[test]
fn the_frontend_is_let_in_under_its_unique_name() {
    assert_eq!(
        authenticate_on(&machine(), Some(":1.9")),
        Ok(":1.9".to_owned())
    );
    assert_eq!(frontend_name(), "org.freedesktop.portal.Desktop");
    assert_eq!(frontend_variable(), "HALLEY_PORTAL_FRONTEND");
}

#[test]
fn everyone_else_is_denied() {
    assert_eq!(authenticate_on(&machine(), None), denied());
    assert_eq!(authenticate_on(&machine(), Some(":1.8")), denied());
    for broken in [
        Machine {
            owner: None,
            ..machine()
        },
        Machine {
            uid: None,
            ..machine()
        },
        Machine {
            uid: Some(0),
            ..machine()
        },
        Machine {
            pid: None,
            ..machine()
        },
        Machine {
            executable: None,
            ..machine()
        },
        Machine {
            executable: Some("/usr/bin/python3"),
            ..machine()
        },
        Machine {
            resolved: vec![],
            ..machine()
        },
        Machine {
            named: Some("/opt/portal"),
            ..machine()
        },
        Machine {
            named: Some("xdg-desktop-portal"),
            resolved: vec![("xdg-desktop-portal", "/usr/libexec/xdg-desktop-portal")],
            ..machine()
        },
    ] {
        assert_eq!(authenticate_on(&broken, Some(":1.9")), denied());
    }
}

#[test]
fn an_unreachable_bus_is_no_denial() {
    let broken = Machine {
        bus: Err("gone".to_owned()),
        ..machine()
    };
    assert_eq!(
        authenticate_on(&broken, Some(":1.9")),
        Err(BusError::Unreachable("gone".to_owned()))
    );
}

#[test]
fn a_named_frontend_replaces_the_standard_ones() {
    let custom = Machine {
        named: Some("/opt/portal"),
        executable: Some("/opt/portal-1.2/portal"),
        resolved: vec![("/opt/portal", "/opt/portal-1.2/portal")],
        ..machine()
    };
    assert_eq!(
        authenticate_on(&custom, Some(":1.9")),
        Ok(":1.9".to_owned())
    );
    assert_eq!(
        approved_frontends(Some(b"/opt/portal".to_vec())),
        vec![b"/opt/portal".to_vec()]
    );
    assert_eq!(
        approved_frontends(None),
        vec![
            b"/usr/lib/xdg-desktop-portal".to_vec(),
            b"/usr/libexec/xdg-desktop-portal".to_vec()
        ]
    );
}

#[test]
fn paths_compare_as_the_standard_library_compares_them() {
    let paths = [
        "", "/", "//", ".", "./", "/.", "/a", "/a/", "//a", "/./a", "/a/.", "a", "./a", "a/./b",
        "a/b", "a//b/", "/a/b", "/a/../b", "/b", "..", "../a", ".a", "/.a", "a.", "./.", "./a/.",
    ];
    for a in paths {
        for b in paths {
            assert_eq!(
                same_path(&a.as_bytes().to_vec(), &b.as_bytes().to_vec()),
                std::path::Path::new(a) == std::path::Path::new(b),
                "{a:?} {b:?}"
            );
        }
    }
}

#[test]
fn splitting_keeps_empty_pieces() {
    assert_eq!(
        split(&b"a::b:".to_vec(), b':'),
        vec![b"a".to_vec(), vec![], b"b".to_vec(), vec![]]
    );
    assert_eq!(split(&vec![], b':'), vec![Vec::<u8>::new()]);
}
