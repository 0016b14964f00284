use halley::accessibility::dbus::{
    approval_variable, authorize, authorized_name_owner, require_approved_connection,
    require_name_owner, Answer, Authorizing,
};
use halley::bus::BusError;

const DENIED: &str = "keyboard monitoring requires an explicitly approved unique D-Bus connection in HALLEY_ACCESSIBILITY_MONITOR";

#[test]
fn name_owner_authorization_accepts_the_owner() {
    let owner = ":1.42".to_owned();
    assert_eq!(
        authorized_name_owner(owner.as_str(), owner.clone(), "denied").unwrap(),
        owner
    );
}

#[test]
fn name_owner_authorization_rejects_an_untrusted_bus_client() {
    let owner = ":1.42".to_owned();
    let untrusted = ":1.43".to_owned();
    assert!(matches!(
        authorized_name_owner(untrusted.as_str(), owner, "denied"),
        Err(BusError::AccessDenied(message)) if message == "denied"
    ));
}

#[test]
fn claiming_orca_name_does_not_grant_keyboard_access() {
    let caller = ":1.42";
    for approval in [
        None,
        Some("org.gnome.Orca.KeyboardMonitor"),
        Some(":1.41"),
        Some("*"),
    ] {
        assert!(require_approved_connection(caller, approval).is_err());
    }
    assert!(require_approved_connection(caller, Some(":1.42")).is_ok());
}

#[test]
fn a_well_known_owner_is_not_approved_by_its_name() {
    let name = "org.gnome.Orca.KeyboardMonitor";
    assert_eq!(
        require_approved_connection(name, Some(name)),
        Err(BusError::AccessDenied(DENIED.to_owned()))
    );
}

fn authorize_with(
    sender: Option<&str>,
    bus: Result<(), String>,
    name: &str,
    owner: Option<&str>,
    approved: Option<&str>,
) -> Result<String, BusError> {
    let mut progress = require_name_owner(sender.map(str::to_owned));
    loop {
        let answer = match &progress {
            Authorizing::Bus { .. } => Answer::Bus(bus.clone()),
            Authorizing::Owner { .. } => Answer::Owner(owner.map(str::to_owned)),
            Authorizing::Approval { .. } => Answer::Approval(approved.map(str::to_owned)),
            Authorizing::Settled(_) => break,
        };
        progress = authorize(progress, answer, name, "not yours");
    }
    match progress {
        Authorizing::Settled(result) => result,
        _ => unreachable!(),
    }
}

const NAME: &str = "org.gnome.Orca.KeyboardMonitor";

#[test]
fn the_pinned_owner_is_authorized() {
    assert_eq!(
        authorize_with(Some(":1.42"), Ok(()), NAME, Some(":1.42"), Some(":1.42")),
        Ok(":1.42".to_owned())
    );
    assert_eq!(approval_variable(), "HALLEY_ACCESSIBILITY_MONITOR");
}

#[test]
fn every_refusal_has_its_reason() {
    assert_eq!(
        authorize_with(None, Ok(()), NAME, Some(":1.42"), Some(":1.42")),
        Err(BusError::AccessDenied("missing D-Bus sender".to_owned()))
    );
    assert_eq!(
        authorize_with(
            Some(":1.42"),
            Err("no bus".to_owned()),
            NAME,
            Some(":1.42"),
            Some(":1.42")
        ),
        Err(BusError::Failed("no bus".to_owned()))
    );
    assert_eq!(
        authorize_with(Some(":1.42"), Ok(()), NAME, None, Some(":1.42")),
        Err(BusError::AccessDenied("not yours".to_owned()))
    );
    assert_eq!(
        authorize_with(Some(":1.42"), Ok(()), NAME, Some(":1.7"), Some(":1.42")),
        Err(BusError::AccessDenied("not yours".to_owned()))
    );
    assert_eq!(
        authorize_with(Some(":1.42"), Ok(()), NAME, Some(":1.42"), None),
        Err(BusError::AccessDenied(DENIED.to_owned()))
    );
}

fn accepts_name(name: &str) -> bool {
    match authorize_with(Some(":1.42"), Ok(()), name, Some(":1.42"), Some(":1.42")) {
        Ok(_) => true,
        Err(error) => {
            assert_eq!(
                error,
                BusError::Failed(
                    "Invalid well-known name. See https://dbus.freedesktop.org/doc/dbus-specification.html#message-protocol-names-bus"
                        .to_owned()
                )
            );
            false
        }
    }
}

#[test]
fn well_known_names_have_two_elements_that_begin_without_a_digit() {
    for name in [
        "org.gnome.Service-for_you",
        "a.b",
        "_.-",
        "a9.b9",
        "a.very.loooooooooooooooooo-ooooooo_0000o0ng.Name",
    ] {
        assert!(accepts_name(name), "{name}");
    }
    for name in [
        "",
        ".",
        "no-dots",
        "double..dots",
        ".start.with.dot",
        "end.with.dot.",
        "1st.element",
        "the.2nd.element",
        "a.b c",
        "a.\u{e9}",
        ":1.42",
    ] {
        assert!(!accepts_name(name), "{name}");
    }
    let longest = format!("a.{}", "b".repeat(253));
    assert!(accepts_name(&longest));
    assert!(!accepts_name(&format!("{longest}b")));
}

#[test]
fn wrong_answers_lead_nowhere() {
    let progress = require_name_owner(Some(":1.1".to_owned()));
    let progress = authorize(progress, Answer::Owner(Some(":1.1".to_owned())), NAME, "no");
    assert_eq!(
        progress,
        Authorizing::Bus {
            sender: ":1.1".to_owned()
        }
    );
}
