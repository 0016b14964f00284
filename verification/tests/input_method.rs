use halley::wayland::input_method::{
    Effect, InputMethod, Instance, PopupParent, Rectangle, Request,
};

fn rectangle(x: i32, y: i32, w: i32, h: i32) -> Rectangle {
    Rectangle { x, y, w, h }
}

fn parent() -> PopupParent {
    PopupParent {
        surface: 50,
        location: rectangle(0, 0, 640, 480),
    }
}

fn connected() -> InputMethod {
    let mut im = InputMethod::default();
    assert!(im.add_instance(1));
    im
}

fn commit_string(text: &str) -> Request {
    Request::CommitString {
        text: text.to_owned(),
    }
}

fn preedit(text: &str) -> Request {
    Request::SetPreeditString {
        text: text.to_owned(),
        cursor_begin: 0,
        cursor_end: 1,
    }
}

fn delete(before_length: u32, after_length: u32) -> Request {
    Request::DeleteSurroundingText {
        before_length,
        after_length,
    }
}

#[test]
fn edits_are_buffered_and_the_last_write_wins() {
    let mut im = connected();
    for edit in [
        commit_string("old"),
        preedit("old"),
        delete(9, 9),
        commit_string("new"),
        preedit("pre"),
        delete(1, 2),
    ] {
        assert!(im.request(1, edit).is_empty(), "edits escaped before commit");
    }
    assert_eq!(
        im.request(1, Request::Commit { serial: 77 }),
        [
            Effect::DeleteSurroundingText {
                before_length: 1,
                after_length: 2
            },
            Effect::CommitString {
                text: "new".to_owned()
            },
            Effect::PreeditString {
                text: "pre".to_owned(),
                cursor_begin: 0,
                cursor_end: 1
            },
            Effect::TextInputDone,
        ]
    );
    assert_eq!(
        im.request(1, Request::Commit { serial: 77 }),
        [Effect::TextInputDone]
    );
}

#[test]
fn focus_changes_discard_edits() {
    let mut im = connected();
    im.request(1, commit_string("lost"));
    im.activate_input_method(parent());
    assert_eq!(
        im.request(1, Request::Commit { serial: 0 }),
        [Effect::TextInputDone]
    );
    im.request(1, commit_string("lost"));
    im.deactivate_input_method();
    assert_eq!(
        im.request(1, Request::Commit { serial: 0 }),
        [Effect::TextInputDone]
    );
}

#[test]
fn a_second_input_method_cannot_replace_or_disconnect_the_first() {
    let mut im = connected();
    assert!(!im.add_instance(2));
    assert!(im.request(2, commit_string("evil")).is_empty());
    assert!(im.request(2, Request::Commit { serial: 0 }).is_empty());
    assert!(im.destroyed(2).is_empty());
    assert_eq!(
        im.request(2, Request::GrabKeyboard { keyboard: 8 }),
        [Effect::InitInertGrab { keyboard: 8 }]
    );
    assert_eq!(
        im.request(2, Request::GetInputPopupSurface { popup: 9 }),
        [Effect::InitInertPopup { popup: 9 }]
    );
    assert_eq!(
        im.popup_role_given(2, 9, true, Some(parent())),
        [Effect::InitInertPopup { popup: 9 }]
    );
    assert!(!im.keyboard_grabbed());
    im.request(1, commit_string("first"));
    assert_eq!(
        im.request(1, Request::Commit { serial: 0 })[0],
        Effect::CommitString {
            text: "first".to_owned()
        }
    );
}

#[test]
fn input_methods_can_reconnect() {
    let mut im = connected();
    assert_eq!(
        im.destroyed(1),
        [
            Effect::Deactivate { object: 1 },
            Effect::Done { object: 1 },
            Effect::LeaveTextInput,
        ]
    );
    assert!(!im.has_instance());
    assert!(im.add_instance(2));
    assert!(im.has_instance());
}

fn popup(im: &mut InputMethod, focus: Option<PopupParent>) -> Vec<Effect> {
    assert_eq!(
        im.request(1, Request::GetInputPopupSurface { popup: 9 }),
        [Effect::GiveRole { popup: 9 }]
    );
    im.popup_role_given(1, 9, true, focus)
}

#[test]
fn reactivation_clears_the_previous_popup_rectangle() {
    let mut im = connected();
    assert_eq!(
        popup(&mut im, Some(parent())),
        [
            Effect::InitPopup {
                popup: 9,
                rectangle: rectangle(0, 0, 0, 0)
            },
            Effect::NewPopup {
                popup: 9,
                parent: parent()
            },
        ]
    );
    assert_eq!(
        im.set_text_input_rectangle(rectangle(50, 60, 2, 20)),
        [
            Effect::PopupRectangle {
                popup: 9,
                rectangle: rectangle(50, 60, 2, 20)
            },
            Effect::PopupRepositioned { popup: 9 },
        ]
    );
    assert_eq!(
        im.activate_input_method(parent()),
        [
            Effect::Activate { object: 1 },
            Effect::DismissPopup { popup: 9 },
            Effect::PopupRectangle {
                popup: 9,
                rectangle: rectangle(0, 0, 0, 0)
            },
            Effect::NewPopup {
                popup: 9,
                parent: parent()
            },
        ]
    );
}

#[test]
fn popups_come_down_once() {
    let mut im = connected();
    popup(&mut im, Some(parent()));
    assert_eq!(
        im.deactivate_input_method(),
        [
            Effect::Deactivate { object: 1 },
            Effect::Done { object: 1 },
            Effect::DismissPopup { popup: 9 },
        ]
    );
    assert_eq!(im.deactivate_input_method().len(), 2);
}

#[test]
fn surfaces_with_a_role_are_no_popups() {
    let mut im = connected();
    im.request(1, Request::GetInputPopupSurface { popup: 9 });
    let refused = im.popup_role_given(1, 9, false, Some(parent()));
    assert_eq!(refused, [Effect::RoleError]);
    assert!(im.set_text_input_rectangle(rectangle(1, 1, 1, 1)).is_empty());
}

#[test]
fn suspension_hides_and_silences_the_input_method() {
    let mut im = connected();
    im.request(1, Request::GrabKeyboard { keyboard: 8 });
    im.request(1, commit_string("secret"));
    assert_eq!(
        im.set_suspended(true, true),
        [
            Effect::Deactivate { object: 1 },
            Effect::Done { object: 1 },
            Effect::LeaveTextInput,
            Effect::UnsetGrab,
        ]
    );
    assert!(im.set_suspended(true, true).is_empty());
    assert!(im.is_suspended());
    assert!(!im.has_instance());
    assert!(im.request(1, commit_string("typed")).is_empty());
    assert!(im.request(1, Request::Commit { serial: 0 }).is_empty());
    assert_eq!(
        popup(&mut im, Some(parent())),
        [Effect::InitPopup {
            popup: 9,
            rectangle: rectangle(0, 0, 0, 0)
        }]
    );
    assert_eq!(
        im.request(1, Request::GrabKeyboard { keyboard: 10 }),
        [
            Effect::InitGrab { keyboard: 10 },
            Effect::DescribeKeyboard { keyboard: 10 },
        ]
    );
    im.with_instance(|_| panic!("suspended"));
    assert_eq!(
        im.set_suspended(false, false),
        [Effect::EnterTextInput, Effect::SetGrab]
    );
    assert_eq!(
        im.request(1, Request::Commit { serial: 0 }),
        [Effect::TextInputDone]
    );
}

#[test]
fn suspension_without_an_input_method_does_nothing() {
    let mut im = InputMethod::default();
    assert!(im.set_suspended(true, true).is_empty());
    assert!(im.is_suspended());
    assert!(im.set_suspended(false, false).is_empty());
}

#[test]
fn grabs_take_the_keyboard() {
    let mut im = connected();
    assert_eq!(
        im.request(1, Request::GrabKeyboard { keyboard: 8 }),
        [
            Effect::SetGrab,
            Effect::InitGrab { keyboard: 8 },
            Effect::DescribeKeyboard { keyboard: 8 },
        ]
    );
    assert!(im.keyboard_grabbed());
    assert!(im.request(1, Request::Destroy).is_empty());
}

#[test]
fn serials_count_and_wrap() {
    let mut instance = Instance {
        object: 1,
        serial: u32::MAX,
    };
    instance.done();
    assert_eq!(instance.serial, 0);
    instance.done();
    assert_eq!(instance.serial, 1);
    let mut im = connected();
    im.deactivate_input_method();
    im.with_instance(|instance| {
        assert_eq!(instance.serial, 1);
        instance
    });
}
