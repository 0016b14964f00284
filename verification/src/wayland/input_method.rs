//! The input method of a seat.
//!
//! At most one input method is connected at a time. Its edits are collected and
//! handed to the focused text input when it commits them. During secure input,
//! such as a lock, it is suspended: its objects survive, but it sees and edits
//! nothing.

use vstd::prelude::*;

verus! {

/// A rectangle in logical coordinates.
#[derive(Clone, Copy, Debug, PartialEq, Eq, Structural)]
pub struct Rectangle {
    pub x: i32,
    pub y: i32,
    pub w: i32,
    pub h: i32,
}

/// The rectangle at the origin without extent.
pub open spec fn no_rectangle() -> Rectangle {
    Rectangle { x: 0, y: 0, w: 0, h: 0 }
}

fn empty_rectangle() -> (res: Rectangle)
    ensures
        res == no_rectangle(),
{
    Rectangle { x: 0, y: 0, w: 0, h: 0 }
}

/// The surface a popup belongs to, and where it is.
#[derive(Clone, Copy, Debug, PartialEq, Eq, Structural)]
pub struct PopupParent {
    pub surface: u64,
    pub location: Rectangle,
}

/// The popup of the input method.
#[derive(Clone, Copy, Debug, PartialEq, Eq, Structural)]
pub struct Popup {
    pub object: u64,
    pub parent: Option<PopupParent>,
}

/// A connected input method.
#[derive(Clone, Copy, Debug, PartialEq, Eq, Structural)]
pub struct Instance {
    pub object: u64,
    pub serial: u32,
}

/// The serial after one more `done`, beginning again at zero.
pub open spec fn next_serial(serial: u32) -> u32 {
    if serial == u32::MAX {
        0
    } else {
        (serial + 1) as u32
    }
}

impl Instance {
    /// Counts a `done` that is sent.
    pub fn done(&mut self)
        ensures
            *final(self) == (Instance { serial: next_serial(old(self).serial), ..*old(self) }),
    {
        self.serial = self.serial.wrapping_add(1);
    }
}

/// The edits that were requested since the last commit.
#[derive(Debug)]
pub struct PendingText {
    pub commit: Option<String>,
    pub preedit: Option<(String, i32, i32)>,
    pub delete: Option<(u32, u32)>,
}

/// Pending edits with their texts as characters.
#[verifier::ext_equal]
pub struct PendingView {
    pub commit: Option<Seq<char>>,
    pub preedit: Option<(Seq<char>, i32, i32)>,
    pub delete: Option<(u32, u32)>,
}

/// A preedit with its text as characters.
pub open spec fn preedit_text(preedit: Option<(String, i32, i32)>) -> Option<(Seq<char>, i32, i32)> {
    match preedit {
        Some((text, begin, end)) => Some((text@, begin, end)),
        None => None,
    }
}

impl View for PendingText {
    type V = PendingView;

    open spec fn view(&self) -> PendingView {
        PendingView {
            commit: crate::text::optional_text(self.commit),
            preedit: preedit_text(self.preedit),
            delete: self.delete,
        }
    }
}

/// Nothing is pending.
pub open spec fn nothing_pending() -> PendingView {
    PendingView { commit: None, preedit: None, delete: None }
}

impl Default for PendingText {
    fn default() -> (res: Self)
        ensures
            res@ == nothing_pending(),
    {
        PendingText { commit: None, preedit: None, delete: None }
    }
}

/// The input method of a seat.
#[derive(Debug)]
pub struct InputMethod {
    instance: Option<Instance>,
    popup: Option<Popup>,
    rectangle: Rectangle,
    keyboard_grab: Option<u64>,
    pending: PendingText,
    suspended: bool,
}

/// The state of the input method.
#[verifier::ext_equal]
pub struct InputMethodView {
    /// The connected input method.
    pub instance: Option<Instance>,
    /// Its popup.
    pub popup: Option<Popup>,
    /// Where the text cursor is.
    pub rectangle: Rectangle,
    /// Its keyboard grab.
    pub keyboard_grab: Option<u64>,
    /// The edits that were not committed yet.
    pub pending: PendingView,
    /// Whether secure input is going on.
    pub suspended: bool,
}

impl View for InputMethod {
    type V = InputMethodView;

    closed spec fn view(&self) -> InputMethodView {
        InputMethodView {
            instance: self.instance,
            popup: self.popup,
            rectangle: self.rectangle,
            keyboard_grab: self.keyboard_grab,
            pending: self.pending@,
            suspended: self.suspended,
        }
    }
}

/// A request of an input method.
#[derive(Debug)]
pub enum Request {
    CommitString { text: String },
    SetPreeditString { text: String, cursor_begin: i32, cursor_end: i32 },
    DeleteSurroundingText { before_length: u32, after_length: u32 },
    Commit { serial: u32 },
    GetInputPopupSurface { popup: u64 },
    GrabKeyboard { keyboard: u64 },
    Destroy,
}

/// A request with its texts as characters.
pub enum RequestView {
    CommitString { text: Seq<char> },
    SetPreeditString { text: Seq<char>, cursor_begin: i32, cursor_end: i32 },
    DeleteSurroundingText { before_length: u32, after_length: u32 },
    Commit { serial: u32 },
    GetInputPopupSurface { popup: u64 },
    GrabKeyboard { keyboard: u64 },
    Destroy,
}

impl View for Request {
    type V = RequestView;

    open spec fn view(&self) -> RequestView {
        match *self {
            Request::CommitString { text } => RequestView::CommitString { text: text@ },
            Request::SetPreeditString { text, cursor_begin, cursor_end } => {
                RequestView::SetPreeditString { text: text@, cursor_begin, cursor_end }
            },
            Request::DeleteSurroundingText { before_length, after_length } => {
                RequestView::DeleteSurroundingText { before_length, after_length }
            },
            Request::Commit { serial } => RequestView::Commit { serial },
            Request::GetInputPopupSurface { popup } => RequestView::GetInputPopupSurface { popup },
            Request::GrabKeyboard { keyboard } => RequestView::GrabKeyboard { keyboard },
            Request::Destroy => RequestView::Destroy,
        }
    }
}

/// Something to be done, in the order it is listed.
#[derive(Debug, PartialEq, Eq)]
pub enum Effect {
    /// Tell an input method that it is active.
    Activate { object: u64 },
    /// Tell an input method that it is inactive.
    Deactivate { object: u64 },
    /// Send `done` to an input method.
    Done { object: u64 },
    /// Hide the text inputs from the input method.
    LeaveTextInput,
    /// Show the text inputs to the input method.
    EnterTextInput,
    /// Release the keyboard.
    UnsetGrab,
    /// Give the keyboard to the input method's grab.
    SetGrab,
    /// Tell a popup where the text cursor is.
    PopupRectangle { popup: u64, rectangle: Rectangle },
    /// A popup has to be placed again.
    PopupRepositioned { popup: u64 },
    /// Take a popup down.
    DismissPopup { popup: u64 },
    /// Put a popup up.
    NewPopup { popup: u64, parent: PopupParent },
    /// Delete text around the cursor of the active text input.
    DeleteSurroundingText { before_length: u32, after_length: u32 },
    /// Insert text into the active text input.
    CommitString { text: String },
    /// Show text that is being composed in the active text input.
    PreeditString { text: String, cursor_begin: i32, cursor_end: i32 },
    /// Send `done` to the active text input, with its own commit count.
    TextInputDone,
    /// Give the surface of a popup its role, and hand the outcome to
    /// [`InputMethod::popup_role_given`].
    GiveRole { popup: u64 },
    /// Create a popup object.
    InitPopup { popup: u64, rectangle: Rectangle },
    /// Create a popup object that does nothing.
    InitInertPopup { popup: u64 },
    /// Create a keyboard grab object.
    InitGrab { keyboard: u64 },
    /// Create a keyboard grab object that does nothing.
    InitInertGrab { keyboard: u64 },
    /// Tell a grab how keys repeat, then its keymap and, if the keymap could be
    /// sent, the modifiers.
    DescribeKeyboard { keyboard: u64 },
    /// Report that a surface already has a role.
    RoleError,
}

/// An effect with its texts as characters.
pub enum EffectView {
    Activate { object: u64 },
    Deactivate { object: u64 },
    Done { object: u64 },
    LeaveTextInput,
    EnterTextInput,
    UnsetGrab,
    SetGrab,
    PopupRectangle { popup: u64, rectangle: Rectangle },
    PopupRepositioned { popup: u64 },
    DismissPopup { popup: u64 },
    NewPopup { popup: u64, parent: PopupParent },
    DeleteSurroundingText { before_length: u32, after_length: u32 },
    CommitString { text: Seq<char> },
    PreeditString { text: Seq<char>, cursor_begin: i32, cursor_end: i32 },
    TextInputDone,
    GiveRole { popup: u64 },
    InitPopup { popup: u64, rectangle: Rectangle },
    InitInertPopup { popup: u64 },
    InitGrab { keyboard: u64 },
    InitInertGrab { keyboard: u64 },
    DescribeKeyboard { keyboard: u64 },
    RoleError,
}

impl View for Effect {
    type V = EffectView;

    open spec fn view(&self) -> EffectView {
        match *self {
            Effect::Activate { object } => EffectView::Activate { object },
            Effect::Deactivate { object } => EffectView::Deactivate { object },
            Effect::Done { object } => EffectView::Done { object },
            Effect::LeaveTextInput => EffectView::LeaveTextInput,
            Effect::EnterTextInput => EffectView::EnterTextInput,
            Effect::UnsetGrab => EffectView::UnsetGrab,
            Effect::SetGrab => EffectView::SetGrab,
            Effect::PopupRectangle { popup, rectangle } => EffectView::PopupRectangle {
                popup,
                rectangle,
            },
            Effect::PopupRepositioned { popup } => EffectView::PopupRepositioned { popup },
            Effect::DismissPopup { popup } => EffectView::DismissPopup { popup },
            Effect::NewPopup { popup, parent } => EffectView::NewPopup { popup, parent },
            Effect::DeleteSurroundingText { before_length, after_length } => {
                EffectView::DeleteSurroundingText { before_length, after_length }
            },
            Effect::CommitString { text } => EffectView::CommitString { text: text@ },
            Effect::PreeditString { text, cursor_begin, cursor_end } => EffectView::PreeditString {
                text: text@,
                cursor_begin,
                cursor_end,
            },
            Effect::TextInputDone => EffectView::TextInputDone,
            Effect::GiveRole { popup } => EffectView::GiveRole { popup },
            Effect::InitPopup { popup, rectangle } => EffectView::InitPopup { popup, rectangle },
            Effect::InitInertPopup { popup } => EffectView::InitInertPopup { popup },
            Effect::InitGrab { keyboard } => EffectView::InitGrab { keyboard },
            Effect::InitInertGrab { keyboard } => EffectView::InitInertGrab { keyboard },
            Effect::DescribeKeyboard { keyboard } => EffectView::DescribeKeyboard { keyboard },
            Effect::RoleError => EffectView::RoleError,
        }
    }
}

/// The views of a list of effects.
pub open spec fn effect_views(effects: Seq<Effect>) -> Seq<EffectView> {
    effects.map_values(|e: Effect| e@)
}

/// `object` is the connected input method.
pub open spec fn is_current(im: InputMethodView, object: u64) -> bool {
    im.instance is Some && im.instance->Some_0.object == object
}

/// The input method that no program is connected to.
pub open spec fn disconnected() -> InputMethodView {
    InputMethodView {
        instance: None,
        popup: None,
        rectangle: no_rectangle(),
        keyboard_grab: None,
        pending: nothing_pending(),
        suspended: false,
    }
}

/// The state after `object` asked to be the input method: it is, unless another
/// one is connected.
pub open spec fn after_add(im: InputMethodView, object: u64) -> InputMethodView {
    if im.instance is Some {
        im
    } else {
        InputMethodView { instance: Some(Instance { object, serial: 0 }), ..im }
    }
}

/// The state after text input began on another surface, at `parent`.
pub open spec fn after_activate(im: InputMethodView, parent: PopupParent) -> InputMethodView {
    InputMethodView {
        pending: nothing_pending(),
        rectangle: no_rectangle(),
        popup: match (im.instance, im.popup) {
            (Some(_), Some(popup)) => Some(Popup { parent: Some(parent), ..popup }),
            _ => im.popup,
        },
        ..im
    }
}

/// What is done when text input begins: the input method is told, and its popup
/// moves to the new surface.
pub open spec fn activate_effects(im: InputMethodView, parent: PopupParent) -> Seq<EffectView> {
    match im.instance {
        Some(instance) => seq![EffectView::Activate { object: instance.object }] + match im.popup {
            Some(popup) => seq![
                EffectView::DismissPopup { popup: popup.object },
                EffectView::PopupRectangle { popup: popup.object, rectangle: no_rectangle() },
                EffectView::NewPopup { popup: popup.object, parent },
            ],
            None => Seq::empty(),
        },
        None => Seq::empty(),
    }
}

/// The state after text input ended.
pub open spec fn after_deactivate(im: InputMethodView) -> InputMethodView {
    InputMethodView {
        pending: nothing_pending(),
        instance: match im.instance {
            Some(instance) => Some(Instance { serial: next_serial(instance.serial), ..instance }),
            None => None,
        },
        popup: match (im.instance, im.popup) {
            (Some(_), Some(popup)) => Some(Popup { parent: None, ..popup }),
            _ => im.popup,
        },
        ..im
    }
}

/// What is done when text input ends: the input method is told, and its popup
/// comes down if it was up.
pub open spec fn deactivate_effects(im: InputMethodView) -> Seq<EffectView> {
    match im.instance {
        Some(instance) => seq![
            EffectView::Deactivate { object: instance.object },
            EffectView::Done { object: instance.object },
        ] + match im.popup {
            Some(popup) => if popup.parent is Some {
                seq![EffectView::DismissPopup { popup: popup.object }]
            } else {
                Seq::empty()
            },
            None => Seq::empty(),
        },
        None => Seq::empty(),
    }
}

/// The state after secure input began or ended.
pub open spec fn after_suspend(im: InputMethodView, suspended: bool) -> InputMethodView {
    if im.suspended == suspended {
        im
    } else {
        let ended = if suspended {
            after_deactivate(im)
        } else {
            im
        };
        InputMethodView { suspended, ..ended }
    }
}

/// What is done when secure input begins or ends. `owns_grab` says whether an
/// input method's grab has the keyboard.
pub open spec fn suspend_effects(im: InputMethodView, suspended: bool, owns_grab: bool) -> Seq<
    EffectView,
> {
    if im.suspended == suspended || im.instance is None {
        Seq::empty()
    } else if suspended {
        deactivate_effects(im) + seq![EffectView::LeaveTextInput] + if owns_grab {
            seq![EffectView::UnsetGrab]
        } else {
            Seq::empty()
        }
    } else {
        seq![EffectView::EnterTextInput] + if im.keyboard_grab is Some {
            seq![EffectView::SetGrab]
        } else {
            Seq::empty()
        }
    }
}

/// What is done when the text cursor moves.
pub open spec fn rectangle_effects(im: InputMethodView, rectangle: Rectangle) -> Seq<EffectView> {
    match im.popup {
        Some(popup) => seq![
            EffectView::PopupRectangle { popup: popup.object, rectangle },
        ] + if im.instance is Some {
            seq![EffectView::PopupRepositioned { popup: popup.object }]
        } else {
            Seq::empty()
        },
        None => Seq::empty(),
    }
}

/// A request that edits text.
pub open spec fn edits(request: RequestView) -> bool {
    request is CommitString || request is SetPreeditString || request is DeleteSurroundingText
        || request is Commit
}

/// What a commit hands to the text input: first the deletion, then the text,
/// then the preedit, and then that this is all.
pub open spec fn commit_effects(pending: PendingView) -> Seq<EffectView> {
    (match pending.delete {
        Some((before_length, after_length)) => seq![
            EffectView::DeleteSurroundingText { before_length, after_length },
        ],
        None => Seq::empty(),
    }) + (match pending.commit {
        Some(text) => seq![EffectView::CommitString { text }],
        None => Seq::empty(),
    }) + (match pending.preedit {
        Some((text, cursor_begin, cursor_end)) => seq![
            EffectView::PreeditString { text, cursor_begin, cursor_end },
        ],
        None => Seq::empty(),
    }) + seq![EffectView::TextInputDone]
}

/// The parent of a popup that is created: the focused surface, unless the input
/// method is suspended.
pub open spec fn popup_parent(im: InputMethodView, focus: Option<PopupParent>) -> Option<PopupParent> {
    if im.suspended {
        None
    } else {
        focus
    }
}

/// The state after `object` made a request.
pub open spec fn after_request(im: InputMethodView, object: u64, request: RequestView) -> InputMethodView {
    if !is_current(im, object) || (im.suspended && edits(request)) {
        im
    } else {
        match request {
            RequestView::CommitString { text } => InputMethodView {
                pending: PendingView { commit: Some(text), ..im.pending },
                ..im
            },
            RequestView::SetPreeditString { text, cursor_begin, cursor_end } => InputMethodView {
                pending: PendingView {
                    preedit: Some((text, cursor_begin, cursor_end)),
                    ..im.pending
                },
                ..im
            },
            RequestView::DeleteSurroundingText { before_length, after_length } => InputMethodView {
                pending: PendingView { delete: Some((before_length, after_length)), ..im.pending },
                ..im
            },
            RequestView::Commit { .. } => InputMethodView { pending: nothing_pending(), ..im },
            RequestView::GetInputPopupSurface { .. } => im,
            RequestView::GrabKeyboard { keyboard } => InputMethodView {
                keyboard_grab: Some(keyboard),
                ..im
            },
            RequestView::Destroy => im,
        }
    }
}

/// What is done when `object` makes a request. A program that is not the input
/// method gets its objects, but they do nothing.
pub open spec fn request_effects(im: InputMethodView, object: u64, request: RequestView) -> Seq<
    EffectView,
> {
    match request {
        RequestView::Commit { .. } => if is_current(im, object) && !im.suspended {
            commit_effects(im.pending)
        } else {
            Seq::empty()
        },
        RequestView::GetInputPopupSurface { popup } => if is_current(im, object) {
            seq![EffectView::GiveRole { popup }]
        } else {
            seq![EffectView::InitInertPopup { popup }]
        },
        RequestView::GrabKeyboard { keyboard } => if !is_current(im, object) {
            seq![EffectView::InitInertGrab { keyboard }]
        } else {
            (if im.suspended {
                Seq::empty()
            } else {
                seq![EffectView::SetGrab]
            }) + seq![
                EffectView::InitGrab { keyboard },
                EffectView::DescribeKeyboard { keyboard },
            ]
        },
        _ => Seq::empty(),
    }
}

/// The state after the surface of a popup of `object` was given its role, or
/// could not be. `focus` is the surface with text focus.
pub open spec fn after_role(
    im: InputMethodView,
    object: u64,
    popup: u64,
    given: bool,
    focus: Option<PopupParent>,
) -> InputMethodView {
    if is_current(im, object) && given {
        InputMethodView {
            popup: Some(Popup { object: popup, parent: popup_parent(im, focus) }),
            ..im
        }
    } else {
        im
    }
}

/// What is done when the surface of a popup of `object` was given its role, or
/// could not be.
pub open spec fn role_effects(
    im: InputMethodView,
    object: u64,
    popup: u64,
    given: bool,
    focus: Option<PopupParent>,
) -> Seq<EffectView> {
    if !is_current(im, object) {
        seq![EffectView::InitInertPopup { popup }]
    } else if !given {
        seq![EffectView::RoleError]
    } else {
        seq![EffectView::InitPopup { popup, rectangle: im.rectangle }] + match popup_parent(
            im,
            focus,
        ) {
            Some(parent) => seq![EffectView::NewPopup { popup, parent }],
            None => Seq::empty(),
        }
    }
}

/// The state after `object` was destroyed.
pub open spec fn after_destroy(im: InputMethodView, object: u64) -> InputMethodView {
    if is_current(im, object) {
        InputMethodView { instance: None, ..after_deactivate(im) }
    } else {
        im
    }
}

/// What is done when `object` was destroyed.
pub open spec fn destroy_effects(im: InputMethodView, object: u64) -> Seq<EffectView> {
    if is_current(im, object) {
        deactivate_effects(im).push(EffectView::LeaveTextInput)
    } else {
        Seq::empty()
    }
}

impl Default for InputMethod {
    fn default() -> (res: Self)
        ensures
            res@ == disconnected(),
    {
        InputMethod {
            instance: None,
            popup: None,
            rectangle: empty_rectangle(),
            keyboard_grab: None,
            pending: PendingText::default(),
            suspended: false,
        }
    }
}

fn put(effects: &mut Vec<Effect>, effect: Effect)
    ensures
        effect_views(final(effects)@) == effect_views(old(effects)@).push(effect@),
{
    effects.push(effect);
    assert(effect_views(effects@) == effect_views(old(effects)@).push(effect@));
}

fn no_effects() -> (res: Vec<Effect>)
    ensures
        effect_views(res@) == Seq::<EffectView>::empty(),
{
    let res: Vec<Effect> = Vec::new();
    assert(effect_views(res@) == Seq::<EffectView>::empty());
    res
}

impl InputMethod {
    /// Connects `object` as the input method, unless another one is connected;
    /// then it is told that it is unavailable. Says whether it was connected.
    pub fn add_instance(&mut self, object: u64) -> (res: bool)
        ensures
            final(self)@ == after_add(old(self)@, object),
            res == (old(self)@.instance is None),
    {
        if self.instance.is_some() {
            false
        } else {
            self.instance = Some(Instance { object, serial: 0 });
            true
        }
    }

    /// Whether an input method is connected that is not suspended.
    pub fn has_instance(&self) -> (res: bool)
        ensures
            res == (self@.instance is Some && !self@.suspended),
    {
        self.instance.is_some() && !self.suspended
    }

    /// Whether the input method is suspended for secure input.
    pub fn is_suspended(&self) -> (res: bool)
        ensures
            res == self@.suspended,
    {
        self.suspended
    }

    /// Lets `change` change the connected input method, unless it is suspended.
    pub fn with_instance<F: FnOnce(Instance) -> Instance>(&mut self, change: F)
        requires
            !old(self)@.suspended ==> (old(self)@.instance matches Some(instance) ==> call_requires(
                change,
                (instance,),
            )),
        ensures
            if old(self)@.instance is Some && !old(self)@.suspended {
                exists|changed: Instance| #[trigger]
                    call_ensures(change, (old(self)@.instance->Some_0,), changed) && final(self)@
                        == (InputMethodView { instance: Some(changed), ..old(self)@ })
            } else {
                final(self)@ == old(self)@
            },
    {
        if self.suspended {
            return;
        }
        if let Some(instance) = self.instance {
            let changed = change(instance);
            self.instance = Some(changed);
        }
    }

    /// Whether the input method has grabbed a keyboard.
    pub fn keyboard_grabbed(&self) -> (res: bool)
        ensures
            res == (self@.keyboard_grab is Some),
    {
        self.keyboard_grab.is_some()
    }

    /// Suspends or resumes the input method. `owns_grab` says whether an input
    /// method's grab has the keyboard.
    ///
    /// Existing objects survive, but the grab is inactive and text inputs are
    /// hidden until the input method is resumed.
    pub fn set_suspended(&mut self, suspended: bool, owns_grab: bool) -> (res: Vec<Effect>)
        ensures
            final(self)@ == after_suspend(old(self)@, suspended),
            effect_views(res@) == suspend_effects(old(self)@, suspended, owns_grab),
    {
        if self.suspended == suspended {
            return no_effects();
        }
        let mut effects = if suspended {
            self.deactivate_input_method()
        } else {
            no_effects()
        };
        self.suspended = suspended;
        if self.instance.is_none() {
            return effects;
        }
        if suspended {
            put(&mut effects, Effect::LeaveTextInput);
            if owns_grab {
                put(&mut effects, Effect::UnsetGrab);
            }
        } else {
            put(&mut effects, Effect::EnterTextInput);
            if self.keyboard_grabbed() {
                put(&mut effects, Effect::SetGrab);
            }
        }
        assert(effect_views(effects@) == suspend_effects(old(self)@, suspended, owns_grab));
        effects
    }

    /// Moves the text cursor to `rectangle`.
    pub fn set_text_input_rectangle(&mut self, rectangle: Rectangle) -> (res: Vec<Effect>)
        ensures
            final(self)@ == (InputMethodView { rectangle, ..old(self)@ }),
            effect_views(res@) == rectangle_effects(old(self)@, rectangle),
    {
        self.rectangle = rectangle;
        let mut effects = no_effects();
        if let Some(popup) = self.popup {
            put(&mut effects, Effect::PopupRectangle { popup: popup.object, rectangle });
            if self.instance.is_some() {
                put(&mut effects, Effect::PopupRepositioned { popup: popup.object });
            }
        }
        assert(effect_views(effects@) == rectangle_effects(old(self)@, rectangle));
        effects
    }

    /// Activates the input method on the surface of `parent`.
    pub fn activate_input_method(&mut self, parent: PopupParent) -> (res: Vec<Effect>)
        ensures
            final(self)@ == after_activate(old(self)@, parent),
            effect_views(res@) == activate_effects(old(self)@, parent),
    {
        self.pending = PendingText::default();
        self.rectangle = empty_rectangle();
        let mut effects = no_effects();
        if let Some(instance) = self.instance {
            put(&mut effects, Effect::Activate { object: instance.object });
            if let Some(popup) = self.popup {
                put(&mut effects, Effect::DismissPopup { popup: popup.object });
                put(
                    &mut effects,
                    Effect::PopupRectangle { popup: popup.object, rectangle: empty_rectangle() },
                );
                self.popup = Some(Popup { object: popup.object, parent: Some(parent) });
                put(&mut effects, Effect::NewPopup { popup: popup.object, parent });
            }
        }
        assert(effect_views(effects@) == activate_effects(old(self)@, parent));
        effects
    }

    /// Deactivates the input method. A `done` is always sent with that.
    pub fn deactivate_input_method(&mut self) -> (res: Vec<Effect>)
        ensures
            final(self)@ == after_deactivate(old(self)@),
            effect_views(res@) == deactivate_effects(old(self)@),
    {
        self.pending = PendingText::default();
        let mut effects = no_effects();
        if let Some(instance) = self.instance {
            let mut counted = instance;
            put(&mut effects, Effect::Deactivate { object: instance.object });
            put(&mut effects, Effect::Done { object: instance.object });
            counted.done();
            self.instance = Some(counted);
            if let Some(popup) = self.popup {
                if popup.parent.is_some() {
                    put(&mut effects, Effect::DismissPopup { popup: popup.object });
                }
                self.popup = Some(Popup { object: popup.object, parent: None });
            }
        }
        assert(effect_views(effects@) == deactivate_effects(old(self)@));
        effects
    }

    fn current(&self, object: u64) -> (res: bool)
        ensures
            res == is_current(self@, object),
    {
        match self.instance {
            Some(instance) => instance.object == object,
            None => false,
        }
    }

    fn flush(&mut self) -> (res: Vec<Effect>)
        ensures
            final(self)@ == (InputMethodView { pending: nothing_pending(), ..old(self)@ }),
            effect_views(res@) == commit_effects(old(self)@.pending),
    {
        let mut pending = PendingText::default();
        std::mem::swap(&mut pending, &mut self.pending);
        let ghost taken = pending@;
        let mut effects = no_effects();
        if let Some((before_length, after_length)) = pending.delete {
            put(&mut effects, Effect::DeleteSurroundingText { before_length, after_length });
        }
        if let Some(text) = pending.commit {
            put(&mut effects, Effect::CommitString { text });
        }
        if let Some((text, cursor_begin, cursor_end)) = pending.preedit {
            put(&mut effects, Effect::PreeditString { text, cursor_begin, cursor_end });
        }
        put(&mut effects, Effect::TextInputDone);
        assert(effect_views(effects@) == commit_effects(taken));
        effects
    }

    /// Handles a request of the program behind `object`.
    ///
    /// Even a commit with a stale serial applies the edits normally.
    pub fn request(&mut self, object: u64, message: Request) -> (res: Vec<Effect>)
        ensures
            final(self)@ == after_request(old(self)@, object, message@),
            effect_views(res@) == request_effects(old(self)@, object, message@),
    {
        let ghost asked = message@;
        let mut effects = no_effects();
        if !self.current(object) {
            match message {
                Request::GetInputPopupSurface { popup } => {
                    put(&mut effects, Effect::InitInertPopup { popup });
                },
                Request::GrabKeyboard { keyboard } => {
                    put(&mut effects, Effect::InitInertGrab { keyboard });
                },
                _ => {},
            }
            assert(effect_views(effects@) == request_effects(old(self)@, object, asked));
            return effects;
        }
        match message {
            Request::CommitString { text } => {
                if !self.suspended {
                    self.pending.commit = Some(text);
                }
            },
            Request::SetPreeditString { text, cursor_begin, cursor_end } => {
                if !self.suspended {
                    self.pending.preedit = Some((text, cursor_begin, cursor_end));
                }
            },
            Request::DeleteSurroundingText { before_length, after_length } => {
                if !self.suspended {
                    self.pending.delete = Some((before_length, after_length));
                }
            },
            Request::Commit { serial: _ } => {
                if !self.suspended {
                    effects = self.flush();
                }
            },
            Request::GetInputPopupSurface { popup } => {
                put(&mut effects, Effect::GiveRole { popup });
            },
            Request::GrabKeyboard { keyboard } => {
                if !self.suspended {
                    put(&mut effects, Effect::SetGrab);
                }
                put(&mut effects, Effect::InitGrab { keyboard });
                self.keyboard_grab = Some(keyboard);
                put(&mut effects, Effect::DescribeKeyboard { keyboard });
            },
            Request::Destroy => {},
        }
        assert(effect_views(effects@) == request_effects(old(self)@, object, asked));
        effects
    }

    /// Handles that the surface of a popup of `object` was given its role, or
    /// could not be because it has another one. `focus` is the surface with text
    /// focus.
    pub fn popup_role_given(
        &mut self,
        object: u64,
        popup: u64,
        given: bool,
        focus: Option<PopupParent>,
    ) -> (res: Vec<Effect>)
        ensures
            final(self)@ == after_role(old(self)@, object, popup, given, focus),
            effect_views(res@) == role_effects(old(self)@, object, popup, given, focus),
    {
        let mut effects = no_effects();
        if !self.current(object) {
            put(&mut effects, Effect::InitInertPopup { popup });
        } else if !given {
            put(&mut effects, Effect::RoleError);
        } else {
            let parent = if self.suspended {
                None
            } else {
                focus
            };
            put(&mut effects, Effect::InitPopup { popup, rectangle: self.rectangle });
            self.popup = Some(Popup { object: popup, parent });
            if let Some(parent) = parent {
                put(&mut effects, Effect::NewPopup { popup, parent });
            }
        }
        assert(effect_views(effects@) == role_effects(old(self)@, object, popup, given, focus));
        effects
    }

    /// Handles that `object` was destroyed.
    pub fn destroyed(&mut self, object: u64) -> (res: Vec<Effect>)
        ensures
            final(self)@ == after_destroy(old(self)@, object),
            effect_views(res@) == destroy_effects(old(self)@, object),
    {
        if self.current(object) {
            let mut effects = self.deactivate_input_method();
            self.instance = None;
            put(&mut effects, Effect::LeaveTextInput);
            effects
        } else {
            no_effects()
        }
    }
}

/// An input method that is connected is not replaced by another one, and a
/// request of the other one changes nothing: at most an object is created for it
/// that does nothing.
pub proof fn rejected_input_methods_change_nothing(
    im: InputMethodView,
    object: u64,
    request: RequestView,
    given: bool,
    focus: Option<PopupParent>,
    popup: u64,
    i: int,
)
    requires
        im.instance is Some,
        !is_current(im, object),
    ensures
        after_add(im, object) == im,
        after_request(im, object, request) == im,
        after_destroy(im, object) == im,
        destroy_effects(im, object).len() == 0,
        0 <= i < request_effects(im, object, request).len() ==> request_effects(
            im,
            object,
            request,
        )[i] is InitInertPopup || request_effects(im, object, request)[i] is InitInertGrab,
        after_role(im, object, popup, given, focus) == im,
        role_effects(im, object, popup, given, focus) == seq![EffectView::InitInertPopup { popup }],
{
}

/// Edits are collected: no edit escapes before the commit.
pub proof fn edits_wait_for_the_commit(im: InputMethodView, object: u64, request: RequestView)
    requires
        edits(request),
        request !is Commit,
    ensures
        request_effects(im, object, request).len() == 0,
{
}

/// Of several edits of the same kind before a commit, the last one counts.
pub proof fn the_last_edit_wins(
    im: InputMethodView,
    object: u64,
    earlier: RequestView,
    later: RequestView,
)
    requires
        edits(earlier),
        earlier is CommitString <==> later is CommitString,
        earlier is SetPreeditString <==> later is SetPreeditString,
        earlier is DeleteSurroundingText <==> later is DeleteSurroundingText,
        earlier is Commit <==> later is Commit,
    ensures
        after_request(after_request(im, object, earlier), object, later) == after_request(
            im,
            object,
            later,
        ),
{
}

/// A commit with any serial hands over what is pending and empties it, so that a
/// second commit only says that it is done.
pub proof fn commits_hand_over_once(im: InputMethodView, object: u64, serial: u32, again: u32)
    requires
        is_current(im, object),
        !im.suspended,
    ensures
        ({
            let after = after_request(im, object, RequestView::Commit { serial });
            &&& after.pending == nothing_pending()
            &&& request_effects(im, object, RequestView::Commit { serial }) == commit_effects(
                im.pending,
            )
            &&& request_effects(after, object, RequestView::Commit { serial: again }) == seq![
                EffectView::TextInputDone,
            ]
        }),
{
    assert(commit_effects(nothing_pending()) == seq![EffectView::TextInputDone]);
}

/// When text input begins or ends, edits that were not committed are discarded.
pub proof fn focus_changes_discard_edits(im: InputMethodView, parent: PopupParent)
    ensures
        after_activate(im, parent).pending == nothing_pending(),
        after_deactivate(im).pending == nothing_pending(),
{
}

/// When text input begins, the cursor rectangle of the previous text is
/// forgotten, and a popup is told so before it is put up again.
pub proof fn reactivation_clears_the_rectangle(im: InputMethodView, parent: PopupParent)
    ensures
        after_activate(im, parent).rectangle == no_rectangle(),
        im.instance is Some && im.popup is Some ==> activate_effects(im, parent).len() == 4
            && activate_effects(im, parent)[2] == (EffectView::PopupRectangle {
            popup: im.popup->Some_0.object,
            rectangle: no_rectangle(),
        }),
{
}

/// A suspended input method edits nothing, puts up no popup and takes no
/// keyboard.
pub proof fn suspended_input_methods_act_on_nothing(
    im: InputMethodView,
    object: u64,
    request: RequestView,
    popup: u64,
    given: bool,
    focus: Option<PopupParent>,
    i: int,
)
    requires
        im.suspended,
    ensures
        edits(request) ==> after_request(im, object, request) == im && request_effects(
            im,
            object,
            request,
        ).len() == 0,
        0 <= i < request_effects(im, object, request).len() ==> {
            let effect = request_effects(im, object, request)[i];
            effect !is NewPopup && effect !is SetGrab && effect !is CommitString
                && effect !is PreeditString && effect !is DeleteSurroundingText
                && effect !is TextInputDone
        },
        0 <= i < role_effects(im, object, popup, given, focus).len() ==> role_effects(
            im,
            object,
            popup,
            given,
            focus,
        )[i] !is NewPopup,
        is_current(im, object) && given ==> after_role(im, object, popup, given, focus).popup
            == Some(Popup { object: popup, parent: None }),
{
}

/// An input method survives a lock: its object and its grab are the same when it
/// is resumed, and the grab gets the keyboard back.
pub proof fn input_methods_survive_suspension(im: InputMethodView, owns_grab: bool)
    requires
        im.instance is Some,
        !im.suspended,
    ensures
        ({
            let locked = after_suspend(im, true);
            let resumed = after_suspend(locked, false);
            &&& !resumed.suspended
            &&& is_current(resumed, im.instance->Some_0.object)
            &&& resumed.keyboard_grab == im.keyboard_grab
            &&& resumed.pending == nothing_pending()
            &&& suspend_effects(locked, false, owns_grab)[0] is EnterTextInput
            &&& im.keyboard_grab is Some ==> suspend_effects(locked, false, owns_grab)[1]
                is SetGrab
        }),
{
}

/// Suspending twice, or resuming twice, does no more than once.
pub proof fn suspending_again_does_nothing(im: InputMethodView, suspended: bool, owns_grab: bool)
    ensures
        after_suspend(after_suspend(im, suspended), suspended) == after_suspend(im, suspended),
        suspend_effects(after_suspend(im, suspended), suspended, owns_grab).len() == 0,
{
}

/// When the input method is destroyed, another one can connect.
pub proof fn input_methods_can_reconnect(im: InputMethodView, object: u64, next: u64)
    requires
        is_current(im, object),
    ensures
        after_destroy(im, object).instance is None,
        is_current(after_add(after_destroy(im, object), next), next),
{
}

/// A commit hands over each pending edit, whatever the other edits are, and
/// nothing that is not pending: first the deletion, then the text, then the
/// preedit, and at last, once, that this is all.
pub proof fn commits_hand_over_every_edit(
    pending: PendingView,
    text: Seq<char>,
    from: i32,
    to: i32,
    before: u32,
    after: u32,
)
    ensures
        ({
            let effects = commit_effects(pending);
            &&& effects.contains(
                EffectView::DeleteSurroundingText { before_length: before, after_length: after },
            ) <==> pending.delete == Some((before, after))
            &&& effects.contains(EffectView::CommitString { text }) <==> pending.commit == Some(
                text,
            )
            &&& effects.contains(
                EffectView::PreeditString { text, cursor_begin: from, cursor_end: to },
            ) <==> pending.preedit == Some((text, from, to))
            &&& effects.len() > 0 && effects.last() is TextInputDone
            &&& forall|i: int|
                0 <= i < effects.len() - 1 ==> (#[trigger] effects[i]) is DeleteSurroundingText
                    || effects[i] is CommitString || effects[i] is PreeditString
            &&& forall|i: int, j: int|
                0 <= i < j < effects.len() ==> {
                    &&& (#[trigger] effects[j]) !is DeleteSurroundingText
                    &&& effects[j] is CommitString ==> (#[trigger] effects[i])
                        is DeleteSurroundingText
                    &&& effects[j] is PreeditString ==> effects[i] is DeleteSurroundingText
                        || effects[i] is CommitString
                }
        }),
{
    let effects = commit_effects(pending);
    let deletions: int = if pending.delete is Some {
        1
    } else {
        0
    };
    let texts: int = if pending.commit is Some {
        1
    } else {
        0
    };
    if pending.delete is Some {
        assert(effects[0] == (EffectView::DeleteSurroundingText {
            before_length: pending.delete->Some_0.0,
            after_length: pending.delete->Some_0.1,
        }));
    }
    if pending.commit is Some {
        assert(effects[deletions] == (EffectView::CommitString { text: pending.commit->Some_0 }));
    }
    if pending.preedit is Some {
        assert(effects[deletions + texts] == (EffectView::PreeditString {
            text: pending.preedit->Some_0.0,
            cursor_begin: pending.preedit->Some_0.1,
            cursor_end: pending.preedit->Some_0.2,
        }));
    }
}

/// What an input method asks for is what a commit hands over: of the edits since
/// the last commit, each kind's last one, and no other, in any order of asking.
pub proof fn edits_reach_the_text_input(
    im: InputMethodView,
    object: u64,
    text: Seq<char>,
    composed: Seq<char>,
    from: i32,
    to: i32,
    before: u32,
    after: u32,
    serial: u32,
)
    requires
        im.instance is Some,
        im.instance->Some_0.object == object,
        !im.suspended,
    ensures
        ({
            let asked = after_request(im, object, RequestView::CommitString { text });
            &&& asked.pending.commit == Some(text)
            &&& asked.pending.preedit == im.pending.preedit
            &&& asked.pending.delete == im.pending.delete
            &&& request_effects(asked, object, RequestView::Commit { serial }).contains(
                EffectView::CommitString { text },
            )
        }),
        ({
            let asked = after_request(
                im,
                object,
                RequestView::SetPreeditString { text: composed, cursor_begin: from, cursor_end: to },
            );
            &&& asked.pending.preedit == Some((composed, from, to))
            &&& asked.pending.commit == im.pending.commit
            &&& asked.pending.delete == im.pending.delete
            &&& request_effects(asked, object, RequestView::Commit { serial }).contains(
                EffectView::PreeditString { text: composed, cursor_begin: from, cursor_end: to },
            )
        }),
        ({
            let asked = after_request(
                im,
                object,
                RequestView::DeleteSurroundingText { before_length: before, after_length: after },
            );
            &&& asked.pending.delete == Some((before, after))
            &&& asked.pending.commit == im.pending.commit
            &&& asked.pending.preedit == im.pending.preedit
            &&& request_effects(asked, object, RequestView::Commit { serial }).contains(
                EffectView::DeleteSurroundingText { before_length: before, after_length: after },
            )
        }),
        ({
            let done = after_request(im, object, RequestView::Commit { serial });
            &&& done.pending.commit is None
            &&& done.pending.preedit is None
            &&& done.pending.delete is None
        }),
{
    let texted = after_request(im, object, RequestView::CommitString { text });
    commits_hand_over_every_edit(texted.pending, text, from, to, before, after);
    let shown = after_request(
        im,
        object,
        RequestView::SetPreeditString { text: composed, cursor_begin: from, cursor_end: to },
    );
    commits_hand_over_every_edit(shown.pending, composed, from, to, before, after);
    let deleted = after_request(
        im,
        object,
        RequestView::DeleteSurroundingText { before_length: before, after_length: after },
    );
    commits_hand_over_every_edit(deleted.pending, text, from, to, before, after);
}

/// A request changes nothing but what it is about: edits change what is pending,
/// a grab changes the grab, and neither asking for a popup nor leaving changes
/// anything yet.
pub proof fn requests_change_only_what_they_are_about(
    im: InputMethodView,
    object: u64,
    request: RequestView,
    keyboard: u64,
)
    ensures
        ({
            let after = after_request(im, object, request);
            &&& after.instance == im.instance
            &&& after.popup == im.popup
            &&& after.rectangle == im.rectangle
            &&& after.suspended == im.suspended
            &&& request !is GrabKeyboard ==> after.keyboard_grab == im.keyboard_grab
            &&& request is GrabKeyboard || request is GetInputPopupSurface || request is Destroy
                ==> after.pending == im.pending
        }),
        im.instance is Some && im.instance->Some_0.object == object ==> after_request(
            im,
            object,
            RequestView::GrabKeyboard { keyboard },
        ).keyboard_grab == Some(keyboard),
        request_effects(im, object, RequestView::Destroy).len() == 0,
{
}

/// A program that is not the input method gets each object it asks for, and
/// nothing else is done for it.
pub proof fn rejected_programs_get_inert_objects(
    im: InputMethodView,
    object: u64,
    popup: u64,
    keyboard: u64,
    serial: u32,
)
    requires
        im.instance matches Some(instance) ==> instance.object != object,
    ensures
        request_effects(im, object, RequestView::GetInputPopupSurface { popup }) == seq![
            EffectView::InitInertPopup { popup },
        ],
        request_effects(im, object, RequestView::GrabKeyboard { keyboard }) == seq![
            EffectView::InitInertGrab { keyboard },
        ],
        request_effects(im, object, RequestView::Commit { serial }).len() == 0,
        after_request(im, object, RequestView::Commit { serial }) == im,
        after_request(im, object, RequestView::GrabKeyboard { keyboard }) == im,
{
}

/// A keyboard grab is created and described for the current input method, and
/// gets the keyboard first, unless the input method is suspended.
pub proof fn grabs_get_the_keyboard_and_its_description(
    im: InputMethodView,
    object: u64,
    keyboard: u64,
)
    requires
        im.instance is Some,
        im.instance->Some_0.object == object,
    ensures
        ({
            let effects = request_effects(im, object, RequestView::GrabKeyboard { keyboard });
            let n = effects.len() as int;
            &&& effects.contains(EffectView::SetGrab) <==> !im.suspended
            &&& n == (if im.suspended {
                2int
            } else {
                3
            })
            &&& effects[n - 2] == (EffectView::InitGrab { keyboard })
            &&& effects[n - 1] == (EffectView::DescribeKeyboard { keyboard })
        }),
{
    let effects = request_effects(im, object, RequestView::GrabKeyboard { keyboard });
    if !im.suspended {
        assert(effects[0] is SetGrab);
    }
}

/// The current input method's popup gets its role before it is created, and a
/// popup whose surface has another role is not created.
pub proof fn popups_need_their_role(
    im: InputMethodView,
    object: u64,
    popup: u64,
    given: bool,
    focus: Option<PopupParent>,
    parent: PopupParent,
)
    requires
        im.instance is Some,
        im.instance->Some_0.object == object,
    ensures
        request_effects(im, object, RequestView::GetInputPopupSurface { popup }) == seq![
            EffectView::GiveRole { popup },
        ],
        ({
            let effects = role_effects(im, object, popup, given, focus);
            let after = after_role(im, object, popup, given, focus);
            &&& effects.contains(EffectView::RoleError) <==> !given
            &&& effects.contains(
                EffectView::InitPopup { popup, rectangle: im.rectangle },
            ) <==> given
            &&& effects.contains(EffectView::NewPopup { popup, parent }) <==> given && !im.suspended
                && focus == Some(parent)
            &&& given ==> effects[0] is InitPopup
            &&& effects.len() == (if given && !im.suspended && focus is Some {
                2int
            } else {
                1
            })
            &&& !given ==> after == im
            &&& given ==> after.popup is Some && after.popup->Some_0.object == popup
            &&& given && !im.suspended ==> after.popup->Some_0.parent == focus
            &&& given && im.suspended ==> after.popup->Some_0.parent is None
            &&& after.instance == im.instance && after.pending == im.pending && after.rectangle
                == im.rectangle && after.keyboard_grab == im.keyboard_grab && after.suspended
                == im.suspended
        }),
{
    let effects = role_effects(im, object, popup, given, focus);
    if !given {
        assert(effects[0] is RoleError);
    } else {
        assert(effects[0] == (EffectView::InitPopup { popup, rectangle: im.rectangle }));
        if !im.suspended && focus == Some(parent) {
            assert(effects[1] == (EffectView::NewPopup { popup, parent }));
        }
    }
}

/// When text input begins, the connected input method is told first; then its
/// popup is taken down, told that the cursor is nowhere yet, and put up on the
/// new surface. Its object, its grab and its serial stay.
pub proof fn activation_moves_the_popup(im: InputMethodView, parent: PopupParent)
    ensures
        ({
            let effects = activate_effects(im, parent);
            let after = after_activate(im, parent);
            &&& effects.len() == (if im.instance is None {
                0int
            } else if im.popup is None {
                1
            } else {
                4
            })
            &&& im.instance is Some ==> effects[0] == (EffectView::Activate {
                object: im.instance->Some_0.object,
            })
            &&& im.instance is Some && im.popup is Some ==> {
                let popup = im.popup->Some_0.object;
                &&& effects[1] == (EffectView::DismissPopup { popup })
                &&& effects[2] is PopupRectangle
                &&& effects[3] == (EffectView::NewPopup { popup, parent })
                &&& after.popup->Some_0.object == popup
                &&& after.popup->Some_0.parent == Some(parent)
            }
            &&& im.instance is None || im.popup is None ==> after.popup == im.popup
            &&& after.popup is Some <==> im.popup is Some
            &&& after.instance == im.instance
            &&& after.keyboard_grab == im.keyboard_grab
            &&& after.suspended == im.suspended
            &&& after.pending.commit is None && after.pending.preedit is None
                && after.pending.delete is None
            &&& after.rectangle.x == 0 && after.rectangle.y == 0 && after.rectangle.w == 0
                && after.rectangle.h == 0
        }),
{
}

/// When text input ends, the connected input method is told and gets a `done`
/// that is counted, and its popup comes down exactly when it was up; afterwards
/// it is not up. Its object and its grab stay.
pub proof fn deactivation_takes_the_popup_down(im: InputMethodView)
    ensures
        ({
            let effects = deactivate_effects(im);
            let after = after_deactivate(im);
            let up = im.popup is Some && im.popup->Some_0.parent is Some;
            &&& effects.len() == (if im.instance is None {
                0int
            } else if up {
                3
            } else {
                2
            })
            &&& im.instance is Some ==> {
                let object = im.instance->Some_0.object;
                &&& effects[0] == (EffectView::Deactivate { object })
                &&& effects[1] == (EffectView::Done { object })
                &&& up ==> effects[2] == (EffectView::DismissPopup {
                    popup: im.popup->Some_0.object,
                })
                &&& after.instance is Some
                &&& after.instance->Some_0.object == object
                &&& after.instance->Some_0.serial as int == (im.instance->Some_0.serial as int + 1)
                    % 0x1_0000_0000
                &&& im.popup is Some ==> after.popup->Some_0.object == im.popup->Some_0.object
                    && after.popup->Some_0.parent is None
            }
            &&& im.instance is None ==> after.instance is None && after.popup == im.popup
            &&& after.popup is Some <==> im.popup is Some
            &&& after.rectangle == im.rectangle
            &&& after.keyboard_grab == im.keyboard_grab
            &&& after.suspended == im.suspended
            &&& after.pending.commit is None && after.pending.preedit is None
                && after.pending.delete is None
        }),
{
}

/// Secure input first ends text input, then hides the text inputs, and takes the
/// keyboard back exactly when an input method has it. When it ends, the text
/// inputs come back first, and the keyboard exactly when it was grabbed.
pub proof fn suspension_takes_and_gives_back(im: InputMethodView, owns_grab: bool)
    requires
        im.instance is Some,
    ensures
        !im.suspended ==> {
            let effects = suspend_effects(im, true, owns_grab);
            let ended = deactivate_effects(im);
            let n = ended.len() as int;
            &&& effects.len() == n + (if owns_grab {
                2int
            } else {
                1
            })
            &&& effects.take(n) == ended
            &&& effects[n] is LeaveTextInput
            &&& owns_grab ==> effects[n + 1] is UnsetGrab
            &&& after_suspend(im, true).suspended
            &&& after_suspend(im, true).instance == after_deactivate(im).instance
            &&& after_suspend(im, true).popup == after_deactivate(im).popup
            &&& after_suspend(im, true).pending == after_deactivate(im).pending
            &&& after_suspend(im, true).keyboard_grab == im.keyboard_grab
            &&& after_suspend(im, true).rectangle == im.rectangle
        },
        im.suspended ==> {
            let effects = suspend_effects(im, false, owns_grab);
            &&& effects.len() == (if im.keyboard_grab is Some {
                2int
            } else {
                1
            })
            &&& effects[0] is EnterTextInput
            &&& im.keyboard_grab is Some ==> effects[1] is SetGrab
            &&& !after_suspend(im, false).suspended
            &&& after_suspend(im, false).instance == im.instance
            &&& after_suspend(im, false).popup == im.popup
            &&& after_suspend(im, false).pending == im.pending
            &&& after_suspend(im, false).keyboard_grab == im.keyboard_grab
            &&& after_suspend(im, false).rectangle == im.rectangle
        },
{
    if !im.suspended {
        let ended = deactivate_effects(im);
        assert(suspend_effects(im, true, owns_grab).take(ended.len() as int) == ended);
    }
}

/// Without a connected input method secure input has nothing to do but to be
/// remembered.
pub proof fn suspension_is_remembered(im: InputMethodView, suspended: bool, owns_grab: bool)
    ensures
        after_suspend(im, suspended).suspended == suspended,
        im.instance is None ==> suspend_effects(im, suspended, owns_grab).len() == 0,
        im.instance is None ==> after_suspend(im, suspended).instance is None,
{
}

/// A popup is told where the text cursor is whenever it moves, and is placed
/// again exactly when an input method is connected.
pub proof fn popups_follow_the_cursor(im: InputMethodView, rectangle: Rectangle)
    ensures
        ({
            let effects = rectangle_effects(im, rectangle);
            &&& im.popup is None ==> effects.len() == 0
            &&& im.popup is Some ==> {
                let popup = im.popup->Some_0.object;
                &&& effects[0] == (EffectView::PopupRectangle { popup, rectangle })
                &&& effects.len() == (if im.instance is Some {
                    2int
                } else {
                    1
                })
                &&& im.instance is Some ==> effects[1] == (EffectView::PopupRepositioned { popup })
            }
        }),
{
}

/// When the input method goes, it is deactivated and then hidden from the text
/// inputs; its grab and the lock stay, and its popup is not up.
pub proof fn departure_deactivates_and_hides(im: InputMethodView, object: u64)
    requires
        im.instance is Some,
        im.instance->Some_0.object == object,
    ensures
        ({
            let effects = destroy_effects(im, object);
            let after = after_destroy(im, object);
            &&& effects.len() == deactivate_effects(im).len() + 1
            &&& effects.drop_last() == deactivate_effects(im)
            &&& effects.last() is LeaveTextInput
            &&& after.instance is None
            &&& after.popup == after_deactivate(im).popup
            &&& after.pending == after_deactivate(im).pending
            &&& after.keyboard_grab == im.keyboard_grab
            &&& after.suspended == im.suspended
            &&& after.rectangle == im.rectangle
        }),
{
    assert(destroy_effects(im, object).drop_last() == deactivate_effects(im));
}

/// A program that connects begins with serial zero, and nothing else changes.
pub proof fn connecting_begins_at_zero(im: InputMethodView, object: u64)
    requires
        im.instance is None,
    ensures
        after_add(im, object).instance is Some,
        after_add(im, object).instance->Some_0.object == object,
        after_add(im, object).instance->Some_0.serial == 0,
        after_add(im, object).popup == im.popup,
        after_add(im, object).pending == im.pending,
        after_add(im, object).rectangle == im.rectangle,
        after_add(im, object).keyboard_grab == im.keyboard_grab,
        after_add(im, object).suspended == im.suspended,
{
}

/// A seat begins without an input method, without a lock and with nothing
/// pending.
pub proof fn seats_begin_disconnected()
    ensures
        disconnected().instance is None,
        disconnected().popup is None,
        disconnected().keyboard_grab is None,
        !disconnected().suspended,
        disconnected().pending.commit is None,
        disconnected().pending.preedit is None,
        disconnected().pending.delete is None,
        disconnected().rectangle == (Rectangle { x: 0, y: 0, w: 0, h: 0 }),
{
}

} // verus!
