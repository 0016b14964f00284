//! The auxiliary control connection to the X server managed by the XWM.
//!
//! The XWM remains the sole owner of `WM_S0`, substructure redirection and the
//! X11 event stream. This connection fills in protocol state and focus
//! behaviour. [`X11Control`] holds what the connection remembers and decides
//! which requests are made; the requests themselves are made by its caller.

use std::collections::HashMap;

use vstd::prelude::*;

use crate::text::to_decimal;
use crate::xwayland::ewmh::{
    change32, check, publish_ewmh, queue, supporting_wm_window, Atoms, PropertyType, XCall,
    XRequest, NONE,
};
use crate::xwayland::keyboard::{
    first_key_repeat_step, next_key_repeat_step, KeyRepeatReply, KeyRepeatStep,
};
use crate::xwayland::pointer::root_pointer_coordinates;

verus! {

broadcast use vstd::std_specs::hash::group_hash_axioms;

/// The kind of an X protocol error.
#[derive(Clone, Copy, Debug, PartialEq, Eq, Structural)]
pub enum ErrorKind {
    /// The request named a window that does not exist.
    Window,
    /// Anything else.
    Other,
}

/// Why a checked request failed.
#[derive(Clone, Copy, Debug, PartialEq, Eq, Structural)]
pub enum ReplyError {
    /// The connection failed.
    Connection,
    /// The server reported an error.
    X11(ErrorKind),
}

/// The request failed because its window is already gone.
pub open spec fn destroyed_window(error: ReplyError) -> bool {
    error == ReplyError::X11(ErrorKind::Window)
}

/// The outcome of a request for which a window that is already gone is no error.
pub open spec fn tolerated(result: Result<(), ReplyError>) -> Result<(), ReplyError> {
    match result {
        Err(error) => if destroyed_window(error) {
            Ok(())
        } else {
            Err(error)
        },
        Ok(()) => Ok(()),
    }
}

fn is_destroyed_window(error: ReplyError) -> (res: bool)
    ensures
        res == destroyed_window(error),
{
    error == ReplyError::X11(ErrorKind::Window)
}

/// A request on a window that is already gone counts as carried out.
fn tolerate_destroyed(result: Result<(), ReplyError>) -> (res: Result<(), ReplyError>)
    ensures
        res == tolerated(result),
{
    match result {
        Err(error) => if is_destroyed_window(error) {
            Ok(())
        } else {
            Err(error)
        },
        Ok(()) => Ok(()),
    }
}

/// The ICCCM state of a managed window.
#[derive(Clone, Copy, Debug, PartialEq, Eq, Structural)]
pub enum IcccmState {
    Normal,
    Iconic,
}

impl IcccmState {
    /// The number ICCCM gives the state.
    pub open spec fn spec_value(self) -> u32 {
        match self {
            IcccmState::Normal => 1,
            IcccmState::Iconic => 3,
        }
    }

    /// The number ICCCM gives the state.
    #[verifier::when_used_as_spec(spec_value)]
    pub fn value(self) -> (res: u32)
        ensures
            res == self.spec_value(),
    {
        match self {
            IcccmState::Normal => 1,
            IcccmState::Iconic => 3,
        }
    }
}

/// What a user may do with a window.
#[derive(Clone, Copy, Debug)]
pub struct AllowedActions {
    pub move_: bool,
    pub resize: bool,
    pub minimize: bool,
    pub maximize: bool,
    pub fullscreen: bool,
}

impl Default for AllowedActions {
    /// Everything is allowed.
    fn default() -> (res: Self)
        ensures
            res.move_,
            res.resize,
            res.minimize,
            res.maximize,
            res.fullscreen,
    {
        AllowedActions { move_: true, resize: true, minimize: true, maximize: true, fullscreen: true }
    }
}

/// `atom` alone, or nothing.
pub open spec fn when(allowed: bool, atom: u32) -> Seq<u32> {
    if allowed {
        seq![atom]
    } else {
        Seq::empty()
    }
}

/// The atoms that stand for `actions`, in the order they are published.
pub open spec fn action_atoms(atoms: Atoms, actions: AllowedActions) -> Seq<u32> {
    when(actions.move_, atoms._NET_WM_ACTION_MOVE) + when(
        actions.resize,
        atoms._NET_WM_ACTION_RESIZE,
    ) + when(actions.minimize, atoms._NET_WM_ACTION_MINIMIZE) + when(
        actions.maximize,
        atoms._NET_WM_ACTION_MAXIMIZE_HORZ,
    ) + when(actions.maximize, atoms._NET_WM_ACTION_MAXIMIZE_VERT) + when(
        actions.fullscreen,
        atoms._NET_WM_ACTION_FULLSCREEN,
    )
}

/// The last values written to the root window, kept so repeated publishes on an
/// unchanged layout are free.
#[derive(Clone, Copy, Debug)]
pub struct PublishedDesktopGeometry {
    pub desktop: (u32, u32),
    pub work_area: Option<(i32, i32, u32, u32)>,
}

/// A signed number as a 32-bit property value, in two's complement.
pub open spec fn cardinal_value(n: i32) -> int {
    if n < 0 {
        n + 0x1_0000_0000
    } else {
        n as int
    }
}

fn cardinal(n: i32) -> (res: u32)
    ensures
        res == cardinal_value(n),
{
    assert((n as u32) == (if n < 0 {
        n + 0x1_0000_0000
    } else {
        n as int
    })) by (bit_vector);
    n as u32
}

/// What the connection remembers.
#[verifier::ext_equal]
pub struct ControlView {
    pub atoms: Atoms,
    pub root: u32,
    pub focus_sink: u32,
    pub active_window: Option<u32>,
    pub root_pointer_available: bool,
    pub root_pointer_drag: Option<u32>,
    pub desktop_geometry: Option<PublishedDesktopGeometry>,
    pub frame_extents: Map<u32, (i32, i32, i32, i32)>,
}

/// A connection that has published nothing but its EWMH support yet.
pub open spec fn fresh_control(
    atoms: Atoms,
    root: u32,
    focus_sink: u32,
    root_pointer_available: bool,
) -> ControlView {
    ControlView {
        atoms,
        root,
        focus_sink,
        active_window: None,
        root_pointer_available,
        root_pointer_drag: None,
        desktop_geometry: None,
        frame_extents: Map::empty(),
    }
}

/// An auxiliary control connection to the X server.
pub struct X11Control {
    atoms: Atoms,
    root: u32,
    focus_sink: u32,
    active_window: Option<u32>,
    root_pointer_available: bool,
    root_pointer_drag: Option<u32>,
    desktop_geometry: Option<PublishedDesktopGeometry>,
    frame_extents: HashMap<u32, (i32, i32, i32, i32)>,
}

impl View for X11Control {
    type V = ControlView;

    closed spec fn view(&self) -> ControlView {
        ControlView {
            atoms: self.atoms,
            root: self.root,
            focus_sink: self.focus_sink,
            active_window: self.active_window,
            root_pointer_available: self.root_pointer_available,
            root_pointer_drag: self.root_pointer_drag,
            desktop_geometry: self.desktop_geometry,
            frame_extents: self.frame_extents@,
        }
    }
}

/// The screen a connection controls.
#[derive(Clone, Copy, Debug)]
pub struct Screen {
    pub root: u32,
    pub root_depth: u8,
    /// Whether emulated input is redirected back to a compositor.
    pub emulated_input: bool,
}

/// How far connecting has come, and what is asked of the X server next.
pub enum Connecting {
    /// Ask which window owns the window manager selection.
    Owner,
    /// Ask for the `_NET_SUPPORTING_WM_CHECK` property of the root window.
    Support,
    /// Create the focus sink under a fresh identifier.
    Sink { support_window: u32 },
    /// Ask for the geometry of the root window.
    Geometry { support_window: u32, focus_sink: u32 },
    /// Make these calls, then flush.
    Publish { focus_sink: u32, calls: Vec<XCall> },
    /// Ask for XTEST 2.2.
    Pointer { focus_sink: u32 },
    /// The connection is ready.
    Ready(X11Control),
    /// The connection cannot be used.
    Failed(String),
}

/// What the X server answered while connecting.
pub enum ConnectReply {
    Owner(u32),
    Property { format: u8, value: Vec<u8> },
    Created { window: u32 },
    Geometry { width: u16, height: u16 },
    Published,
    Xtest { available: bool },
}

/// The message when no window manager runs.
pub open spec fn no_window_manager() -> Seq<char> {
    "Smithay XWM does not own WM_S0"@
}

/// Connecting goes from `from` to `to` when the server answers `reply`. An
/// answer to anything but the question asked leads nowhere.
pub open spec fn connecting_follows(
    screen: Screen,
    atoms: Atoms,
    from: Connecting,
    reply: ConnectReply,
    to: Connecting,
) -> bool {
    match (from, reply) {
        (Connecting::Owner, ConnectReply::Owner(owner)) => if owner == NONE {
            to matches Connecting::Failed(message) && message@ == no_window_manager()
        } else {
            to is Support
        },
        (Connecting::Support, ConnectReply::Property { format, value }) =>
        if crate::xwayland::ewmh::names_support_window(format, value@) {
            to matches Connecting::Sink { support_window } && support_window
                == crate::xwayland::ewmh::native_u32(value@)
        } else {
            to matches Connecting::Failed(message) && message@
                == crate::xwayland::ewmh::no_support_window()
        },
        (Connecting::Sink { support_window }, ConnectReply::Created { window }) => to == (
        Connecting::Geometry { support_window, focus_sink: window }),
        (
            Connecting::Geometry { support_window, focus_sink },
            ConnectReply::Geometry { width, height },
        ) => to matches Connecting::Publish { focus_sink: sink, calls } && sink == focus_sink
            && crate::xwayland::ewmh::call_views(calls@) == crate::xwayland::ewmh::ewmh_calls(
            screen.root,
            support_window,
            width,
            height,
            atoms,
        ),
        (Connecting::Publish { focus_sink, .. }, ConnectReply::Published) =>
        if screen.emulated_input {
            to matches Connecting::Ready(control) && control@ == fresh_control(
                atoms,
                screen.root,
                focus_sink,
                false,
            )
        } else {
            to == (Connecting::Pointer { focus_sink })
        },
        (Connecting::Pointer { focus_sink }, ConnectReply::Xtest { available }) => to matches
            Connecting::Ready(control) && control@ == fresh_control(
            atoms,
            screen.root,
            focus_sink,
            available,
        ),
        _ => to == from,
    }
}

/// The X display called by `number`.
pub fn display_name(number: u32) -> (res: String)
    ensures
        res@ == seq![':'] + crate::text::decimal(number as nat),
{
    proof {
        reveal_strlit(":");
    }
    let mut res = ":".to_owned();
    let digits = to_decimal(number as u64);
    res.append(digits.as_str());
    assert(":"@ == seq![':']);
    res
}

/// What is done about a pointer motion over an X11 popup.
#[derive(Clone, Copy, Debug, PartialEq, Eq, Structural)]
pub enum PopupMotion {
    /// The motion stays with Wayland.
    Refused,
    /// Ask the server which buttons it saw pressed, then decide.
    QueryPointer { x: i16, y: i16 },
    /// Inject the motion at these root coordinates.
    Deliver { x: i16, y: i16 },
}

/// Both root coordinates round to what the protocol can carry.
pub open spec fn deliverable(position: (u64, u64)) -> bool {
    &&& crate::xwayland::pointer::is_finite(position.0)
    &&& crate::xwayland::pointer::is_finite(position.1)
    &&& crate::xwayland::pointer::fits_coordinate(crate::xwayland::pointer::rounded(position.0))
    &&& crate::xwayland::pointer::fits_coordinate(crate::xwayland::pointer::rounded(position.1))
}

/// What is done about a motion over the popup `window`: injection needs XTEST
/// and coordinates that fit, and the first motion of a drag asks the server
/// first.
pub open spec fn popup_motion(control: ControlView, window: u32, position: (u64, u64)) -> PopupMotion {
    let x = crate::xwayland::pointer::rounded(position.0) as i16;
    let y = crate::xwayland::pointer::rounded(position.1) as i16;
    if !deliverable(position) || !control.root_pointer_available {
        PopupMotion::Refused
    } else if control.root_pointer_drag == Some(window) {
        PopupMotion::Deliver { x, y }
    } else {
        PopupMotion::QueryPointer { x, y }
    }
}

/// The connection after a motion over `window` was sent or failed.
pub open spec fn motion_sent(control: ControlView, window: u32, sent: bool) -> ControlView {
    if sent {
        ControlView { root_pointer_drag: Some(window), ..control }
    } else {
        control
    }
}

/// The connection after a popup drag ended.
pub open spec fn drag_finished(control: ControlView) -> ControlView {
    ControlView { root_pointer_drag: None, ..control }
}

/// The first button is among the pressed ones of `mask`.
pub open spec fn holds_first_button(mask: u16) -> bool {
    mask & 0x100 == 0x100
}

/// Whether a pointer state holds the first button, by
/// `x11rb::protocol::xproto::KeyButMask::contains` with `BUTTON1`: bit eight of
/// the mask is set.
#[verifier::external_body]
fn button1_held(mask: u16) -> (res: bool)
    ensures
        res == holds_first_button(mask),
{
    x11rb::protocol::xproto::KeyButMask::from(mask)
        .contains(x11rb::protocol::xproto::KeyButMask::BUTTON1)
}

/// The window that gets core focus while no X11 window is active.
pub fn focus_sink_for_active_window(active_window: Option<u32>, focus_sink: u32) -> (res: Option<
    u32,
>)
    ensures
        res == (if active_window is None {
            Some(focus_sink)
        } else {
            None
        }),
{
    if active_window.is_none() {
        Some(focus_sink)
    } else {
        None
    }
}

/// The window published as active: the active X11 window, or the focus sink
/// while a native Wayland surface has the keyboard, or none.
pub open spec fn published_active_window(
    active_window: Option<u32>,
    has_keyboard_focus: bool,
    focus_sink: u32,
) -> u32 {
    match active_window {
        Some(window) => window,
        None => if has_keyboard_focus {
            focus_sink
        } else {
            NONE
        },
    }
}

/// The value of `_NET_ACTIVE_WINDOW`.
pub fn active_window_property_value(
    active_window: Option<u32>,
    has_keyboard_focus: bool,
    focus_sink: u32,
) -> (res: u32)
    ensures
        res == published_active_window(active_window, has_keyboard_focus, focus_sink),
{
    match active_window {
        Some(window) => window,
        None => if has_keyboard_focus {
            focus_sink
        } else {
            NONE
        },
    }
}

/// The calls that publish the desktop geometry on the root window.
pub open spec fn geometry_calls(
    control: ControlView,
    desktop: (u32, u32),
    work_area: Option<(i32, i32, u32, u32)>,
) -> Seq<crate::xwayland::ewmh::XCallView> {
    seq![
        crate::xwayland::ewmh::replace32(
            control.root,
            control.atoms._NET_DESKTOP_GEOMETRY,
            PropertyType::Cardinal,
            seq![desktop.0, desktop.1],
        ),
        match work_area {
            Some(area) => crate::xwayland::ewmh::replace32(
                control.root,
                control.atoms._NET_WORKAREA,
                PropertyType::Cardinal,
                seq![cardinal_value(area.0) as u32, cardinal_value(area.1) as u32, area.2, area.3],
            ),
            None => crate::xwayland::ewmh::queued(
                crate::xwayland::ewmh::XRequestView::DeleteProperty {
                    window: control.root,
                    property: control.atoms._NET_WORKAREA,
                },
            ),
        },
        crate::xwayland::ewmh::queued(crate::xwayland::ewmh::XRequestView::Flush),
    ]
}

/// The calls owed for a desktop geometry: none when it is already published.
pub open spec fn desktop_geometry_calls(
    control: ControlView,
    desktop: (u32, u32),
    work_area: Option<(i32, i32, u32, u32)>,
) -> Seq<crate::xwayland::ewmh::XCallView> {
    if control.desktop_geometry == Some(PublishedDesktopGeometry { desktop, work_area }) {
        Seq::empty()
    } else {
        geometry_calls(control, desktop, work_area)
    }
}

/// The connection after a desktop geometry was published.
pub open spec fn geometry_published(
    control: ControlView,
    desktop: (u32, u32),
    work_area: Option<(i32, i32, u32, u32)>,
) -> ControlView {
    ControlView {
        desktop_geometry: Some(PublishedDesktopGeometry { desktop, work_area }),
        ..control
    }
}

/// The extents of `window` have to be published: others, or none, are
/// remembered.
pub open spec fn extents_are_due(
    control: ControlView,
    window: u32,
    extents: (i32, i32, i32, i32),
) -> bool {
    !control.frame_extents.contains_pair(window, extents)
}

/// The call that publishes the extents of `window`.
pub open spec fn extents_call(
    control: ControlView,
    window: u32,
    extents: (i32, i32, i32, i32),
) -> crate::xwayland::ewmh::XCallView {
    crate::xwayland::ewmh::checked(
        crate::xwayland::ewmh::XRequestView::ChangeProperty32 {
            window,
            property: control.atoms._NET_FRAME_EXTENTS,
            kind: PropertyType::Cardinal,
            values: seq![
                cardinal_value(extents.0) as u32,
                cardinal_value(extents.1) as u32,
                cardinal_value(extents.2) as u32,
                cardinal_value(extents.3) as u32,
            ],
        },
    )
}

/// The connection after publishing the extents of `window` came to `result`.
pub open spec fn extents_published(
    control: ControlView,
    window: u32,
    extents: (i32, i32, i32, i32),
    result: Result<(), ReplyError>,
) -> ControlView {
    if result is Ok {
        ControlView { frame_extents: control.frame_extents.insert(window, extents), ..control }
    } else {
        control
    }
}

/// The connection after `window` was forgotten.
pub open spec fn window_forgotten(control: ControlView, window: u32) -> ControlView {
    ControlView { frame_extents: control.frame_extents.remove(window), ..control }
}

/// The call that publishes the active window.
pub open spec fn active_window_call(control: ControlView, window: u32) -> crate::xwayland::ewmh::XCallView {
    crate::xwayland::ewmh::replace32(
        control.root,
        control.atoms._NET_ACTIVE_WINDOW,
        PropertyType::Window,
        seq![window],
    )
}

/// The active window has to be published: another, or none, is remembered.
pub open spec fn active_window_is_due(
    control: ControlView,
    window: Option<u32>,
    has_keyboard_focus: bool,
) -> bool {
    control.active_window != Some(
        published_active_window(window, has_keyboard_focus, control.focus_sink),
    )
}

/// The connection after the active window was published.
pub open spec fn active_window_published(
    control: ControlView,
    window: Option<u32>,
    has_keyboard_focus: bool,
) -> ControlView {
    ControlView {
        active_window: Some(
            published_active_window(window, has_keyboard_focus, control.focus_sink),
        ),
        ..control
    }
}

/// The calls that give core focus to `window`, without waiting for the server.
pub open spec fn focus_calls(window: u32) -> Seq<crate::xwayland::ewmh::XCallView> {
    seq![
        crate::xwayland::ewmh::queued(
            crate::xwayland::ewmh::XRequestView::SetInputFocus { window },
        ),
        crate::xwayland::ewmh::queued(crate::xwayland::ewmh::XRequestView::Flush),
    ]
}

/// The calls that follow the active-window property: core focus is parked on
/// the sink while no X11 window is active.
pub open spec fn park_calls(window: Option<u32>, focus_sink: u32) -> Seq<crate::xwayland::ewmh::XCallView> {
    if window is None {
        focus_calls(focus_sink)
    } else {
        seq![crate::xwayland::ewmh::queued(crate::xwayland::ewmh::XRequestView::Flush)]
    }
}

/// The calls that make a window active: first the property, if its value
/// changes, then the rest.
pub struct ActiveWindowCalls {
    pub property: Option<XCall>,
    pub focus: Vec<XCall>,
}

fn focus_requests(window: u32) -> (res: Vec<XCall>)
    ensures
        crate::xwayland::ewmh::call_views(res@) == focus_calls(window),
{
    let res = vec![queue(XRequest::SetInputFocus { window }), queue(XRequest::Flush)];
    assert(crate::xwayland::ewmh::call_views(res@) == focus_calls(window));
    res
}

impl X11Control {
    fn new(atoms: &Atoms, root: u32, focus_sink: u32, root_pointer_available: bool) -> (res: Self)
        ensures
            res@ == fresh_control(*atoms, root, focus_sink, root_pointer_available),
    {
        X11Control {
            atoms: *atoms,
            root,
            focus_sink,
            active_window: None,
            root_pointer_available,
            root_pointer_drag: None,
            desktop_geometry: None,
            frame_extents: HashMap::new(),
        }
    }

    /// Takes the server's answer to what connecting asked for.
    ///
    /// Connecting begins at [`Connecting::Owner`]. Nothing is created or
    /// published before the window manager is known to run. XTEST is never used
    /// where emulated input is redirected back to a compositor.
    pub fn connect(
        screen: &Screen,
        atoms: &Atoms,
        progress: Connecting,
        reply: ConnectReply,
    ) -> (res: Connecting)
        ensures
            connecting_follows(*screen, *atoms, progress, reply, res),
    {
        match (progress, reply) {
            (Connecting::Owner, ConnectReply::Owner(owner)) => if owner == NONE {
                Connecting::Failed("Smithay XWM does not own WM_S0".to_owned())
            } else {
                Connecting::Support
            },
            (Connecting::Support, ConnectReply::Property { format, value }) => {
                match supporting_wm_window(format, &value) {
                    Ok(support_window) => Connecting::Sink { support_window },
                    Err(message) => Connecting::Failed(message),
                }
            },
            (Connecting::Sink { support_window }, ConnectReply::Created { window }) => {
                Connecting::Geometry { support_window, focus_sink: window }
            },
            (
                Connecting::Geometry { support_window, focus_sink },
                ConnectReply::Geometry { width, height },
            ) => {
                let calls = publish_ewmh(screen.root, support_window, width, height, atoms);
                Connecting::Publish { focus_sink, calls }
            },
            (Connecting::Publish { focus_sink, calls: _ }, ConnectReply::Published) => {
                if screen.emulated_input {
                    Connecting::Ready(Self::new(atoms, screen.root, focus_sink, false))
                } else {
                    Connecting::Pointer { focus_sink }
                }
            },
            (Connecting::Pointer { focus_sink }, ConnectReply::Xtest { available }) => {
                Connecting::Ready(Self::new(atoms, screen.root, focus_sink, available))
            },
            (progress, _) => progress,
        }
    }

    /// Decides how pointer motion over the popup `window` reaches the X server
    /// in its root coordinate system. `position` holds the binary64 bit patterns
    /// of the root coordinates.
    ///
    /// The button travels over Wayland; its press is not overtaken on this
    /// independent connection. While the drag of `window` has not begun, the
    /// server is asked first.
    pub fn popup_pointer_motion(&self, window: u32, position: (u64, u64)) -> (res: PopupMotion)
        ensures
            res == popup_motion(self@, window, position),
    {
        match root_pointer_coordinates(position) {
            Some((x, y)) => {
                if !self.root_pointer_available {
                    return PopupMotion::Refused;
                }
                let dragging = match self.root_pointer_drag {
                    Some(dragged) => dragged == window,
                    None => false,
                };
                if dragging {
                    PopupMotion::Deliver { x, y }
                } else {
                    PopupMotion::QueryPointer { x, y }
                }
            },
            None => PopupMotion::Refused,
        }
    }

    /// Decides about a motion once the server said which buttons it saw pressed.
    /// `mask` is `None` when it did not answer.
    pub fn popup_pointer_queried(mask: Option<u16>, x: i16, y: i16) -> (res: PopupMotion)
        ensures
            res == (if mask is Some && holds_first_button(mask->Some_0) {
                PopupMotion::Deliver { x, y }
            } else {
                PopupMotion::Refused
            }),
    {
        match mask {
            Some(mask) => if button1_held(mask) {
                PopupMotion::Deliver { x, y }
            } else {
                PopupMotion::Refused
            },
            None => PopupMotion::Refused,
        }
    }

    /// Records whether a motion over `window` was sent, and says whether it was
    /// delivered to the X server.
    pub fn popup_pointer_sent(&mut self, window: u32, sent: bool) -> (res: bool)
        ensures
            res == sent,
            final(self)@ == motion_sent(old(self)@, window, sent),
    {
        if sent {
            self.root_pointer_drag = Some(window);
        }
        sent
    }

    /// Whether a popup drag is delivered through the X server.
    pub fn popup_pointer_active(&self) -> (res: bool)
        ensures
            res == (self@.root_pointer_drag is Some),
    {
        self.root_pointer_drag.is_some()
    }

    /// Ends a popup drag. Says whether a round trip is due, so that the last X11
    /// motion is processed before a Wayland button release is sent. Only a drag
    /// handoff pays for this round trip.
    pub fn finish_popup_pointer(&mut self) -> (res: bool)
        ensures
            res == (old(self)@.root_pointer_drag is Some),
            final(self)@ == drag_finished(old(self)@),
    {
        let dragging = self.root_pointer_drag.is_some();
        self.root_pointer_drag = None;
        dragging
    }

    /// The call that publishes the decoration drawn around a client window, or
    /// `None` when the same extents are already published.
    ///
    /// The X window a client sees is the client area only; without this the
    /// client's own root-coordinate arithmetic is off by the frame. `extents` is
    /// `(left, right, top, bottom)`.
    pub fn set_frame_extents(&self, window: u32, extents: (i32, i32, i32, i32)) -> (res: Option<
        XCall,
    >)
        ensures
            res is Some <==> extents_are_due(self@, window, extents),
            res matches Some(call) ==> call@ == extents_call(self@, window, extents),
    {
        if let Some(published) = self.frame_extents.get(&window) {
            if published.0 == extents.0 && published.1 == extents.1 && published.2 == extents.2
                && published.3 == extents.3 {
                return None;
            }
        }
        let values: Vec<u32> = vec![
            cardinal(extents.0),
            cardinal(extents.1),
            cardinal(extents.2),
            cardinal(extents.3),
        ];
        assert(values@ == seq![
            cardinal_value(extents.0) as u32,
            cardinal_value(extents.1) as u32,
            cardinal_value(extents.2) as u32,
            cardinal_value(extents.3) as u32,
        ]);
        Some(
            check(
                XRequest::ChangeProperty32 {
                    window,
                    property: self.atoms._NET_FRAME_EXTENTS,
                    kind: PropertyType::Cardinal,
                    values,
                },
            ),
        )
    }

    /// Takes the outcome of publishing `extents`: they are remembered only when
    /// the server confirmed them, and a window that is already gone is no error.
    pub fn frame_extents_set(
        &mut self,
        window: u32,
        extents: (i32, i32, i32, i32),
        result: Result<(), ReplyError>,
    ) -> (res: Result<(), ReplyError>)
        ensures
            final(self)@ == extents_published(old(self)@, window, extents, result),
            res == tolerated(result),
    {
        if result.is_ok() {
            self.frame_extents.insert(window, extents);
        }
        tolerate_destroyed(result)
    }

    /// Drops the per-window property memo for a window that is no longer
    /// managed, so a reused identifier cannot inherit its predecessor's extents.
    pub fn forget_window(&mut self, window: u32)
        ensures
            final(self)@ == window_forgotten(old(self)@, window),
    {
        self.frame_extents.remove(&window);
    }

    /// The call that publishes the ICCCM state of a window.
    pub fn set_wm_state(&self, window: u32, state: IcccmState) -> (res: XCall)
        ensures
            res@ == crate::xwayland::ewmh::checked(
                crate::xwayland::ewmh::XRequestView::ChangeProperty32 {
                    window,
                    property: self@.atoms.WM_STATE,
                    kind: PropertyType::Interned(self@.atoms.WM_STATE),
                    values: seq![state.spec_value(), NONE],
                },
            ),
    {
        let values: Vec<u32> = vec![state.value(), NONE];
        assert(values@ == seq![state.spec_value(), NONE]);
        check(
            XRequest::ChangeProperty32 {
                window,
                property: self.atoms.WM_STATE,
                kind: PropertyType::Interned(self.atoms.WM_STATE),
                values,
            },
        )
    }

    /// The call that takes back the ICCCM state of a window. Its outcome goes to
    /// [`X11Control::withdrawn`].
    pub fn withdraw(&self, window: u32) -> (res: XCall)
        ensures
            res@ == crate::xwayland::ewmh::checked(
                crate::xwayland::ewmh::XRequestView::DeleteProperty {
                    window,
                    property: self@.atoms.WM_STATE,
                },
            ),
    {
        check(XRequest::DeleteProperty { window, property: self.atoms.WM_STATE })
    }

    /// What taking back the ICCCM state of a window comes to: that the window is
    /// already gone is no error.
    pub fn withdrawn(result: Result<(), ReplyError>) -> (res: Result<(), ReplyError>)
        ensures
            res == tolerated(result),
    {
        tolerate_destroyed(result)
    }

    /// The calls that republish the root desktop geometry after an output layout
    /// change; none when it is already published.
    ///
    /// `work_area` is `None` for a multi-output layout: a single rectangle cannot
    /// describe it. Deleting the property says "unknown", which clients handle.
    pub fn publish_desktop_geometry(
        &self,
        desktop: (u32, u32),
        work_area: Option<(i32, i32, u32, u32)>,
    ) -> (res: Vec<XCall>)
        ensures
            crate::xwayland::ewmh::call_views(res@) == desktop_geometry_calls(
                self@,
                desktop,
                work_area,
            ),
    {
        if let Some(published) = self.desktop_geometry {
            let same_area = match (published.work_area, work_area) {
                (Some(a), Some(b)) => a.0 == b.0 && a.1 == b.1 && a.2 == b.2 && a.3 == b.3,
                (None, None) => true,
                _ => false,
            };
            if same_area && published.desktop.0 == desktop.0 && published.desktop.1 == desktop.1 {
                let res: Vec<XCall> = Vec::new();
                assert(crate::xwayland::ewmh::call_views(res@) == Seq::<
                    crate::xwayland::ewmh::XCallView,
                >::empty());
                return res;
            }
        }
        let geometry: Vec<u32> = vec![desktop.0, desktop.1];
        assert(geometry@ == seq![desktop.0, desktop.1]);
        let area_call = match work_area {
            Some((x, y, width, height)) => {
                let values: Vec<u32> = vec![cardinal(x), cardinal(y), width, height];
                assert(values@ == seq![
                    cardinal_value(x) as u32,
                    cardinal_value(y) as u32,
                    width,
                    height,
                ]);
                change32(self.root, self.atoms._NET_WORKAREA, PropertyType::Cardinal, values)
            },
            None => queue(
                XRequest::DeleteProperty { window: self.root, property: self.atoms._NET_WORKAREA },
            ),
        };
        let res = vec![
            change32(
                self.root,
                self.atoms._NET_DESKTOP_GEOMETRY,
                PropertyType::Cardinal,
                geometry,
            ),
            area_call,
            queue(XRequest::Flush),
        ];
        assert(crate::xwayland::ewmh::call_views(res@) == geometry_calls(
            self@,
            desktop,
            work_area,
        ));
        res
    }

    /// Remembers the desktop geometry once all its calls went through.
    pub fn desktop_geometry_published(
        &mut self,
        desktop: (u32, u32),
        work_area: Option<(i32, i32, u32, u32)>,
    )
        ensures
            final(self)@ == geometry_published(old(self)@, desktop, work_area),
    {
        self.desktop_geometry = Some(PublishedDesktopGeometry { desktop, work_area });
    }

    /// The calls that make `window` the active X11 window, or none of them.
    ///
    /// Native Wayland surfaces have no X11 identifier to receive core focus, and
    /// focus left at nothing is observably different from focus transferred
    /// elsewhere. So core focus is parked on the mapped off-screen focus sink,
    /// which is also published as active while a native surface has the
    /// keyboard. Focus is queued without a checked round trip: waiting could
    /// stall the compositor that must deliver input.
    pub fn set_active_window(&self, window: Option<u32>, has_keyboard_focus: bool) -> (res:
        ActiveWindowCalls)
        ensures
            res.property is Some <==> active_window_is_due(self@, window, has_keyboard_focus),
            res.property matches Some(call) ==> call@ == active_window_call(
                self@,
                published_active_window(window, has_keyboard_focus, self@.focus_sink),
            ),
            crate::xwayland::ewmh::call_views(res.focus@) == park_calls(window, self@.focus_sink),
    {
        let published = active_window_property_value(window, has_keyboard_focus, self.focus_sink);
        let unchanged = match self.active_window {
            Some(active) => active == published,
            None => false,
        };
        let property = if unchanged {
            None
        } else {
            let values: Vec<u32> = vec![published];
            assert(values@ == seq![published]);
            Some(
                change32(self.root, self.atoms._NET_ACTIVE_WINDOW, PropertyType::Window, values),
            )
        };
        let focus = match focus_sink_for_active_window(window, self.focus_sink) {
            Some(focus_sink) => focus_requests(focus_sink),
            None => {
                let calls = vec![queue(XRequest::Flush)];
                assert(crate::xwayland::ewmh::call_views(calls@) == park_calls(
                    window,
                    self@.focus_sink,
                ));
                calls
            },
        };
        ActiveWindowCalls { property, focus }
    }

    /// Remembers the published active window once its property call went through.
    pub fn active_window_set(&mut self, window: Option<u32>, has_keyboard_focus: bool)
        ensures
            final(self)@ == active_window_published(old(self)@, window, has_keyboard_focus),
    {
        self.active_window = Some(
            active_window_property_value(window, has_keyboard_focus, self.focus_sink),
        );
    }

    /// The calls that give a globally-active client deterministic core focus.
    ///
    /// The window manager asks such clients to take focus but otherwise waits
    /// for them. Focus is queued explicitly, preserving request order without
    /// waiting for server confirmation.
    pub fn focus_window(&self, window: u32) -> (res: Vec<XCall>)
        ensures
            crate::xwayland::ewmh::call_views(res@) == focus_calls(window),
    {
        focus_requests(window)
    }

    /// What publishing the allowed actions of a window comes to: that the window
    /// is already gone is no error.
    pub fn allowed_actions_set(result: Result<(), ReplyError>) -> (res: Result<(), ReplyError>)
        ensures
            res == tolerated(result),
    {
        tolerate_destroyed(result)
    }

    /// The call that publishes what a user may do with a window. Its outcome goes
    /// to [`X11Control::allowed_actions_set`].
    pub fn set_allowed_actions(&self, window: u32, actions: AllowedActions) -> (res: XCall)
        ensures
            res@ == crate::xwayland::ewmh::checked(
                crate::xwayland::ewmh::XRequestView::ChangeProperty32 {
                    window,
                    property: self@.atoms._NET_WM_ALLOWED_ACTIONS,
                    kind: PropertyType::Atom,
                    values: action_atoms(self@.atoms, actions),
                },
            ),
    {
        let mut values: Vec<u32> = Vec::with_capacity(8);
        if actions.move_ {
            values.push(self.atoms._NET_WM_ACTION_MOVE);
        }
        if actions.resize {
            values.push(self.atoms._NET_WM_ACTION_RESIZE);
        }
        if actions.minimize {
            values.push(self.atoms._NET_WM_ACTION_MINIMIZE);
        }
        if actions.maximize {
            values.push(self.atoms._NET_WM_ACTION_MAXIMIZE_HORZ);
            values.push(self.atoms._NET_WM_ACTION_MAXIMIZE_VERT);
        }
        if actions.fullscreen {
            values.push(self.atoms._NET_WM_ACTION_FULLSCREEN);
        }
        assert(values@ == action_atoms(self@.atoms, actions));
        check(
            XRequest::ChangeProperty32 {
                window,
                property: self.atoms._NET_WM_ALLOWED_ACTIONS,
                kind: PropertyType::Atom,
                values,
            },
        )
    }

    /// The next step of configuring key repeat. `last` is the step before and
    /// the server's answer to it, or `None` at the beginning.
    pub fn configure_key_repeat(
        delay: i32,
        rate: i32,
        last: Option<(KeyRepeatStep, KeyRepeatReply)>,
    ) -> (res: KeyRepeatStep)
        ensures
            match last {
                None => res == (KeyRepeatStep::SetMode { enabled: rate > 0 }),
                Some((step, reply)) => crate::xwayland::keyboard::key_repeat_follows(
                    delay,
                    rate,
                    step,
                    reply,
                    res,
                ),
            },
    {
        match last {
            None => first_key_repeat_step(rate),
            Some((step, reply)) => next_key_repeat_step(delay, rate, step, reply),
        }
    }
}

/// What a window allows is always among what the compositor says it supports.
pub proof fn allowed_actions_are_supported(atoms: Atoms, actions: AllowedActions, i: int)
    requires
        0 <= i < action_atoms(atoms, actions).len(),
    ensures
        crate::xwayland::ewmh::supported_atoms(atoms).contains(action_atoms(atoms, actions)[i]),
{
    let supported = crate::xwayland::ewmh::supported_atoms(atoms);
    assert(supported[23] == atoms._NET_WM_ACTION_MOVE);
    assert(supported[24] == atoms._NET_WM_ACTION_RESIZE);
    assert(supported[25] == atoms._NET_WM_ACTION_MINIMIZE);
    assert(supported[26] == atoms._NET_WM_ACTION_MAXIMIZE_HORZ);
    assert(supported[27] == atoms._NET_WM_ACTION_MAXIMIZE_VERT);
    assert(supported[28] == atoms._NET_WM_ACTION_FULLSCREEN);
}

/// Publishing an unchanged desktop geometry again sends nothing, and publishing
/// a changed one sends everything.
pub proof fn unchanged_geometry_is_free(
    control: ControlView,
    desktop: (u32, u32),
    work_area: Option<(i32, i32, u32, u32)>,
    next: (u32, u32),
    next_area: Option<(i32, i32, u32, u32)>,
)
    ensures
        ({
            let calls = desktop_geometry_calls(
                geometry_published(control, desktop, work_area),
                next,
                next_area,
            );
            if desktop == next && work_area == next_area {
                calls.len() == 0
            } else {
                calls == geometry_calls(control, next, next_area)
            }
        }),
{
}

/// Confirmed extents are not sent again for the same window, other extents are,
/// and no other window is affected.
pub proof fn confirmed_extents_are_remembered(
    control: ControlView,
    window: u32,
    extents: (i32, i32, i32, i32),
    other: u32,
    others: (i32, i32, i32, i32),
)
    ensures
        ({
            let after = extents_published(control, window, extents, Ok(()));
            &&& extents_are_due(after, window, others) <==> others != extents
            &&& other != window ==> (extents_are_due(after, other, others) <==> extents_are_due(
                control,
                other,
                others,
            ))
        }),
{
}

/// Extents the server did not confirm are sent again, whatever the reason.
pub proof fn unconfirmed_extents_stay_due(
    control: ControlView,
    window: u32,
    extents: (i32, i32, i32, i32),
    error: ReplyError,
)
    requires
        extents_are_due(control, window, extents),
    ensures
        extents_are_due(
            extents_published(control, window, extents, Err(error)),
            window,
            extents,
        ),
{
}

/// A forgotten window inherits nothing: whatever its extents, they are sent, and
/// the extents of other windows stay remembered.
pub proof fn forgotten_windows_inherit_nothing(
    control: ControlView,
    window: u32,
    extents: (i32, i32, i32, i32),
    other: u32,
)
    ensures
        extents_are_due(window_forgotten(control, window), window, extents),
        other != window ==> (extents_are_due(window_forgotten(control, window), other, extents)
            <==> extents_are_due(control, other, extents)),
{
}

/// Changing focus never waits for the server.
pub proof fn focus_never_waits(control: ControlView, window: Option<u32>, published: u32, i: int)
    ensures
        !active_window_call(control, published).checked,
        0 <= i < park_calls(window, control.focus_sink).len() ==> !park_calls(
            window,
            control.focus_sink,
        )[i].checked,
        window is Some && 0 <= i < focus_calls(window->Some_0).len() ==> !focus_calls(
            window->Some_0,
        )[i].checked,
{
}

/// While no X11 window is active, core focus is parked on the focus sink, and
/// the sink is published as active exactly when a native surface has the
/// keyboard.
pub proof fn native_focus_parks_on_the_sink(control: ControlView, has_keyboard_focus: bool)
    requires
        control.focus_sink != NONE,
    ensures
        park_calls(None, control.focus_sink) == focus_calls(control.focus_sink),
        has_keyboard_focus <==> published_active_window(
            None,
            has_keyboard_focus,
            control.focus_sink,
        ) == control.focus_sink,
{
}

/// The active window is published once: the same one again sends no property.
pub proof fn unchanged_active_window_is_free(
    control: ControlView,
    window: Option<u32>,
    has_keyboard_focus: bool,
)
    ensures
        !active_window_is_due(
            active_window_published(control, window, has_keyboard_focus),
            window,
            has_keyboard_focus,
        ),
{
}

/// Only the first motion of a drag asks the server: once one was sent, the next
/// over the same popup is injected or refused, until the drag is finished.
pub proof fn drags_ask_once(control: ControlView, window: u32, position: (u64, u64))
    ensures
        popup_motion(motion_sent(control, window, true), window, position) !is QueryPointer,
        popup_motion(drag_finished(control), window, position) !is Deliver,
        drag_finished(motion_sent(control, window, true)).root_pointer_drag is None,
{
}

/// Where emulated input is redirected back to a compositor, XTEST is never asked
/// for, and a connection that comes up refuses every motion.
pub proof fn redirected_input_is_never_injected(
    screen: Screen,
    atoms: Atoms,
    from: Connecting,
    reply: ConnectReply,
    to: Connecting,
    window: u32,
    position: (u64, u64),
)
    requires
        screen.emulated_input,
        connecting_follows(screen, atoms, from, reply, to),
        from !is Pointer,
        from !is Ready,
    ensures
        to !is Pointer,
        to matches Connecting::Ready(control) ==> popup_motion(control@, window, position)
            is Refused,
{
}

/// What an X server answers while a connection is made.
pub struct XServer {
    /// The owner of the window manager selection.
    pub owner: u32,
    /// The format and the bytes of `_NET_SUPPORTING_WM_CHECK`.
    pub format: u8,
    pub value: Seq<u8>,
    /// The identifier of the focus sink.
    pub sink: u32,
    /// The size of the root window.
    pub width: u16,
    pub height: u16,
    /// Whether it has XTEST.
    pub xtest: bool,
}

/// `reply` is the server's answer to what `progress` asks for.
pub open spec fn server_replies(server: XServer, progress: Connecting, reply: ConnectReply) -> bool {
    match progress {
        Connecting::Owner => reply == ConnectReply::Owner(server.owner),
        Connecting::Support => reply matches ConnectReply::Property { format, value } && format
            == server.format && value@ == server.value,
        Connecting::Sink { .. } => reply == (ConnectReply::Created { window: server.sink }),
        Connecting::Geometry { .. } => reply == (ConnectReply::Geometry {
            width: server.width,
            height: server.height,
        }),
        Connecting::Publish { .. } => reply is Published,
        Connecting::Pointer { .. } => reply == (ConnectReply::Xtest { available: server.xtest }),
        Connecting::Ready(_) => true,
        Connecting::Failed(_) => true,
    }
}

/// What connecting to `server` comes to from `progress` on: the state of the
/// connection, or the message why there is none.
pub open spec fn connect_outcome(
    screen: Screen,
    atoms: Atoms,
    server: XServer,
    progress: Connecting,
) -> Result<ControlView, Seq<char>> {
    let ready = |focus_sink: u32|
        fresh_control(atoms, screen.root, focus_sink, !screen.emulated_input && server.xtest);
    let supported = if crate::xwayland::ewmh::names_support_window(server.format, server.value) {
        Ok(ready(server.sink))
    } else {
        Err(crate::xwayland::ewmh::no_support_window())
    };
    match progress {
        Connecting::Failed(message) => Err(message@),
        Connecting::Ready(control) => Ok(control@),
        Connecting::Pointer { focus_sink } => Ok(
            fresh_control(atoms, screen.root, focus_sink, server.xtest),
        ),
        Connecting::Publish { focus_sink, .. } => Ok(ready(focus_sink)),
        Connecting::Geometry { focus_sink, .. } => Ok(ready(focus_sink)),
        Connecting::Sink { .. } => Ok(ready(server.sink)),
        Connecting::Support => supported,
        Connecting::Owner => if server.owner == NONE {
            Err(no_window_manager())
        } else {
            supported
        },
    }
}

/// How many answers are left at most.
pub open spec fn answers_left(progress: Connecting) -> nat {
    match progress {
        Connecting::Owner => 6,
        Connecting::Support => 5,
        Connecting::Sink { .. } => 4,
        Connecting::Geometry { .. } => 3,
        Connecting::Publish { .. } => 2,
        Connecting::Pointer { .. } => 1,
        Connecting::Ready(_) => 0,
        Connecting::Failed(_) => 0,
    }
}

/// Each answer of the server brings connecting nearer to its end and leaves what
/// it comes to as it was.
pub proof fn answers_keep_the_connect_outcome(
    screen: Screen,
    atoms: Atoms,
    server: XServer,
    from: Connecting,
    reply: ConnectReply,
    to: Connecting,
)
    requires
        server_replies(server, from, reply),
        connecting_follows(screen, atoms, from, reply, to),
    ensures
        connect_outcome(screen, atoms, server, to) == connect_outcome(screen, atoms, server, from),
        answers_left(from) > 0 ==> answers_left(to) < answers_left(from),
{
}

/// A connection comes up exactly when a window manager runs and published its
/// support window; then nothing is active and nothing is remembered yet.
pub proof fn connections_need_a_window_manager(screen: Screen, atoms: Atoms, server: XServer)
    ensures
        connect_outcome(screen, atoms, server, Connecting::Owner) is Ok <==> server.owner != NONE
            && crate::xwayland::ewmh::names_support_window(server.format, server.value),
        connect_outcome(screen, atoms, server, Connecting::Owner) matches Ok(control) ==> control
            == fresh_control(
            atoms,
            screen.root,
            server.sink,
            !screen.emulated_input && server.xtest,
        ),
{
}

/// The atoms of the window actions are pairwise different.
pub open spec fn distinct_actions(atoms: Atoms) -> bool {
    let all = seq![
        atoms._NET_WM_ACTION_MOVE,
        atoms._NET_WM_ACTION_RESIZE,
        atoms._NET_WM_ACTION_MINIMIZE,
        atoms._NET_WM_ACTION_MAXIMIZE_HORZ,
        atoms._NET_WM_ACTION_MAXIMIZE_VERT,
        atoms._NET_WM_ACTION_FULLSCREEN,
    ];
    forall|i: int, j: int| 0 <= i < j < all.len() ==> #[trigger] all[i] != #[trigger] all[j]
}

proof fn adding_an_atom(list: Seq<u32>, allowed: bool, atom: u32)
    requires
        list.no_duplicates(),
        !list.contains(atom),
    ensures
        ({
            let next = list + when(allowed, atom);
            &&& next.no_duplicates()
            &&& forall|x: u32| #[trigger]
                next.contains(x) <==> list.contains(x) || (allowed && x == atom)
        }),
{
    let next = list + when(allowed, atom);
    assert forall|x: u32| #[trigger] next.contains(x) <==> list.contains(x) || (allowed && x
        == atom) by {
        if list.contains(x) {
            assert(next[list.index_of(x)] == x);
        }
        if allowed && x == atom {
            assert(next[list.len() as int] == x);
        }
        if next.contains(x) {
            let k = next.index_of(x);
            if k < list.len() {
                assert(list[k] == x);
            }
        }
    }
}

/// The published list holds the atom of an action exactly when the action is
/// allowed, both atoms of maximizing together, each once and nothing else.
pub proof fn each_allowed_action_is_listed(atoms: Atoms, actions: AllowedActions, atom: u32)
    requires
        distinct_actions(atoms),
    ensures
        ({
            let list = action_atoms(atoms, actions);
            &&& list.contains(atoms._NET_WM_ACTION_MOVE) <==> actions.move_
            &&& list.contains(atoms._NET_WM_ACTION_RESIZE) <==> actions.resize
            &&& list.contains(atoms._NET_WM_ACTION_MINIMIZE) <==> actions.minimize
            &&& list.contains(atoms._NET_WM_ACTION_MAXIMIZE_HORZ) <==> actions.maximize
            &&& list.contains(atoms._NET_WM_ACTION_MAXIMIZE_VERT) <==> actions.maximize
            &&& list.contains(atoms._NET_WM_ACTION_FULLSCREEN) <==> actions.fullscreen
            &&& list.no_duplicates()
            &&& list.contains(atom) ==> {
                ||| atom == atoms._NET_WM_ACTION_MOVE
                ||| atom == atoms._NET_WM_ACTION_RESIZE
                ||| atom == atoms._NET_WM_ACTION_MINIMIZE
                ||| atom == atoms._NET_WM_ACTION_MAXIMIZE_HORZ
                ||| atom == atoms._NET_WM_ACTION_MAXIMIZE_VERT
                ||| atom == atoms._NET_WM_ACTION_FULLSCREEN
            }
        }),
{
    let all = seq![
        atoms._NET_WM_ACTION_MOVE,
        atoms._NET_WM_ACTION_RESIZE,
        atoms._NET_WM_ACTION_MINIMIZE,
        atoms._NET_WM_ACTION_MAXIMIZE_HORZ,
        atoms._NET_WM_ACTION_MAXIMIZE_VERT,
        atoms._NET_WM_ACTION_FULLSCREEN,
    ];
    assert(all[0] != all[1] && all[0] != all[2] && all[0] != all[3] && all[0] != all[4] && all[0]
        != all[5]);
    assert(all[1] != all[2] && all[1] != all[3] && all[1] != all[4] && all[1] != all[5]);
    assert(all[2] != all[3] && all[2] != all[4] && all[2] != all[5]);
    assert(all[3] != all[4] && all[3] != all[5] && all[4] != all[5]);
    let none = Seq::<u32>::empty();
    adding_an_atom(none, actions.move_, all[0]);
    let first = none + when(actions.move_, all[0]);
    assert(first == when(actions.move_, all[0]));
    adding_an_atom(first, actions.resize, all[1]);
    let second = first + when(actions.resize, all[1]);
    adding_an_atom(second, actions.minimize, all[2]);
    let third = second + when(actions.minimize, all[2]);
    adding_an_atom(third, actions.maximize, all[3]);
    let fourth = third + when(actions.maximize, all[3]);
    adding_an_atom(fourth, actions.maximize, all[4]);
    let fifth = fourth + when(actions.maximize, all[4]);
    adding_an_atom(fifth, actions.fullscreen, all[5]);
    assert(action_atoms(atoms, actions) == fifth + when(actions.fullscreen, all[5]));
}

/// The frame extents are sent to their window and waited for, in the order left,
/// right, top, bottom, each modulo two to the 32nd.
pub proof fn extents_are_sent_in_order(
    control: ControlView,
    window: u32,
    extents: (i32, i32, i32, i32),
)
    ensures
        ({
            let call = extents_call(control, window, extents);
            &&& call.checked
            &&& call.request matches crate::xwayland::ewmh::XRequestView::ChangeProperty32 {
                window: target,
                property,
                kind,
                values,
            } && target == window && property == control.atoms._NET_FRAME_EXTENTS && kind
                == PropertyType::Cardinal && values.len() == 4 && values[0] as int == extents.0
                as int % 0x1_0000_0000 && values[1] as int == extents.1 as int % 0x1_0000_0000
                && values[2] as int == extents.2 as int % 0x1_0000_0000 && values[3] as int
                == extents.3 as int % 0x1_0000_0000
        }),
{
}

/// A changed desktop geometry is written to the root window: its size, then its
/// work area, or, where there is none, the deletion of the old one, and then all
/// is flushed. None of it is waited for.
pub proof fn geometry_is_written_to_the_root(
    control: ControlView,
    desktop: (u32, u32),
    work_area: Option<(i32, i32, u32, u32)>,
)
    ensures
        ({
            let calls = geometry_calls(control, desktop, work_area);
            &&& calls.len() == 3
            &&& forall|i: int| 0 <= i < 3 ==> !(#[trigger] calls[i]).checked
            &&& calls[0].request matches crate::xwayland::ewmh::XRequestView::ChangeProperty32 {
                window,
                property,
                kind,
                values,
            } && window == control.root && property == control.atoms._NET_DESKTOP_GEOMETRY && kind
                == PropertyType::Cardinal && values == seq![desktop.0, desktop.1]
            &&& calls[2].request is Flush
        }),
        work_area is None ==> geometry_calls(control, desktop, work_area)[1].request == (
        crate::xwayland::ewmh::XRequestView::DeleteProperty {
            window: control.root,
            property: control.atoms._NET_WORKAREA,
        }),
        work_area matches Some((x, y, width, height)) ==> {
            let call = geometry_calls(control, desktop, work_area)[1];
            call.request matches crate::xwayland::ewmh::XRequestView::ChangeProperty32 {
                window,
                property,
                kind,
                values,
            } && window == control.root && property == control.atoms._NET_WORKAREA && kind
                == PropertyType::Cardinal && values.len() == 4 && values[0] as int == x as int
                % 0x1_0000_0000 && values[1] as int == y as int % 0x1_0000_0000 && values[2]
                == width && values[3] == height
        },
{
}

/// The published active window is the active X11 window; else the focus sink
/// where a native surface has the keyboard; else none. It goes to the root
/// window.
pub proof fn the_active_window_is_published(
    control: ControlView,
    window: u32,
    has_keyboard_focus: bool,
    published: u32,
)
    ensures
        published_active_window(Some(window), has_keyboard_focus, control.focus_sink) == window,
        published_active_window(None, true, control.focus_sink) == control.focus_sink,
        published_active_window(None, false, control.focus_sink) == 0,
        active_window_call(control, published).request == (
        crate::xwayland::ewmh::XRequestView::ChangeProperty32 {
            window: control.root,
            property: control.atoms._NET_ACTIVE_WINDOW,
            kind: PropertyType::Window,
            values: seq![published],
        }),
{
}

/// Core focus goes to the window that is asked for, and while an X11 window is
/// active nobody's focus is touched; everything is flushed at the end.
pub proof fn focus_goes_where_it_is_asked_to(window: u32, focus_sink: u32)
    ensures
        focus_calls(window).len() == 2,
        focus_calls(window)[0].request == (crate::xwayland::ewmh::XRequestView::SetInputFocus {
            window,
        }),
        focus_calls(window)[1].request is Flush,
        park_calls(None, focus_sink).len() == 2,
        park_calls(None, focus_sink)[0].request == (
        crate::xwayland::ewmh::XRequestView::SetInputFocus { window: focus_sink }),
        park_calls(None, focus_sink)[1].request is Flush,
        park_calls(Some(window), focus_sink).len() == 1,
        park_calls(Some(window), focus_sink)[0].request is Flush,
{
}

/// An outcome is tolerated exactly when it is no error or the window is gone, and
/// an error that is not tolerated is passed on as it is.
pub proof fn only_gone_windows_are_tolerated(result: Result<(), ReplyError>)
    ensures
        tolerated(result) is Ok <==> result is Ok || result == Err::<(), ReplyError>(
            ReplyError::X11(ErrorKind::Window),
        ),
        tolerated(result) is Err ==> tolerated(result) == result,
{
}

/// The two window states are told apart as ICCCM numbers them.
pub proof fn states_have_their_icccm_numbers(state: IcccmState)
    ensures
        state is Normal <==> state.spec_value() == 1,
        state is Iconic <==> state.spec_value() == 3,
{
}

/// A motion over a popup is refused exactly when there is no XTEST or a
/// coordinate does not fit; else it goes to the rounded coordinates, asking first
/// exactly when that popup is not being dragged.
pub proof fn motions_go_to_the_rounded_point(
    control: ControlView,
    window: u32,
    position: (u64, u64),
)
    ensures
        ({
            let x = crate::xwayland::pointer::rounded(position.0);
            let y = crate::xwayland::pointer::rounded(position.1);
            let motion = popup_motion(control, window, position);
            &&& motion is Refused <==> !(control.root_pointer_available
                && crate::xwayland::pointer::is_finite(position.0)
                && crate::xwayland::pointer::is_finite(position.1) && -32768 <= x <= 32767
                && -32768 <= y <= 32767)
            &&& motion matches PopupMotion::Deliver { x: at_x, y: at_y } ==> at_x == x && at_y == y
                && control.root_pointer_drag == Some(window)
            &&& motion matches PopupMotion::QueryPointer { x: at_x, y: at_y } ==> at_x == x && at_y
                == y && control.root_pointer_drag != Some(window)
        }),
{
}

/// A motion that was sent makes its window the dragged one, one that was not
/// changes nothing, and finishing a drag leaves none; nothing else that is
/// remembered changes.
pub proof fn drags_change_only_the_drag(control: ControlView, window: u32, sent: bool)
    ensures
        sent ==> motion_sent(control, window, sent).root_pointer_drag == Some(window),
        !sent ==> motion_sent(control, window, sent) == control,
        ({
            let after = motion_sent(control, window, sent);
            &&& after.atoms == control.atoms && after.root == control.root && after.focus_sink
                == control.focus_sink
            &&& after.active_window == control.active_window
            &&& after.root_pointer_available == control.root_pointer_available
            &&& after.desktop_geometry == control.desktop_geometry
            &&& after.frame_extents == control.frame_extents
        }),
        ({
            let after = drag_finished(control);
            &&& after.root_pointer_drag is None
            &&& after.atoms == control.atoms && after.root == control.root && after.focus_sink
                == control.focus_sink
            &&& after.active_window == control.active_window
            &&& after.root_pointer_available == control.root_pointer_available
            &&& after.desktop_geometry == control.desktop_geometry
            &&& after.frame_extents == control.frame_extents
        }),
{
}

/// Each thing that is published is remembered by itself: extents by window, the
/// desktop geometry, and the active window, and none disturbs another.
pub proof fn publications_are_remembered_apart(
    control: ControlView,
    window: u32,
    extents: (i32, i32, i32, i32),
    result: Result<(), ReplyError>,
    desktop: (u32, u32),
    work_area: Option<(i32, i32, u32, u32)>,
    active: Option<u32>,
    has_keyboard_focus: bool,
)
    ensures
        ({
            let after = extents_published(control, window, extents, result);
            &&& result is Ok ==> after.frame_extents =~= control.frame_extents.insert(
                window,
                extents,
            )
            &&& result is Err ==> after.frame_extents == control.frame_extents
            &&& after.active_window == control.active_window && after.desktop_geometry
                == control.desktop_geometry && after.root_pointer_drag == control.root_pointer_drag
            &&& after.atoms == control.atoms && after.root == control.root && after.focus_sink
                == control.focus_sink && after.root_pointer_available
                == control.root_pointer_available
        }),
        ({
            let after = window_forgotten(control, window);
            &&& after.frame_extents =~= control.frame_extents.remove(window)
            &&& after.active_window == control.active_window && after.desktop_geometry
                == control.desktop_geometry && after.root_pointer_drag == control.root_pointer_drag
            &&& after.atoms == control.atoms && after.root == control.root && after.focus_sink
                == control.focus_sink && after.root_pointer_available
                == control.root_pointer_available
        }),
        ({
            let after = geometry_published(control, desktop, work_area);
            &&& after.desktop_geometry is Some && after.desktop_geometry->Some_0.desktop == desktop
                && after.desktop_geometry->Some_0.work_area == work_area
            &&& after.frame_extents == control.frame_extents && after.active_window
                == control.active_window && after.root_pointer_drag == control.root_pointer_drag
            &&& after.atoms == control.atoms && after.root == control.root && after.focus_sink
                == control.focus_sink && after.root_pointer_available
                == control.root_pointer_available
        }),
        ({
            let after = active_window_published(control, active, has_keyboard_focus);
            &&& active matches Some(id) ==> after.active_window == Some(id)
            &&& active is None && has_keyboard_focus ==> after.active_window == Some(
                control.focus_sink,
            )
            &&& active is None && !has_keyboard_focus ==> after.active_window == Some(0u32)
            &&& after.frame_extents == control.frame_extents && after.desktop_geometry
                == control.desktop_geometry && after.root_pointer_drag == control.root_pointer_drag
            &&& after.atoms == control.atoms && after.root == control.root && after.focus_sink
                == control.focus_sink && after.root_pointer_available
                == control.root_pointer_available
        }),
{
}

/// The active window is sent exactly when another value, or none, was sent last.
pub proof fn active_windows_are_sent_on_change(
    control: ControlView,
    before: Option<u32>,
    focused_before: bool,
    window: Option<u32>,
    has_keyboard_focus: bool,
)
    ensures
        control.active_window is None ==> active_window_is_due(control, window, has_keyboard_focus),
        active_window_is_due(
            active_window_published(control, before, focused_before),
            window,
            has_keyboard_focus,
        ) <==> published_active_window(before, focused_before, control.focus_sink)
            != published_active_window(window, has_keyboard_focus, control.focus_sink),
{
}

/// A new connection remembers nothing, is not in a drag, and knows its root
/// window, its focus sink and whether XTEST is there.
pub proof fn new_connections_remember_nothing(
    atoms: Atoms,
    root: u32,
    focus_sink: u32,
    available: bool,
    window: u32,
)
    ensures
        ({
            let control = fresh_control(atoms, root, focus_sink, available);
            &&& control.atoms == atoms
            &&& control.root == root
            &&& control.focus_sink == focus_sink
            &&& control.root_pointer_available == available
            &&& control.active_window is None
            &&& control.root_pointer_drag is None
            &&& control.desktop_geometry is None
            &&& !control.frame_extents.contains_key(window)
        }),
{
}

/// While connecting, nothing is created before a window manager and its support
/// window are known; what is published goes to that support window and to the
/// root window, with its size; and the sink is the window that was created.
pub proof fn connecting_carries_its_windows(
    screen: Screen,
    atoms: Atoms,
    from: Connecting,
    reply: ConnectReply,
    to: Connecting,
)
    requires
        connecting_follows(screen, atoms, from, reply, to),
    ensures
        from is Owner && to !is Owner ==> reply is Owner && (to is Support <==> reply->Owner_0 != 0)
            && (to is Support || to is Failed),
        from is Support && to !is Support ==> reply is Property && (to is Sink || to is Failed) && (
        to is Sink ==> to->Sink_support_window == crate::xwayland::ewmh::native_u32(
            reply->value@,
        )),
        from is Sink && to !is Sink ==> to is Geometry && to->Geometry_support_window
            == from->Sink_support_window && reply is Created && to->Geometry_focus_sink
            == reply->window,
        from is Geometry && to !is Geometry ==> to is Publish && to->Publish_focus_sink
            == from->Geometry_focus_sink && {
            let calls = crate::xwayland::ewmh::call_views(to->calls@);
            &&& calls == crate::xwayland::ewmh::ewmh_calls(
                screen.root,
                from->Geometry_support_window,
                reply->width,
                reply->height,
                atoms,
            )
        },
        from is Publish && to !is Publish ==> reply is Published && (to is Pointer
            <==> !screen.emulated_input),
        from is Pointer && to !is Pointer ==> to is Ready && reply is Xtest,
{
}

/// What was not published yet is sent: extents of a window exactly when no equal
/// ones are remembered for it, and the desktop geometry, completely, whenever
/// none or another one is remembered.
pub proof fn what_is_not_remembered_is_sent(
    control: ControlView,
    window: u32,
    extents: (i32, i32, i32, i32),
    desktop: (u32, u32),
    work_area: Option<(i32, i32, u32, u32)>,
)
    ensures
        extents_are_due(control, window, extents) <==> !control.frame_extents.contains_key(window)
            || control.frame_extents[window] != extents,
        desktop_geometry_calls(control, desktop, work_area).len() == 0 <==> (
        control.desktop_geometry is Some && control.desktop_geometry->Some_0.desktop == desktop
            && control.desktop_geometry->Some_0.work_area == work_area),
        desktop_geometry_calls(control, desktop, work_area).len() > 0 ==> desktop_geometry_calls(
            control,
            desktop,
            work_area,
        ) == geometry_calls(control, desktop, work_area),
{
}

} // verus!
