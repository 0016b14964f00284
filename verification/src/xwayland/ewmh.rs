//! The X protocol requests the compositor makes, and the EWMH properties it
//! publishes at start-up.

use vstd::prelude::*;

verus! {

/// The X11 "no resource" identifier.
pub const NONE: u32 = 0;

/// The atoms of the properties and actions the compositor speaks of.
#[allow(non_snake_case)]
#[derive(Clone, Copy, Debug, PartialEq, Eq)]
pub struct Atoms {
    pub UTF8_STRING: u32,
    pub WM_S0: u32,
    pub WM_STATE: u32,
    pub _NET_SUPPORTED: u32,
    pub _NET_SUPPORTING_WM_CHECK: u32,
    pub _NET_WM_NAME: u32,
    pub _NET_ACTIVE_WINDOW: u32,
    pub _NET_CLIENT_LIST: u32,
    pub _NET_CLIENT_LIST_STACKING: u32,
    pub _NET_NUMBER_OF_DESKTOPS: u32,
    pub _NET_CURRENT_DESKTOP: u32,
    pub _NET_DESKTOP_GEOMETRY: u32,
    pub _NET_DESKTOP_VIEWPORT: u32,
    pub _NET_WORKAREA: u32,
    pub _NET_WM_MOVERESIZE: u32,
    pub _NET_WM_STATE: u32,
    pub _NET_WM_STATE_MAXIMIZED_VERT: u32,
    pub _NET_WM_STATE_MAXIMIZED_HORZ: u32,
    pub _NET_WM_STATE_HIDDEN: u32,
    pub _NET_WM_STATE_FULLSCREEN: u32,
    pub _NET_WM_STATE_DEMANDS_ATTENTION: u32,
    pub _NET_WM_STATE_FOCUSED: u32,
    pub _NET_WM_STATE_SKIP_TASKBAR: u32,
    pub _NET_WM_STATE_SKIP_PAGER: u32,
    pub _NET_WM_ALLOWED_ACTIONS: u32,
    pub _NET_FRAME_EXTENTS: u32,
    pub _NET_WM_ACTION_MOVE: u32,
    pub _NET_WM_ACTION_RESIZE: u32,
    pub _NET_WM_ACTION_MINIMIZE: u32,
    pub _NET_WM_ACTION_MAXIMIZE_HORZ: u32,
    pub _NET_WM_ACTION_MAXIMIZE_VERT: u32,
    pub _NET_WM_ACTION_FULLSCREEN: u32,
}

/// The type of a window property.
#[derive(Clone, Copy, Debug, PartialEq, Eq, Structural)]
pub enum PropertyType {
    Cardinal,
    Atom,
    Window,
    /// The type named by an interned atom.
    Interned(u32),
}

/// One X protocol request.
#[derive(Clone, Debug, PartialEq, Eq)]
pub enum XRequest {
    /// Replace a property by 32-bit values.
    ChangeProperty32 { window: u32, property: u32, kind: PropertyType, values: Vec<u32> },
    /// Replace a property by bytes.
    ChangeProperty8 { window: u32, property: u32, kind: PropertyType, bytes: Vec<u8> },
    /// Delete a property.
    DeleteProperty { window: u32, property: u32 },
    /// Create an input-output, override-redirect child of `parent`.
    CreateWindow {
        window: u32,
        parent: u32,
        depth: u8,
        x: i16,
        y: i16,
        width: u16,
        height: u16,
        border: u16,
    },
    /// Map a window.
    MapWindow { window: u32 },
    /// Give core input focus to a window, at the current time and with nothing
    /// to revert to.
    SetInputFocus { window: u32 },
    /// Flush the connection.
    Flush,
}

/// An X protocol request with its data as sequences.
#[verifier::ext_equal]
pub enum XRequestView {
    ChangeProperty32 { window: u32, property: u32, kind: PropertyType, values: Seq<u32> },
    ChangeProperty8 { window: u32, property: u32, kind: PropertyType, bytes: Seq<u8> },
    DeleteProperty { window: u32, property: u32 },
    CreateWindow {
        window: u32,
        parent: u32,
        depth: u8,
        x: i16,
        y: i16,
        width: u16,
        height: u16,
        border: u16,
    },
    MapWindow { window: u32 },
    SetInputFocus { window: u32 },
    Flush,
}

impl View for XRequest {
    type V = XRequestView;

    open spec fn view(&self) -> XRequestView {
        match *self {
            XRequest::ChangeProperty32 { window, property, kind, values } => {
                XRequestView::ChangeProperty32 { window, property, kind, values: values@ }
            },
            XRequest::ChangeProperty8 { window, property, kind, bytes } => {
                XRequestView::ChangeProperty8 { window, property, kind, bytes: bytes@ }
            },
            XRequest::DeleteProperty { window, property } => XRequestView::DeleteProperty {
                window,
                property,
            },
            XRequest::CreateWindow { window, parent, depth, x, y, width, height, border } => {
                XRequestView::CreateWindow { window, parent, depth, x, y, width, height, border }
            },
            XRequest::MapWindow { window } => XRequestView::MapWindow { window },
            XRequest::SetInputFocus { window } => XRequestView::SetInputFocus { window },
            XRequest::Flush => XRequestView::Flush,
        }
    }
}

/// A request and whether to wait for the server to confirm it.
#[derive(Clone, Debug, PartialEq, Eq)]
pub struct XCall {
    pub request: XRequest,
    pub checked: bool,
}

/// A call with its data as sequences.
#[verifier::ext_equal]
pub struct XCallView {
    pub request: XRequestView,
    pub checked: bool,
}

impl View for XCall {
    type V = XCallView;

    open spec fn view(&self) -> XCallView {
        XCallView { request: self.request@, checked: self.checked }
    }
}

/// The views of a list of calls.
pub open spec fn call_views(calls: Seq<XCall>) -> Seq<XCallView> {
    calls.map_values(|c: XCall| c@)
}

/// A request that is queued without waiting.
pub open spec fn queued(request: XRequestView) -> XCallView {
    XCallView { request, checked: false }
}

/// A request whose confirmation is waited for.
pub open spec fn checked(request: XRequestView) -> XCallView {
    XCallView { request, checked: true }
}

/// A queued replacement of a property by 32-bit values.
pub open spec fn replace32(window: u32, property: u32, kind: PropertyType, values: Seq<u32>) -> XCallView {
    queued(XRequestView::ChangeProperty32 { window, property, kind, values })
}

pub(crate) fn change32(window: u32, property: u32, kind: PropertyType, values: Vec<u32>) -> (res: XCall)
    ensures
        res@ == replace32(window, property, kind, values@),
{
    XCall {
        request: XRequest::ChangeProperty32 { window, property, kind, values },
        checked: false,
    }
}

pub(crate) fn queue(request: XRequest) -> (res: XCall)
    ensures
        res@ == queued(request@),
{
    XCall { request, checked: false }
}

pub(crate) fn check(request: XRequest) -> (res: XCall)
    ensures
        res@ == checked(request@),
{
    XCall { request, checked: true }
}

/// What `_NET_SUPPORTED` lists: only behaviour the compositor implements.
pub open spec fn supported_atoms(atoms: Atoms) -> Seq<u32> {
    seq![
        atoms._NET_SUPPORTED,
        atoms._NET_SUPPORTING_WM_CHECK,
        atoms._NET_WM_NAME,
        atoms._NET_ACTIVE_WINDOW,
        atoms._NET_CLIENT_LIST,
        atoms._NET_CLIENT_LIST_STACKING,
        atoms._NET_NUMBER_OF_DESKTOPS,
        atoms._NET_CURRENT_DESKTOP,
        atoms._NET_DESKTOP_GEOMETRY,
        atoms._NET_DESKTOP_VIEWPORT,
        atoms._NET_WORKAREA,
        atoms._NET_WM_MOVERESIZE,
        atoms._NET_WM_STATE,
        atoms._NET_WM_STATE_MAXIMIZED_VERT,
        atoms._NET_WM_STATE_MAXIMIZED_HORZ,
        atoms._NET_WM_STATE_HIDDEN,
        atoms._NET_WM_STATE_FULLSCREEN,
        atoms._NET_WM_STATE_DEMANDS_ATTENTION,
        atoms._NET_WM_STATE_FOCUSED,
        atoms._NET_WM_STATE_SKIP_TASKBAR,
        atoms._NET_WM_STATE_SKIP_PAGER,
        atoms._NET_WM_ALLOWED_ACTIONS,
        atoms._NET_FRAME_EXTENTS,
        atoms._NET_WM_ACTION_MOVE,
        atoms._NET_WM_ACTION_RESIZE,
        atoms._NET_WM_ACTION_MINIMIZE,
        atoms._NET_WM_ACTION_MAXIMIZE_HORZ,
        atoms._NET_WM_ACTION_MAXIMIZE_VERT,
        atoms._NET_WM_ACTION_FULLSCREEN,
    ]
}

/// The name the window manager goes by, as UTF-8.
pub open spec fn wm_name() -> Seq<u8> {
    seq![72u8, 97u8, 108u8, 108u8, 101u8, 121u8]
}

/// The properties published at start-up, in order.
pub open spec fn ewmh_calls(
    root: u32,
    support_window: u32,
    width: u16,
    height: u16,
    atoms: Atoms,
) -> Seq<XCallView> {
    seq![
        queued(
            XRequestView::ChangeProperty8 {
                window: support_window,
                property: atoms._NET_WM_NAME,
                kind: PropertyType::Interned(atoms.UTF8_STRING),
                bytes: wm_name(),
            },
        ),
        replace32(root, atoms._NET_SUPPORTED, PropertyType::Atom, supported_atoms(atoms)),
        replace32(root, atoms._NET_NUMBER_OF_DESKTOPS, PropertyType::Cardinal, seq![1u32]),
        replace32(root, atoms._NET_CURRENT_DESKTOP, PropertyType::Cardinal, seq![0u32]),
        replace32(
            root,
            atoms._NET_DESKTOP_GEOMETRY,
            PropertyType::Cardinal,
            seq![width as u32, height as u32],
        ),
        replace32(root, atoms._NET_DESKTOP_VIEWPORT, PropertyType::Cardinal, seq![0u32, 0u32]),
        replace32(
            root,
            atoms._NET_WORKAREA,
            PropertyType::Cardinal,
            seq![0u32, 0u32, width as u32, height as u32],
        ),
    ]
}

fn supported(atoms: &Atoms) -> (res: Vec<u32>)
    ensures
        res@ == supported_atoms(*atoms),
{
    let res = vec![
        atoms._NET_SUPPORTED,
        atoms._NET_SUPPORTING_WM_CHECK,
        atoms._NET_WM_NAME,
        atoms._NET_ACTIVE_WINDOW,
        atoms._NET_CLIENT_LIST,
        atoms._NET_CLIENT_LIST_STACKING,
        atoms._NET_NUMBER_OF_DESKTOPS,
        atoms._NET_CURRENT_DESKTOP,
        atoms._NET_DESKTOP_GEOMETRY,
        atoms._NET_DESKTOP_VIEWPORT,
        atoms._NET_WORKAREA,
        atoms._NET_WM_MOVERESIZE,
        atoms._NET_WM_STATE,
        atoms._NET_WM_STATE_MAXIMIZED_VERT,
        atoms._NET_WM_STATE_MAXIMIZED_HORZ,
        atoms._NET_WM_STATE_HIDDEN,
        atoms._NET_WM_STATE_FULLSCREEN,
        atoms._NET_WM_STATE_DEMANDS_ATTENTION,
        atoms._NET_WM_STATE_FOCUSED,
        atoms._NET_WM_STATE_SKIP_TASKBAR,
        atoms._NET_WM_STATE_SKIP_PAGER,
        atoms._NET_WM_ALLOWED_ACTIONS,
        atoms._NET_FRAME_EXTENTS,
        atoms._NET_WM_ACTION_MOVE,
        atoms._NET_WM_ACTION_RESIZE,
        atoms._NET_WM_ACTION_MINIMIZE,
        atoms._NET_WM_ACTION_MAXIMIZE_HORZ,
        atoms._NET_WM_ACTION_MAXIMIZE_VERT,
        atoms._NET_WM_ACTION_FULLSCREEN,
    ];
    assert(res@ == supported_atoms(*atoms));
    res
}

/// The calls that publish the compositor's EWMH support on a root window of
/// `width` by `height`.
pub fn publish_ewmh(
    root: u32,
    support_window: u32,
    width: u16,
    height: u16,
    atoms: &Atoms,
) -> (res: Vec<XCall>)
    ensures
        call_views(res@) == ewmh_calls(root, support_window, width, height, *atoms),
{
    let name: Vec<u8> = vec![72, 97, 108, 108, 101, 121];
    let one: Vec<u32> = vec![1];
    let zero: Vec<u32> = vec![0];
    let geometry: Vec<u32> = vec![width as u32, height as u32];
    let viewport: Vec<u32> = vec![0, 0];
    let work_area: Vec<u32> = vec![0, 0, width as u32, height as u32];
    assert(name@ == wm_name());
    assert(one@ == seq![1u32]);
    assert(zero@ == seq![0u32]);
    assert(geometry@ == seq![width as u32, height as u32]);
    assert(viewport@ == seq![0u32, 0u32]);
    assert(work_area@ == seq![0u32, 0u32, width as u32, height as u32]);
    let res = vec![
        queue(
            XRequest::ChangeProperty8 {
                window: support_window,
                property: atoms._NET_WM_NAME,
                kind: PropertyType::Interned(atoms.UTF8_STRING),
                bytes: name,
            },
        ),
        change32(root, atoms._NET_SUPPORTED, PropertyType::Atom, supported(atoms)),
        change32(root, atoms._NET_NUMBER_OF_DESKTOPS, PropertyType::Cardinal, one),
        change32(root, atoms._NET_CURRENT_DESKTOP, PropertyType::Cardinal, zero),
        change32(root, atoms._NET_DESKTOP_GEOMETRY, PropertyType::Cardinal, geometry),
        change32(root, atoms._NET_DESKTOP_VIEWPORT, PropertyType::Cardinal, viewport),
        change32(root, atoms._NET_WORKAREA, PropertyType::Cardinal, work_area),
    ];
    assert(call_views(res@) == ewmh_calls(root, support_window, width, height, *atoms));
    res
}

/// The first four bytes of `value` as a 32-bit number in the byte order of the
/// machine.
pub open spec fn native_u32(value: Seq<u8>) -> nat {
    match vstd::endian::endianness() {
        vstd::endian::Endian::Little => (value[0] + 256 * value[1] + 65536 * value[2] + 16777216
            * value[3]) as nat,
        vstd::endian::Endian::Big => (16777216 * value[0] + 65536 * value[1] + 256 * value[2]
            + value[3]) as nat,
    }
}

/// The first value of a property of `format` that holds `value`: there is one
/// exactly when the property has the 32-bit format and at least four bytes.
pub open spec fn first_of_property(format: u8, value: Seq<u8>) -> Option<u32> {
    if format == 32 && value.len() >= 4 {
        Some(native_u32(value) as u32)
    } else {
        None
    }
}

/// The first value of a property reply, by
/// `x11rb::protocol::xproto::GetPropertyReply::value32`: there is one exactly
/// when the property has the 32-bit format and holds at least four bytes, and it
/// is those four bytes in the byte order of the machine.
#[verifier::external_body]
fn first_value32(format: u8, value: &Vec<u8>) -> (res: Option<u32>)
    ensures
        res == first_of_property(format, value@),
{
    x11rb::protocol::xproto::GetPropertyReply {
        format,
        value: value.clone(),
        ..Default::default()
    }.value32().and_then(|mut values| values.next())
}

/// Whether a `_NET_SUPPORTING_WM_CHECK` reply names a window.
pub open spec fn names_support_window(format: u8, value: Seq<u8>) -> bool {
    format == 32 && value.len() >= 4 && native_u32(value) != NONE
}

/// The message when the window manager published no support window.
pub open spec fn no_support_window() -> Seq<char> {
    "Smithay XWM did not publish _NET_SUPPORTING_WM_CHECK"@
}

/// The window manager's support window, from the format and the bytes of its
/// `_NET_SUPPORTING_WM_CHECK` property.
pub fn supporting_wm_window(format: u8, value: &Vec<u8>) -> (res: Result<u32, String>)
    ensures
        res is Ok <==> names_support_window(format, value@),
        res matches Ok(window) ==> window == native_u32(value@),
        res matches Err(message) ==> message@ == no_support_window(),
{
    if let Some(window) = first_value32(format, value) {
        if window != NONE {
            return Ok(window);
        }
    }
    Err("Smithay XWM did not publish _NET_SUPPORTING_WM_CHECK".to_owned())
}

/// The calls that create the off-screen window core focus is parked on.
pub open spec fn focus_sink_calls(root: u32, root_depth: u8, window: u32) -> Seq<XCallView> {
    seq![
        checked(
            XRequestView::CreateWindow {
                window,
                parent: root,
                depth: root_depth,
                x: -1i16,
                y: -1i16,
                width: 1,
                height: 1,
                border: 0,
            },
        ),
        checked(XRequestView::MapWindow { window }),
    ]
}

/// Creates the window that holds core focus while no X11 window is active.
///
/// Unlike the window manager's support window, this window is observed by the
/// window manager, so focusing it produces an ordered pair of focus events.
pub fn create_focus_sink(root: u32, root_depth: u8, window: u32) -> (res: Vec<XCall>)
    ensures
        call_views(res@) == focus_sink_calls(root, root_depth, window),
{
    let res = vec![
        check(
            XRequest::CreateWindow {
                window,
                parent: root,
                depth: root_depth,
                x: -1,
                y: -1,
                width: 1,
                height: 1,
                border: 0,
            },
        ),
        check(XRequest::MapWindow { window }),
    ];
    assert(call_views(res@) == focus_sink_calls(root, root_depth, window));
    res
}

/// The call writes `values` to a property without waiting.
pub open spec fn writes(
    call: XCallView,
    window: u32,
    property: u32,
    kind: PropertyType,
    values: Seq<u32>,
) -> bool {
    &&& !call.checked
    &&& call.request is ChangeProperty32
    &&& call.request->ChangeProperty32_window == window
    &&& call.request->ChangeProperty32_property == property
    &&& call.request->ChangeProperty32_kind == kind
    &&& call.request->values == values
}

/// At start-up the support window gets the compositor's name, and the root window
/// what is supported, one desktop that is the current one, the size of the root
/// window as the desktop geometry, a viewport at the origin, and the whole root
/// window as the work area. Nothing else is written, and none of it is waited
/// for.
pub proof fn the_root_window_is_described(
    root: u32,
    support_window: u32,
    width: u16,
    height: u16,
    atoms: Atoms,
)
    ensures
        ({
            let calls = ewmh_calls(root, support_window, width, height, atoms);
            let cardinal = PropertyType::Cardinal;
            &&& calls.len() == 7
            &&& !calls[0].checked
            &&& calls[0].request == (XRequestView::ChangeProperty8 {
                window: support_window,
                property: atoms._NET_WM_NAME,
                kind: PropertyType::Interned(atoms.UTF8_STRING),
                bytes: seq![72u8, 97u8, 108u8, 108u8, 101u8, 121u8],
            })
            &&& writes(
                calls[1],
                root,
                atoms._NET_SUPPORTED,
                PropertyType::Atom,
                supported_atoms(atoms),
            )
            &&& writes(calls[2], root, atoms._NET_NUMBER_OF_DESKTOPS, cardinal, seq![1u32])
            &&& writes(calls[3], root, atoms._NET_CURRENT_DESKTOP, cardinal, seq![0u32])
            &&& writes(
                calls[4],
                root,
                atoms._NET_DESKTOP_GEOMETRY,
                cardinal,
                seq![width as u32, height as u32],
            )
            &&& writes(calls[5], root, atoms._NET_DESKTOP_VIEWPORT, cardinal, seq![0u32, 0u32])
            &&& writes(
                calls[6],
                root,
                atoms._NET_WORKAREA,
                cardinal,
                seq![0u32, 0u32, width as u32, height as u32],
            )
        }),
{
}

/// Everything the compositor implements is listed as supported, and nothing
/// beyond it: not the types, the selection and the state that are no EWMH hints.
pub proof fn every_implemented_hint_is_supported(atoms: Atoms, atom: u32)
    ensures
        supported_atoms(atoms).len() == 29,
        supported_atoms(atoms).contains(atom) <==> {
            ||| atom == atoms._NET_SUPPORTED
            ||| atom == atoms._NET_SUPPORTING_WM_CHECK
            ||| atom == atoms._NET_WM_NAME
            ||| atom == atoms._NET_ACTIVE_WINDOW
            ||| atom == atoms._NET_CLIENT_LIST
            ||| atom == atoms._NET_CLIENT_LIST_STACKING
            ||| atom == atoms._NET_NUMBER_OF_DESKTOPS
            ||| atom == atoms._NET_CURRENT_DESKTOP
            ||| atom == atoms._NET_DESKTOP_GEOMETRY
            ||| atom == atoms._NET_DESKTOP_VIEWPORT
            ||| atom == atoms._NET_WORKAREA
            ||| atom == atoms._NET_WM_MOVERESIZE
            ||| atom == atoms._NET_WM_STATE
            ||| atom == atoms._NET_WM_STATE_MAXIMIZED_VERT
            ||| atom == atoms._NET_WM_STATE_MAXIMIZED_HORZ
            ||| atom == atoms._NET_WM_STATE_HIDDEN
            ||| atom == atoms._NET_WM_STATE_FULLSCREEN
            ||| atom == atoms._NET_WM_STATE_DEMANDS_ATTENTION
            ||| atom == atoms._NET_WM_STATE_FOCUSED
            ||| atom == atoms._NET_WM_STATE_SKIP_TASKBAR
            ||| atom == atoms._NET_WM_STATE_SKIP_PAGER
            ||| atom == atoms._NET_WM_ALLOWED_ACTIONS
            ||| atom == atoms._NET_FRAME_EXTENTS
            ||| atom == atoms._NET_WM_ACTION_MOVE
            ||| atom == atoms._NET_WM_ACTION_RESIZE
            ||| atom == atoms._NET_WM_ACTION_MINIMIZE
            ||| atom == atoms._NET_WM_ACTION_MAXIMIZE_HORZ
            ||| atom == atoms._NET_WM_ACTION_MAXIMIZE_VERT
            ||| atom == atoms._NET_WM_ACTION_FULLSCREEN
        },
{
    let all = supported_atoms(atoms);
    assert(all[0] == atoms._NET_SUPPORTED && all[1] == atoms._NET_SUPPORTING_WM_CHECK && all[2]
        == atoms._NET_WM_NAME && all[3] == atoms._NET_ACTIVE_WINDOW && all[4]
        == atoms._NET_CLIENT_LIST && all[5] == atoms._NET_CLIENT_LIST_STACKING && all[6]
        == atoms._NET_NUMBER_OF_DESKTOPS && all[7] == atoms._NET_CURRENT_DESKTOP && all[8]
        == atoms._NET_DESKTOP_GEOMETRY && all[9] == atoms._NET_DESKTOP_VIEWPORT && all[10]
        == atoms._NET_WORKAREA && all[11] == atoms._NET_WM_MOVERESIZE && all[12]
        == atoms._NET_WM_STATE && all[13] == atoms._NET_WM_STATE_MAXIMIZED_VERT && all[14]
        == atoms._NET_WM_STATE_MAXIMIZED_HORZ && all[15] == atoms._NET_WM_STATE_HIDDEN && all[16]
        == atoms._NET_WM_STATE_FULLSCREEN && all[17] == atoms._NET_WM_STATE_DEMANDS_ATTENTION
        && all[18] == atoms._NET_WM_STATE_FOCUSED && all[19] == atoms._NET_WM_STATE_SKIP_TASKBAR
        && all[20] == atoms._NET_WM_STATE_SKIP_PAGER && all[21] == atoms._NET_WM_ALLOWED_ACTIONS
        && all[22] == atoms._NET_FRAME_EXTENTS && all[23] == atoms._NET_WM_ACTION_MOVE && all[24]
        == atoms._NET_WM_ACTION_RESIZE && all[25] == atoms._NET_WM_ACTION_MINIMIZE && all[26]
        == atoms._NET_WM_ACTION_MAXIMIZE_HORZ && all[27] == atoms._NET_WM_ACTION_MAXIMIZE_VERT
        && all[28] == atoms._NET_WM_ACTION_FULLSCREEN);
}

/// The focus sink is created as a child of the root window of its depth, outside
/// the screen and as small as a window can be, and then mapped; both are waited
/// for.
pub proof fn focus_sinks_are_created_then_mapped(root: u32, root_depth: u8, window: u32)
    ensures
        ({
            let calls = focus_sink_calls(root, root_depth, window);
            &&& calls.len() == 2
            &&& calls[0].checked && calls[1].checked
            &&& calls[0].request is CreateWindow
            &&& calls[0].request->CreateWindow_window == window
            &&& calls[0].request->parent == root
            &&& calls[0].request->depth == root_depth
            &&& calls[0].request->x + calls[0].request->width as int <= 0
            &&& calls[0].request->y + calls[0].request->height as int <= 0
            &&& calls[0].request->x == -1 && calls[0].request->y == -1
            &&& calls[0].request->border == 0
            &&& calls[1].request == (XRequestView::MapWindow { window })
        }),
{
}

proof fn digits_to_the_base_256(a: int, b: int, c: int, d: int)
    requires
        0 <= a < 256,
        0 <= b < 256,
        0 <= c < 256,
        0 <= d < 256,
    ensures
        ({
            let n = a + 256 * b + 65536 * c + 16777216 * d;
            &&& n % 256 == a
            &&& n / 256 % 256 == b
            &&& n / 65536 % 256 == c
            &&& n / 16777216 == d
        }),
{
    let n = a + 256 * b + 65536 * c + 16777216 * d;
    let high = b + 256 * c + 65536 * d;
    let higher = c + 256 * d;
    assert(n == a + 256 * high);
    assert(n % 256 == a);
    assert(n / 256 == high);
    assert(high == b + 256 * higher);
    assert(high % 256 == b);
    assert(n == a + 256 * b + 65536 * higher);
    assert(n / 65536 == higher);
    assert(higher % 256 == c);
    assert(n / 16777216 == d);
}

/// A number is read from its first four bytes alone, each of which is a digit of
/// it to the base 256: the lowest first on a little-endian machine, the highest
/// first on a big-endian one.
pub proof fn numbers_are_read_byte_by_byte(value: Seq<u8>)
    requires
        value.len() >= 4,
    ensures
        vstd::endian::endianness() is Little ==> {
            &&& native_u32(value) % 256 == value[0]
            &&& native_u32(value) / 256 % 256 == value[1]
            &&& native_u32(value) / 65536 % 256 == value[2]
            &&& native_u32(value) / 16777216 == value[3]
        },
        vstd::endian::endianness() is Big ==> {
            &&& native_u32(value) % 256 == value[3]
            &&& native_u32(value) / 256 % 256 == value[2]
            &&& native_u32(value) / 65536 % 256 == value[1]
            &&& native_u32(value) / 16777216 == value[0]
        },
{
    digits_to_the_base_256(value[0] as int, value[1] as int, value[2] as int, value[3] as int);
    digits_to_the_base_256(value[3] as int, value[2] as int, value[1] as int, value[0] as int);
}

/// A reply names a support window exactly when it holds a 32-bit number that is
/// not zero, that is, when one of its first four bytes is not zero.
pub proof fn support_windows_are_nonzero(format: u8, value: Seq<u8>)
    ensures
        names_support_window(format, value) <==> format == 32 && value.len() >= 4 && !(value[0] == 0
            && value[1] == 0 && value[2] == 0 && value[3] == 0),
{
}

} // verus!
