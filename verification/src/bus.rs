//! Names and errors of the D-Bus session bus.

use vstd::prelude::*;

verus! {

/// Why a call on the bus is refused.
#[derive(Debug, PartialEq, Eq)]
pub enum BusError {
    /// The caller may not do this.
    AccessDenied(String),
    /// The call failed.
    Failed(String),
    /// The bus could not be reached.
    Unreachable(String),
}

/// A bus error with its message as characters.
pub enum BusErrorView {
    AccessDenied(Seq<char>),
    Failed(Seq<char>),
    Unreachable(Seq<char>),
}

impl View for BusError {
    type V = BusErrorView;

    open spec fn view(&self) -> BusErrorView {
        match *self {
            BusError::AccessDenied(message) => BusErrorView::AccessDenied(message@),
            BusError::Failed(message) => BusErrorView::Failed(message@),
            BusError::Unreachable(message) => BusErrorView::Unreachable(message@),
        }
    }
}

/// A bus name or the reason why there is none, as characters.
pub open spec fn name_result(result: Result<String, BusError>) -> Result<Seq<char>, BusErrorView> {
    match result {
        Ok(name) => Ok(name@),
        Err(error) => Err(error@),
    }
}

/// A character that an element of a well-known name may begin with.
pub open spec fn begins_element(c: char) -> bool {
    ('a' <= c && c <= 'z') || ('A' <= c && c <= 'Z') || c == '_' || c == '-'
}

/// Whether the character at `i` begins an element of a dotted name.
pub open spec fn at_element(name: Seq<char>, i: int) -> bool {
    i == 0 || name[i - 1] == '.'
}

/// A well-known bus name: at least two elements, joined by dots, of letters,
/// digits, underscores and hyphens, none empty or beginning with a digit, and at
/// most 255 characters in all.
pub open spec fn well_known(name: Seq<char>) -> bool {
    &&& 0 < name.len() <= 255
    &&& name.contains('.')
    &&& name.last() != '.'
    &&& forall|i: int|
        0 <= i < name.len() ==> {
            let c = #[trigger] name[i];
            if at_element(name, i) {
                begins_element(c)
            } else {
                begins_element(c) || ('0' <= c && c <= '9') || c == '.'
            }
        }
}

/// The message when a name is no well-known name.
pub open spec fn not_well_known() -> Seq<char> {
    "Invalid well-known name. See https://dbus.freedesktop.org/doc/dbus-specification.html#message-protocol-names-bus"@
}

/// The message when `name` is no well-known name, or `None` when it is one.
pub open spec fn well_known_refusal(name: Seq<char>) -> Option<Seq<char>> {
    if well_known(name) {
        None
    } else {
        Some(not_well_known())
    }
}

/// Why `name` is no well-known bus name, or `None` when it is one, by
/// `zbus::names::WellKnownName::try_from`: it accepts exactly two or more
/// non-empty elements of ASCII letters, digits, underscores and hyphens, none
/// beginning with a digit, joined by dots, of at most 255 bytes in all; every
/// other name gets the same message.
#[verifier::external_body]
pub(crate) fn well_known_name_error(name: &str) -> (res: Option<String>)
    ensures
        crate::text::optional_text(res) == well_known_refusal(name@),
{
    zbus::names::WellKnownName::try_from(name).err().map(|err| err.to_string())
}

} // verus!
