//! D-Bus caller authorization used by accessibility services.

use vstd::prelude::*;

use crate::bus::{well_known_name_error, BusError};
use crate::text::{begins_with_colon, same_text};

verus! {

/// The environment variable that pins the approved connection.
pub fn approval_variable() -> (res: &'static str)
    ensures
        res@ == "HALLEY_ACCESSIBILITY_MONITOR"@,
{
    "HALLEY_ACCESSIBILITY_MONITOR"
}

/// The message when a connection was not approved.
pub open spec fn not_approved() -> Seq<char> {
    "keyboard monitoring requires an explicitly approved unique D-Bus connection in HALLEY_ACCESSIBILITY_MONITOR"@
}

/// The message when a call has no sender.
pub open spec fn missing_sender() -> Seq<char> {
    "missing D-Bus sender"@
}

/// Whether `sender` may act as the owner of the authorized name, who is `owner`.
pub open spec fn ownership(sender: Seq<char>, owner: Seq<char>, denial: Seq<char>) -> Result<
    Seq<char>,
    crate::bus::BusErrorView,
> {
    if sender == owner {
        Ok(owner)
    } else {
        Err(crate::bus::BusErrorView::AccessDenied(denial))
    }
}

/// `approved` names the unique connection `owner`.
pub open spec fn is_approved(owner: Seq<char>, approved: Option<Seq<char>>) -> bool {
    match approved {
        Some(name) => crate::text::begins_with(name, ':') && name == owner,
        None => false,
    }
}

/// Accepts a sender that is the owner of the authorized name.
pub fn authorized_name_owner(sender: &str, owner: String, denial: &str) -> (res: Result<
    String,
    BusError,
>)
    ensures
        crate::bus::name_result(res) == ownership(sender@, owner@, denial@),
{
    if !same_text(sender, owner.as_str()) {
        return Err(BusError::AccessDenied(denial.to_owned()));
    }
    Ok(owner)
}

/// Accepts a connection that the user pinned by its unique name.
///
/// A well-known name is freely claimable, so it is no approval.
pub fn require_approved_connection(owner: &str, approved: Option<&str>) -> (res: Result<
    (),
    BusError,
>)
    ensures
        match res {
            Ok(()) => approved is Some && is_approved(owner@, Some(approved->Some_0@)),
            Err(error) => !(approved is Some && is_approved(owner@, Some(approved->Some_0@)))
                && error@ == crate::bus::BusErrorView::AccessDenied(not_approved()),
        },
{
    let pinned = match approved {
        Some(name) => begins_with_colon(name) && same_text(name, owner),
        None => false,
    };
    if pinned {
        Ok(())
    } else {
        Err(
            BusError::AccessDenied(
                "keyboard monitoring requires an explicitly approved unique D-Bus connection in HALLEY_ACCESSIBILITY_MONITOR".to_owned(),
            ),
        )
    }
}

/// How far authorizing a caller has come, and what is asked for next.
#[derive(Debug, PartialEq, Eq)]
pub enum Authorizing {
    /// Reach the bus.
    Bus { sender: String },
    /// Ask the bus who owns the authorized name.
    Owner { sender: String },
    /// Read the approval.
    Approval { owner: String },
    /// The caller is authorized, or not.
    Settled(Result<String, BusError>),
}

/// What was answered.
#[derive(Debug, PartialEq, Eq)]
pub enum Answer {
    Bus(Result<(), String>),
    Owner(Option<String>),
    Approval(Option<String>),
}

/// How far authorizing has come, with its names as characters.
pub enum AuthorizingView {
    Bus { sender: Seq<char> },
    Owner { sender: Seq<char> },
    Approval { owner: Seq<char> },
    Settled(Result<Seq<char>, crate::bus::BusErrorView>),
}

/// What was answered, with its names as characters.
pub enum AnswerView {
    Bus(Option<Seq<char>>),
    Owner(Option<Seq<char>>),
    Approval(Option<Seq<char>>),
}

impl View for Authorizing {
    type V = AuthorizingView;

    open spec fn view(&self) -> AuthorizingView {
        match *self {
            Authorizing::Bus { sender } => AuthorizingView::Bus { sender: sender@ },
            Authorizing::Owner { sender } => AuthorizingView::Owner { sender: sender@ },
            Authorizing::Approval { owner } => AuthorizingView::Approval { owner: owner@ },
            Authorizing::Settled(result) => AuthorizingView::Settled(
                crate::bus::name_result(result),
            ),
        }
    }
}

impl View for Answer {
    type V = AnswerView;

    open spec fn view(&self) -> AnswerView {
        match *self {
            Answer::Bus(reached) => AnswerView::Bus(
                match reached {
                    Ok(()) => None,
                    Err(why) => Some(why@),
                },
            ),
            Answer::Owner(owner) => AnswerView::Owner(crate::text::optional_text(owner)),
            Answer::Approval(name) => AnswerView::Approval(crate::text::optional_text(name)),
        }
    }
}

/// Where authorizing a call from `sender` begins.
pub open spec fn beginning(sender: Option<Seq<char>>) -> AuthorizingView {
    match sender {
        Some(name) => AuthorizingView::Bus { sender: name },
        None => AuthorizingView::Settled(
            Err(crate::bus::BusErrorView::AccessDenied(missing_sender())),
        ),
    }
}

/// What follows `from` when `answer` comes. An answer to anything but the
/// question asked leads nowhere.
pub open spec fn next(
    from: AuthorizingView,
    answer: AnswerView,
    authorized_name: Seq<char>,
    denial: Seq<char>,
) -> AuthorizingView {
    match (from, answer) {
        (AuthorizingView::Bus { sender }, AnswerView::Bus(failure)) => match failure {
            Some(why) => AuthorizingView::Settled(Err(crate::bus::BusErrorView::Failed(why))),
            None => match crate::bus::well_known_refusal(authorized_name) {
                Some(why) => AuthorizingView::Settled(Err(crate::bus::BusErrorView::Failed(why))),
                None => AuthorizingView::Owner { sender },
            },
        },
        (AuthorizingView::Owner { sender }, AnswerView::Owner(known)) => match known {
            None => AuthorizingView::Settled(Err(crate::bus::BusErrorView::AccessDenied(denial))),
            Some(owner) => match ownership(sender, owner, denial) {
                Ok(accepted) => AuthorizingView::Approval { owner: accepted },
                Err(error) => AuthorizingView::Settled(Err(error)),
            },
        },
        (AuthorizingView::Approval { owner }, AnswerView::Approval(approved)) => if is_approved(
            owner,
            approved,
        ) {
            AuthorizingView::Settled(Ok(owner))
        } else {
            AuthorizingView::Settled(
                Err(crate::bus::BusErrorView::AccessDenied(not_approved())),
            )
        },
        _ => from,
    }
}

/// Begins to authorize a call: the sender has to own the authorized name and to
/// be the approved connection.
pub fn require_name_owner(sender: Option<String>) -> (res: Authorizing)
    ensures
        res@ == beginning(crate::text::optional_text(sender)),
{
    match sender {
        Some(sender) => Authorizing::Bus { sender },
        None => Authorizing::Settled(
            Err(BusError::AccessDenied("missing D-Bus sender".to_owned())),
        ),
    }
}

/// Goes on with what was answered.
pub fn authorize(
    progress: Authorizing,
    answer: Answer,
    authorized_name: &str,
    denial: &str,
) -> (res: Authorizing)
    ensures
        res@ == next(progress@, answer@, authorized_name@, denial@),
{
    match (progress, answer) {
        (Authorizing::Bus { sender }, Answer::Bus(reached)) => match reached {
            Err(why) => Authorizing::Settled(Err(BusError::Failed(why))),
            Ok(()) => match well_known_name_error(authorized_name) {
                Some(why) => Authorizing::Settled(Err(BusError::Failed(why))),
                None => Authorizing::Owner { sender },
            },
        },
        (Authorizing::Owner { sender }, Answer::Owner(known)) => match known {
            None => Authorizing::Settled(Err(BusError::AccessDenied(denial.to_owned()))),
            Some(owner) => match authorized_name_owner(sender.as_str(), owner, denial) {
                Ok(owner) => Authorizing::Approval { owner },
                Err(error) => Authorizing::Settled(Err(error)),
            },
        },
        (Authorizing::Approval { owner }, Answer::Approval(approved)) => {
            let pinned = match &approved {
                Some(name) => require_approved_connection(owner.as_str(), Some(name.as_str())),
                None => require_approved_connection(owner.as_str(), None),
            };
            match pinned {
                Ok(()) => Authorizing::Settled(Ok(owner)),
                Err(error) => Authorizing::Settled(Err(error)),
            }
        },
        (progress, _) => progress,
    }
}

/// The bus and the environment a call is authorized in.
pub struct Surroundings {
    /// Why the bus cannot be reached.
    pub unreachable: Option<Seq<char>>,
    /// Who owns the authorized name.
    pub owner: Option<Seq<char>>,
    /// The connection the user pinned.
    pub approved: Option<Seq<char>>,
}

/// `answer` is the true answer to what `progress` asks for.
pub open spec fn answers(
    surroundings: Surroundings,
    progress: AuthorizingView,
    answer: AnswerView,
) -> bool {
    match progress {
        AuthorizingView::Bus { .. } => answer == AnswerView::Bus(surroundings.unreachable),
        AuthorizingView::Owner { .. } => answer == AnswerView::Owner(surroundings.owner),
        AuthorizingView::Approval { .. } => answer == AnswerView::Approval(surroundings.approved),
        AuthorizingView::Settled(_) => true,
    }
}

/// What authorizing comes to from `progress` on.
pub open spec fn verdict(
    surroundings: Surroundings,
    progress: AuthorizingView,
    authorized_name: Seq<char>,
    denial: Seq<char>,
) -> Result<Seq<char>, crate::bus::BusErrorView> {
    let approval = |owner: Seq<char>|
        if is_approved(owner, surroundings.approved) {
            Ok(owner)
        } else {
            Err(crate::bus::BusErrorView::AccessDenied(not_approved()))
        };
    let owned = |sender: Seq<char>|
        if surroundings.owner == Some(sender) {
            approval(sender)
        } else {
            Err(crate::bus::BusErrorView::AccessDenied(denial))
        };
    match progress {
        AuthorizingView::Settled(result) => result,
        AuthorizingView::Approval { owner } => approval(owner),
        AuthorizingView::Owner { sender } => owned(sender),
        AuthorizingView::Bus { sender } => match surroundings.unreachable {
            Some(why) => Err(crate::bus::BusErrorView::Failed(why)),
            None => if crate::bus::well_known(authorized_name) {
                owned(sender)
            } else {
                Err(crate::bus::BusErrorView::Failed(crate::bus::not_well_known()))
            },
        },
    }
}

/// How many questions are left.
pub open spec fn questions_left(progress: AuthorizingView) -> nat {
    match progress {
        AuthorizingView::Bus { .. } => 3,
        AuthorizingView::Owner { .. } => 2,
        AuthorizingView::Approval { .. } => 1,
        AuthorizingView::Settled(_) => 0,
    }
}

/// Each true answer brings authorizing nearer to its end and leaves what it comes
/// to as it was.
pub proof fn answers_keep_the_verdict(
    surroundings: Surroundings,
    from: AuthorizingView,
    answer: AnswerView,
    authorized_name: Seq<char>,
    denial: Seq<char>,
)
    requires
        answers(surroundings, from, answer),
    ensures
        verdict(surroundings, next(from, answer, authorized_name, denial), authorized_name, denial)
            == verdict(surroundings, from, authorized_name, denial),
        from !is Settled ==> questions_left(next(from, answer, authorized_name, denial))
            < questions_left(from),
{
}

/// A caller is authorized exactly when it is known, the bus can be reached, it
/// owns the authorized name, and the user pinned its unique connection.
pub proof fn only_the_pinned_owner_is_authorized(
    surroundings: Surroundings,
    sender: Option<Seq<char>>,
    authorized_name: Seq<char>,
    denial: Seq<char>,
)
    ensures
        verdict(surroundings, beginning(sender), authorized_name, denial) is Ok <==> {
            &&& sender is Some
            &&& surroundings.unreachable is None
            &&& crate::bus::well_known(authorized_name)
            &&& surroundings.owner == sender
            &&& surroundings.approved == sender
            &&& crate::text::begins_with(sender->Some_0, ':')
        },
        verdict(surroundings, beginning(sender), authorized_name, denial) matches Ok(owner)
            ==> Some(owner) == sender,
{
}

/// A well-known name, a wildcard or another connection is no approval.
pub proof fn claimable_names_are_no_approval(owner: Seq<char>, approved: Seq<char>)
    requires
        !crate::text::begins_with(approved, ':') || approved != owner,
    ensures
        !is_approved(owner, Some(approved)),
{
}

/// A connection is approved exactly when the user pinned its own name and that is
/// a unique one, which begins with a colon.
pub proof fn approvals_pin_unique_names(owner: Seq<char>, approved: Option<Seq<char>>)
    ensures
        is_approved(owner, approved) <==> approved == Some(owner) && owner.len() > 0 && owner[0]
            == ':',
{
}

/// Whoever owns the authorized name passes under that name; anyone else gets the
/// denial.
pub proof fn only_owners_pass(sender: Seq<char>, owner: Seq<char>, denial: Seq<char>)
    ensures
        ownership(sender, owner, denial) is Ok <==> sender == owner,
        ownership(sender, owner, denial) matches Ok(name) ==> name == sender,
        ownership(sender, owner, denial) matches Err(error) ==> error
            == crate::bus::BusErrorView::AccessDenied(denial),
{
}

/// A refused caller is told the first reason there is: that it has no name, that
/// the bus cannot be reached, that the authorized name is none, that it is not the
/// owner, or that it was not approved.
pub proof fn refusals_give_the_first_reason(
    surroundings: Surroundings,
    sender: Option<Seq<char>>,
    authorized_name: Seq<char>,
    denial: Seq<char>,
)
    ensures
        ({
            let result = verdict(surroundings, beginning(sender), authorized_name, denial);
            if sender is None {
                result == Err::<Seq<char>, crate::bus::BusErrorView>(
                    crate::bus::BusErrorView::AccessDenied("missing D-Bus sender"@),
                )
            } else if surroundings.unreachable is Some {
                result == Err::<Seq<char>, crate::bus::BusErrorView>(
                    crate::bus::BusErrorView::Failed(surroundings.unreachable->Some_0),
                )
            } else if !crate::bus::well_known(authorized_name) {
                result is Err && result->Err_0 is Failed
            } else if surroundings.owner != sender {
                result == Err::<Seq<char>, crate::bus::BusErrorView>(
                    crate::bus::BusErrorView::AccessDenied(denial),
                )
            } else if surroundings.approved != sender || sender->Some_0.len() == 0
                || sender->Some_0[0] != ':' {
                result == Err::<Seq<char>, crate::bus::BusErrorView>(
                    crate::bus::BusErrorView::AccessDenied(
                        "keyboard monitoring requires an explicitly approved unique D-Bus connection in HALLEY_ACCESSIBILITY_MONITOR"@,
                    ),
                )
            } else {
                result == Ok::<Seq<char>, crate::bus::BusErrorView>(sender->Some_0)
            }
        }),
{
}

/// Once authorizing is settled it stays so, and an answer to a question that was
/// not asked changes nothing.
pub proof fn unasked_answers_change_nothing(
    from: AuthorizingView,
    answer: AnswerView,
    authorized_name: Seq<char>,
    denial: Seq<char>,
)
    ensures
        from is Settled ==> next(from, answer, authorized_name, denial) == from,
        from is Bus && answer !is Bus ==> next(from, answer, authorized_name, denial) == from,
        from is Owner && answer !is Owner ==> next(from, answer, authorized_name, denial) == from,
        from is Approval && answer !is Approval ==> next(from, answer, authorized_name, denial)
            == from,
{
}

} // verus!
