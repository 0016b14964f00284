//! Authenticates the portal frontend, whose unique bus identity is then pinned
//! on objects.

use vstd::prelude::*;

use crate::bus::BusError;
use crate::paths::{is_absolute, process_executable, same_path};
use crate::text::{begins_with_colon, same_text};

verus! {

/// The well-known name of the portal frontend.
pub fn frontend_name() -> (res: &'static str)
    ensures
        res@ == "org.freedesktop.portal.Desktop"@,
{
    "org.freedesktop.portal.Desktop"
}

/// The environment variable that names the executable of another frontend.
pub fn frontend_variable() -> (res: &'static str)
    ensures
        res@ == "HALLEY_PORTAL_FRONTEND"@,
{
    "HALLEY_PORTAL_FRONTEND"
}

/// The message for everyone but the frontend.
pub open spec fn denial() -> Seq<char> {
    "only the authenticated xdg-desktop-portal frontend may access this object"@
}

/// The error for everyone but the frontend.
pub open spec fn denial_error() -> crate::bus::BusErrorView {
    crate::bus::BusErrorView::AccessDenied(denial())
}

/// `sender` is a unique connection, and it is `owner`.
pub open spec fn is_owner(sender: Seq<char>, owner: Seq<char>) -> bool {
    crate::text::begins_with(sender, ':') && sender == owner
}

/// `/usr/lib/xdg-desktop-portal`
pub open spec fn lib_frontend() -> Seq<u8> {
    seq![
        47u8, 117u8, 115u8, 114u8, 47u8, 108u8, 105u8, 98u8, 47u8, 120u8, 100u8, 103u8, 45u8,
        100u8, 101u8, 115u8, 107u8, 116u8, 111u8, 112u8, 45u8, 112u8, 111u8, 114u8, 116u8, 97u8,
        108u8,
    ]
}

/// `/usr/libexec/xdg-desktop-portal`
pub open spec fn libexec_frontend() -> Seq<u8> {
    seq![
        47u8, 117u8, 115u8, 114u8, 47u8, 108u8, 105u8, 98u8, 101u8, 120u8, 101u8, 99u8, 47u8,
        120u8, 100u8, 103u8, 45u8, 100u8, 101u8, 115u8, 107u8, 116u8, 111u8, 112u8, 45u8, 112u8,
        111u8, 114u8, 116u8, 97u8, 108u8,
    ]
}

/// The paths of approved frontends: the one that is named, or the standard ones.
pub open spec fn frontends(named: Option<Seq<u8>>) -> Seq<Seq<u8>> {
    match named {
        Some(path) => seq![path],
        None => seq![lib_frontend(), libexec_frontend()],
    }
}

fn denied() -> (res: BusError)
    ensures
        res@ == denial_error(),
{
    BusError::AccessDenied(
        "only the authenticated xdg-desktop-portal frontend may access this object".to_owned(),
    )
}

/// Accepts a sender that is the given unique connection.
pub fn same_owner(sender: &str, owner: &str) -> (res: Result<(), BusError>)
    ensures
        match res {
            Ok(()) => is_owner(sender@, owner@),
            Err(error) => !is_owner(sender@, owner@) && error@ == denial_error(),
        },
{
    if begins_with_colon(sender) && same_text(sender, owner) {
        Ok(())
    } else {
        Err(denied())
    }
}

/// The paths of approved frontends.
pub fn approved_frontends(named: Option<Vec<u8>>) -> (res: Vec<Vec<u8>>)
    ensures
        crate::paths::path_views(res@) == frontends(optional_path(named)),
{
    let ghost given = optional_path(named);
    let res = match named {
        Some(path) => vec![path],
        None => {
            let lib: Vec<u8> = vec![
                47, 117, 115, 114, 47, 108, 105, 98, 47, 120, 100, 103, 45, 100, 101, 115, 107, 116,
                111, 112, 45, 112, 111, 114, 116, 97, 108,
            ];
            let libexec: Vec<u8> = vec![
                47, 117, 115, 114, 47, 108, 105, 98, 101, 120, 101, 99, 47, 120, 100, 103, 45, 100,
                101, 115, 107, 116, 111, 112, 45, 112, 111, 114, 116, 97, 108,
            ];
            assert(lib@ == lib_frontend());
            assert(libexec@ == libexec_frontend());
            vec![lib, libexec]
        },
    };
    assert(crate::paths::path_views(res@) == frontends(given));
    res
}

/// How far authenticating the frontend has come, and what is asked for next.
#[derive(Debug, PartialEq, Eq)]
pub enum Authenticating {
    /// Reach the bus.
    Bus { sender: String },
    /// Ask the bus who owns the frontend's name.
    Owner { sender: String },
    /// Ask the bus for the user of this connection.
    User { owner: String },
    /// Ask the bus for the process of this connection.
    Process { owner: String, uid: u32 },
    /// Read where this link of the process leads.
    Executable { owner: String, link: String },
    /// Read the path of another frontend from the environment.
    Named { owner: String, executable: Vec<u8> },
    /// Resolve `path`; `rest` comes after it.
    Resolve { owner: String, executable: Vec<u8>, path: Vec<u8>, rest: Vec<Vec<u8>> },
    /// The frontend is authenticated, or not.
    Settled(Result<String, BusError>),
}

/// What was answered; `None` where the question failed.
#[derive(Debug, PartialEq, Eq)]
pub enum Reply {
    Bus(Result<(), String>),
    Owner(Option<String>),
    User(Option<u32>),
    Process(Option<u32>),
    Executable(Option<Vec<u8>>),
    Named(Option<Vec<u8>>),
    Resolved(Option<Vec<u8>>),
}

/// How far authenticating has come, with its names as sequences.
#[verifier::ext_equal]
pub enum AuthenticatingView {
    Bus { sender: Seq<char> },
    Owner { sender: Seq<char> },
    User { owner: Seq<char> },
    Process { owner: Seq<char>, uid: u32 },
    Executable { owner: Seq<char>, link: Seq<char> },
    Named { owner: Seq<char>, executable: Seq<u8> },
    Resolve { owner: Seq<char>, executable: Seq<u8>, path: Seq<u8>, rest: Seq<Seq<u8>> },
    Settled(Result<Seq<char>, crate::bus::BusErrorView>),
}

/// What was answered, with its names as sequences.
#[verifier::ext_equal]
pub enum ReplyView {
    Bus(Option<Seq<char>>),
    Owner(Option<Seq<char>>),
    User(Option<u32>),
    Process(Option<u32>),
    Executable(Option<Seq<u8>>),
    Named(Option<Seq<u8>>),
    Resolved(Option<Seq<u8>>),
}

/// The bytes of an optional path.
pub open spec fn optional_path(path: Option<Vec<u8>>) -> Option<Seq<u8>> {
    match path {
        Some(bytes) => Some(bytes@),
        None => None,
    }
}

impl View for Authenticating {
    type V = AuthenticatingView;

    open spec fn view(&self) -> AuthenticatingView {
        match *self {
            Authenticating::Bus { sender } => AuthenticatingView::Bus { sender: sender@ },
            Authenticating::Owner { sender } => AuthenticatingView::Owner { sender: sender@ },
            Authenticating::User { owner } => AuthenticatingView::User { owner: owner@ },
            Authenticating::Process { owner, uid } => AuthenticatingView::Process {
                owner: owner@,
                uid,
            },
            Authenticating::Executable { owner, link } => AuthenticatingView::Executable {
                owner: owner@,
                link: link@,
            },
            Authenticating::Named { owner, executable } => AuthenticatingView::Named {
                owner: owner@,
                executable: executable@,
            },
            Authenticating::Resolve { owner, executable, path, rest } => {
                AuthenticatingView::Resolve {
                    owner: owner@,
                    executable: executable@,
                    path: path@,
                    rest: crate::paths::path_views(rest@),
                }
            },
            Authenticating::Settled(result) => AuthenticatingView::Settled(
                crate::bus::name_result(result),
            ),
        }
    }
}

impl View for Reply {
    type V = ReplyView;

    open spec fn view(&self) -> ReplyView {
        match *self {
            Reply::Bus(reached) => ReplyView::Bus(
                match reached {
                    Ok(()) => None,
                    Err(why) => Some(why@),
                },
            ),
            Reply::Owner(owner) => ReplyView::Owner(crate::text::optional_text(owner)),
            Reply::User(uid) => ReplyView::User(uid),
            Reply::Process(pid) => ReplyView::Process(pid),
            Reply::Executable(path) => ReplyView::Executable(optional_path(path)),
            Reply::Named(path) => ReplyView::Named(optional_path(path)),
            Reply::Resolved(path) => ReplyView::Resolved(optional_path(path)),
        }
    }
}

/// The frontend is not authenticated.
pub open spec fn refused() -> AuthenticatingView {
    AuthenticatingView::Settled(Err(denial_error()))
}

/// Goes on with the first absolute one of `paths`; without one there is no
/// approved frontend left.
pub open spec fn resolve_first(owner: Seq<char>, executable: Seq<u8>, paths: Seq<Seq<u8>>) -> AuthenticatingView
    decreases paths.len(),
{
    if paths.len() == 0 {
        refused()
    } else if crate::paths::absolute(paths[0]) {
        AuthenticatingView::Resolve { owner, executable, path: paths[0], rest: paths.drop_first() }
    } else {
        resolve_first(owner, executable, paths.drop_first())
    }
}

/// Where authenticating a call from `sender` begins.
pub open spec fn beginning(sender: Option<Seq<char>>) -> AuthenticatingView {
    match sender {
        Some(name) => AuthenticatingView::Bus { sender: name },
        None => refused(),
    }
}

/// What follows `from` when `reply` comes, for a backend of the user `euid`. A
/// reply to anything but the question asked leads nowhere.
pub open spec fn next(from: AuthenticatingView, reply: ReplyView, euid: u32) -> AuthenticatingView {
    match (from, reply) {
        (AuthenticatingView::Bus { sender }, ReplyView::Bus(failure)) => match failure {
            Some(why) => AuthenticatingView::Settled(
                Err(crate::bus::BusErrorView::Unreachable(why)),
            ),
            None => AuthenticatingView::Owner { sender },
        },
        (AuthenticatingView::Owner { sender }, ReplyView::Owner(Some(owner))) => if is_owner(
            sender,
            owner,
        ) {
            AuthenticatingView::User { owner }
        } else {
            refused()
        },
        (AuthenticatingView::User { owner }, ReplyView::User(Some(uid))) => {
            AuthenticatingView::Process { owner, uid }
        },
        (AuthenticatingView::Process { owner, uid }, ReplyView::Process(Some(pid))) => if uid
            == euid {
            AuthenticatingView::Executable {
                owner,
                link: crate::paths::executable_path(pid as nat),
            }
        } else {
            refused()
        },
        (AuthenticatingView::Executable { owner, .. }, ReplyView::Executable(Some(executable))) => {
            AuthenticatingView::Named { owner, executable }
        },
        (AuthenticatingView::Named { owner, executable }, ReplyView::Named(named)) => resolve_first(
            owner,
            executable,
            frontends(named),
        ),
        (
            AuthenticatingView::Resolve { owner, executable, path: _, rest },
            ReplyView::Resolved(resolved),
        ) => match resolved {
            Some(approved) if crate::paths::equal_paths(approved, executable) => {
                AuthenticatingView::Settled(Ok(owner))
            },
            _ => resolve_first(owner, executable, rest),
        },
        (AuthenticatingView::Owner { .. }, ReplyView::Owner(None)) => refused(),
        (AuthenticatingView::User { .. }, ReplyView::User(None)) => refused(),
        (AuthenticatingView::Process { .. }, ReplyView::Process(None)) => refused(),
        (AuthenticatingView::Executable { .. }, ReplyView::Executable(None)) => refused(),
        _ => from,
    }
}

fn resolve(owner: String, executable: Vec<u8>, paths: Vec<Vec<u8>>) -> (res: Authenticating)
    ensures
        res@ == resolve_first(owner@, executable@, crate::paths::path_views(paths@)),
    decreases paths.len(),
{
    let mut rest = paths;
    if rest.len() == 0 {
        return Authenticating::Settled(Err(denied()));
    }
    let path = rest.remove(0);
    assert(crate::paths::path_views(rest@) == crate::paths::path_views(paths@).drop_first());
    if is_absolute(&path) {
        Authenticating::Resolve { owner, executable, path, rest }
    } else {
        resolve(owner, executable, rest)
    }
}

/// Begins to authenticate a call: only the frontend itself may make it.
pub fn frontend(sender: Option<String>) -> (res: Authenticating)
    ensures
        res@ == beginning(crate::text::optional_text(sender)),
{
    match sender {
        Some(sender) => Authenticating::Bus { sender },
        None => Authenticating::Settled(Err(denied())),
    }
}

/// Goes on with what was answered, for a backend of the user `euid`.
pub fn authenticate(progress: Authenticating, reply: Reply, euid: u32) -> (res: Authenticating)
    ensures
        res@ == next(progress@, reply@, euid),
{
    match (progress, reply) {
        (Authenticating::Bus { sender }, Reply::Bus(reached)) => match reached {
            Err(why) => Authenticating::Settled(Err(BusError::Unreachable(why))),
            Ok(()) => Authenticating::Owner { sender },
        },
        (Authenticating::Owner { sender }, Reply::Owner(known)) => match known {
            Some(owner) => match same_owner(sender.as_str(), owner.as_str()) {
                Ok(()) => Authenticating::User { owner },
                Err(error) => Authenticating::Settled(Err(error)),
            },
            None => Authenticating::Settled(Err(denied())),
        },
        (Authenticating::User { owner }, Reply::User(known)) => match known {
            Some(uid) => Authenticating::Process { owner, uid },
            None => Authenticating::Settled(Err(denied())),
        },
        (Authenticating::Process { owner, uid }, Reply::Process(known)) => match known {
            Some(pid) => if uid != euid {
                Authenticating::Settled(Err(denied()))
            } else {
                Authenticating::Executable { owner, link: process_executable(pid) }
            },
            None => Authenticating::Settled(Err(denied())),
        },
        (Authenticating::Executable { owner, link: _ }, Reply::Executable(known)) => match known {
            Some(executable) => Authenticating::Named { owner, executable },
            None => Authenticating::Settled(Err(denied())),
        },
        (Authenticating::Named { owner, executable }, Reply::Named(named)) => {
            let paths = approved_frontends(named);
            resolve(owner, executable, paths)
        },
        (
            Authenticating::Resolve { owner, executable, path: _, rest },
            Reply::Resolved(resolved),
        ) => {
            if let Some(approved) = resolved {
                if same_path(&approved, &executable) {
                    return Authenticating::Settled(Ok(owner));
                }
            }
            resolve(owner, executable, rest)
        },
        (progress, _) => progress,
    }
}

/// The bus, the processes and the files a call is authenticated among.
pub struct Machine {
    /// Why the bus cannot be reached.
    pub unreachable: Option<Seq<char>>,
    /// Who owns the frontend's name.
    pub owner: Option<Seq<char>>,
    /// The user of each connection.
    pub user: spec_fn(Seq<char>) -> Option<u32>,
    /// The process of each connection.
    pub process: spec_fn(Seq<char>) -> Option<u32>,
    /// Where each link leads.
    pub link: spec_fn(Seq<char>) -> Option<Seq<u8>>,
    /// The path of another frontend that the environment names.
    pub named: Option<Seq<u8>>,
    /// What each path resolves to.
    pub resolved: spec_fn(Seq<u8>) -> Option<Seq<u8>>,
    /// The user of the backend.
    pub euid: u32,
}

/// `reply` is the true answer to what `progress` asks for.
pub open spec fn answers(machine: Machine, progress: AuthenticatingView, reply: ReplyView) -> bool {
    match progress {
        AuthenticatingView::Bus { .. } => reply == ReplyView::Bus(machine.unreachable),
        AuthenticatingView::Owner { .. } => reply == ReplyView::Owner(machine.owner),
        AuthenticatingView::User { owner } => reply == ReplyView::User((machine.user)(owner)),
        AuthenticatingView::Process { owner, .. } => reply == ReplyView::Process(
            (machine.process)(owner),
        ),
        AuthenticatingView::Executable { link, .. } => reply == ReplyView::Executable(
            (machine.link)(link),
        ),
        AuthenticatingView::Named { .. } => reply == ReplyView::Named(machine.named),
        AuthenticatingView::Resolve { path, .. } => reply == ReplyView::Resolved(
            (machine.resolved)(path),
        ),
        AuthenticatingView::Settled(_) => true,
    }
}

/// `path` is absolute and resolves to `executable`.
pub open spec fn leads_to(machine: Machine, path: Seq<u8>, executable: Seq<u8>) -> bool {
    &&& crate::paths::absolute(path)
    &&& (machine.resolved)(path) is Some
    &&& crate::paths::equal_paths((machine.resolved)(path)->Some_0, executable)
}

/// Some absolute one of `paths` resolves to `executable`.
pub open spec fn among(machine: Machine, paths: Seq<Seq<u8>>, executable: Seq<u8>) -> bool {
    exists|j: int| 0 <= j < paths.len() && #[trigger] leads_to(machine, paths[j], executable)
}

/// The process `pid` runs an approved frontend.
pub open spec fn runs_frontend(machine: Machine, pid: u32) -> bool {
    match (machine.link)(crate::paths::executable_path(pid as nat)) {
        Some(executable) => among(machine, frontends(machine.named), executable),
        None => false,
    }
}

/// The connection `owner` belongs to the user of the backend and runs an
/// approved frontend.
pub open spec fn authentic(machine: Machine, owner: Seq<char>) -> bool {
    &&& (machine.user)(owner) == Some(machine.euid)
    &&& (machine.process)(owner) is Some
    &&& runs_frontend(machine, (machine.process)(owner)->Some_0)
}

/// `owner` where `accepted`, else the denial.
pub open spec fn decided(accepted: bool, owner: Seq<char>) -> Result<
    Seq<char>,
    crate::bus::BusErrorView,
> {
    if accepted {
        Ok(owner)
    } else {
        Err(denial_error())
    }
}

/// What authenticating comes to from `progress` on.
pub open spec fn verdict(machine: Machine, progress: AuthenticatingView) -> Result<
    Seq<char>,
    crate::bus::BusErrorView,
> {
    match progress {
        AuthenticatingView::Settled(result) => result,
        AuthenticatingView::Resolve { owner, executable, path, rest } => decided(
            leads_to(machine, path, executable) || among(machine, rest, executable),
            owner,
        ),
        AuthenticatingView::Named { owner, executable } => decided(
            among(machine, frontends(machine.named), executable),
            owner,
        ),
        AuthenticatingView::Executable { owner, link } => decided(
            match (machine.link)(link) {
                Some(executable) => among(machine, frontends(machine.named), executable),
                None => false,
            },
            owner,
        ),
        AuthenticatingView::Process { owner, uid } => decided(
            uid == machine.euid && (machine.process)(owner) is Some && runs_frontend(
                machine,
                (machine.process)(owner)->Some_0,
            ),
            owner,
        ),
        AuthenticatingView::User { owner } => decided(authentic(machine, owner), owner),
        AuthenticatingView::Owner { sender } => decided(
            machine.owner is Some && is_owner(sender, machine.owner->Some_0) && authentic(
                machine,
                sender,
            ),
            sender,
        ),
        AuthenticatingView::Bus { sender } => match machine.unreachable {
            Some(why) => Err(crate::bus::BusErrorView::Unreachable(why)),
            None => decided(
                machine.owner is Some && is_owner(sender, machine.owner->Some_0) && authentic(
                    machine,
                    sender,
                ),
                sender,
            ),
        },
    }
}

/// What is resolved is always an absolute path.
pub open spec fn asks_soundly(progress: AuthenticatingView) -> bool {
    progress matches AuthenticatingView::Resolve { path, .. } ==> crate::paths::absolute(path)
}

/// How many questions are left at most.
pub open spec fn questions_left(progress: AuthenticatingView) -> nat {
    match progress {
        AuthenticatingView::Bus { .. } => 8,
        AuthenticatingView::Owner { .. } => 7,
        AuthenticatingView::User { .. } => 6,
        AuthenticatingView::Process { .. } => 5,
        AuthenticatingView::Executable { .. } => 4,
        AuthenticatingView::Named { .. } => 3,
        AuthenticatingView::Resolve { rest, .. } => 1 + rest.len(),
        AuthenticatingView::Settled(_) => 0,
    }
}

proof fn first_absolute_path_decides(
    machine: Machine,
    owner: Seq<char>,
    executable: Seq<u8>,
    paths: Seq<Seq<u8>>,
)
    ensures
        verdict(machine, resolve_first(owner, executable, paths)) == decided(
            among(machine, paths, executable),
            owner,
        ),
        asks_soundly(resolve_first(owner, executable, paths)),
        questions_left(resolve_first(owner, executable, paths)) <= paths.len(),
    decreases paths.len(),
{
    if paths.len() > 0 {
        let rest = paths.drop_first();
        if !crate::paths::absolute(paths[0]) {
            first_absolute_path_decides(machine, owner, executable, rest);
        }
        assert forall|j: int| 0 <= j < rest.len() implies #[trigger] rest[j] == paths[j + 1] by {}
        if among(machine, paths, executable) {
            let j = choose|j: int|
                0 <= j < paths.len() && #[trigger] leads_to(machine, paths[j], executable);
            if j > 0 {
                assert(leads_to(machine, rest[j - 1], executable));
            }
        }
        if among(machine, rest, executable) {
            let j = choose|j: int|
                0 <= j < rest.len() && #[trigger] leads_to(machine, rest[j], executable);
            assert(leads_to(machine, paths[j + 1], executable));
        }
        if leads_to(machine, paths[0], executable) {
            assert(among(machine, paths, executable));
        }
    }
}

/// Each true answer brings authenticating nearer to its end and leaves what it
/// comes to as it was, and only absolute paths are ever resolved.
pub proof fn replies_keep_the_verdict(
    machine: Machine,
    from: AuthenticatingView,
    reply: ReplyView,
)
    requires
        answers(machine, from, reply),
        asks_soundly(from),
    ensures
        verdict(machine, next(from, reply, machine.euid)) == verdict(machine, from),
        asks_soundly(next(from, reply, machine.euid)),
        from !is Settled ==> questions_left(next(from, reply, machine.euid)) < questions_left(from),
{
    match from {
        AuthenticatingView::Named { owner, executable } => {
            first_absolute_path_decides(machine, owner, executable, frontends(machine.named));
        },
        AuthenticatingView::Resolve { owner, executable, path, rest } => {
            first_absolute_path_decides(machine, owner, executable, rest);
        },
        _ => {},
    }
}

/// A call is let in exactly when it comes from the unique connection that owns
/// the frontend's name, of the backend's own user, whose process runs an
/// approved executable; the owner it is pinned to is that connection.
pub proof fn only_the_frontend_is_let_in(machine: Machine, sender: Option<Seq<char>>)
    requires
        machine.unreachable is None,
    ensures
        verdict(machine, beginning(sender)) is Ok <==> {
            &&& sender is Some
            &&& crate::text::begins_with(sender->Some_0, ':')
            &&& machine.owner == sender
            &&& authentic(machine, sender->Some_0)
        },
        verdict(machine, beginning(sender)) matches Ok(owner) ==> Some(owner) == sender,
        verdict(machine, beginning(sender)) matches Err(error) ==> error == denial_error(),
{
}

/// The standard frontends are absolute paths, so they can be approved.
pub proof fn standard_frontends_are_absolute(i: int)
    requires
        0 <= i < frontends(None).len(),
    ensures
        crate::paths::absolute(frontends(None)[i]),
{
}

/// A sender is an owner exactly when it is that very connection and a unique one,
/// whose name begins with a colon.
pub proof fn owners_are_unique_connections(sender: Seq<char>, owner: Seq<char>)
    ensures
        is_owner(sender, owner) <==> sender == owner && sender.len() > 0 && sender[0] == ':',
{
}

/// The process `pid` runs a file that `path` leads to: the path is absolute, and
/// it resolves to where the process's executable link leads.
pub open spec fn runs_file(machine: Machine, pid: u32, path: Seq<u8>) -> bool {
    &&& path.len() > 0 && path[0] == 47
    &&& (machine.resolved)(path) is Some
    &&& (machine.link)(crate::paths::executable_path(pid as nat)) is Some
    &&& crate::paths::equal_paths(
        (machine.resolved)(path)->Some_0,
        (machine.link)(crate::paths::executable_path(pid as nat))->Some_0,
    )
}

/// A call is let in exactly when each of these holds, and is else denied: it has a
/// sender with a unique name, which owns the frontend's name, belongs to the
/// backend's own user, and whose process runs the frontend that the environment
/// names or, where it names none, one of the two standard ones.
pub proof fn the_frontend_passes_every_test(machine: Machine, sender: Option<Seq<char>>)
    requires
        machine.unreachable is None,
    ensures
        ({
            let result = verdict(machine, beginning(sender));
            let name = sender->Some_0;
            let pid = (machine.process)(name)->Some_0;
            &&& result is Ok <==> {
                &&& sender is Some
                &&& name.len() > 0 && name[0] == ':'
                &&& machine.owner == Some(name)
                &&& (machine.user)(name) == Some(machine.euid)
                &&& (machine.process)(name) is Some
                &&& if machine.named is Some {
                    runs_file(machine, pid, machine.named->Some_0)
                } else {
                    runs_file(machine, pid, lib_frontend()) || runs_file(
                        machine,
                        pid,
                        libexec_frontend(),
                    )
                }
            }
            &&& result is Ok ==> result->Ok_0 == name
            &&& result is Err ==> result->Err_0 == crate::bus::BusErrorView::AccessDenied(
                "only the authenticated xdg-desktop-portal frontend may access this object"@,
            )
        }),
{
    if sender is Some {
        let name = sender->Some_0;
        if (machine.process)(name) is Some {
            let pid = (machine.process)(name)->Some_0;
            let link = (machine.link)(crate::paths::executable_path(pid as nat));
            if link is Some {
                let paths = frontends(machine.named);
                let executable = link->Some_0;
                assert forall|j: int| 0 <= j < paths.len() implies #[trigger] leads_to(
                    machine,
                    paths[j],
                    executable,
                ) == runs_file(machine, pid, paths[j]) by {}
                if machine.named is Some {
                    assert(paths[0] == machine.named->Some_0);
                    assert(leads_to(machine, paths[0], executable) == runs_file(
                        machine,
                        pid,
                        paths[0],
                    ));
                } else {
                    assert(paths[0] == lib_frontend());
                    assert(paths[1] == libexec_frontend());
                    assert(leads_to(machine, paths[0], executable) == runs_file(
                        machine,
                        pid,
                        paths[0],
                    ));
                    assert(leads_to(machine, paths[1], executable) == runs_file(
                        machine,
                        pid,
                        paths[1],
                    ));
                }
            }
        }
    }
}

/// Where the bus cannot be reached, a call with a sender fails for that reason and
/// is not denied; one without a sender is denied all the same.
pub proof fn an_unreachable_bus_is_reported(machine: Machine, sender: Seq<char>, why: Seq<char>)
    requires
        machine.unreachable == Some(why),
    ensures
        verdict(machine, beginning(Some(sender))) == Err::<Seq<char>, crate::bus::BusErrorView>(
            crate::bus::BusErrorView::Unreachable(why),
        ),
        verdict(machine, beginning(None)) is Err,
        verdict(machine, beginning(None))->Err_0 is AccessDenied,
{
}

/// Once authenticating is settled it stays so.
pub proof fn settled_calls_stay_settled(
    result: Result<Seq<char>, crate::bus::BusErrorView>,
    reply: ReplyView,
    euid: u32,
)
    ensures
        next(AuthenticatingView::Settled(result), reply, euid) == AuthenticatingView::Settled(
            result,
        ),
{
}

/// Both standard frontends are called xdg-desktop-portal, and are the ones under
/// lib and libexec.
pub proof fn standard_frontends_have_their_names()
    ensures
        lib_frontend().map_values(|b: u8| b as char) == "/usr/lib/xdg-desktop-portal"@,
        libexec_frontend().map_values(|b: u8| b as char) == "/usr/libexec/xdg-desktop-portal"@,
{
    reveal_strlit("/usr/lib/xdg-desktop-portal");
    reveal_strlit("/usr/libexec/xdg-desktop-portal");
    assert(lib_frontend().map_values(|b: u8| b as char) =~= "/usr/lib/xdg-desktop-portal"@);
    assert(libexec_frontend().map_values(|b: u8| b as char)
        =~= "/usr/libexec/xdg-desktop-portal"@);
}

} // verus!
