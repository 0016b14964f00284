//! Opt-in grants for desktop-wide protocols, evaluated at connection admission.
//!
//! A grant names an executable by its absolute path in an environment variable.
//! A client gets it when it runs that very file, whatever name it goes by.

use vstd::prelude::*;

use crate::paths::{copy, is_absolute, process_executable, split};

verus! {

/// A desktop-wide protocol that has to be granted.
#[derive(Clone, Copy, Debug, PartialEq, Eq, Structural)]
pub enum Capability {
    Capture,
    Clipboard,
    VirtualKeyboard,
    InputMethod,
}

impl Capability {
    /// The place of the capability among all of them.
    pub open spec fn place(self) -> int {
        match self {
            Capability::Capture => 0,
            Capability::Clipboard => 1,
            Capability::VirtualKeyboard => 2,
            Capability::InputMethod => 3,
        }
    }

    /// The place of the capability among all of them.
    pub fn index(self) -> (res: usize)
        ensures
            res == self.place(),
            res < 4,
    {
        match self {
            Capability::Capture => 0,
            Capability::Clipboard => 1,
            Capability::VirtualKeyboard => 2,
            Capability::InputMethod => 3,
        }
    }

    /// All capabilities, each at its place.
    pub fn all() -> (res: [Capability; 4])
        ensures
            forall|i: int| 0 <= i < 4 ==> (#[trigger] res@[i]).place() == i,
    {
        [
            Capability::Capture,
            Capability::Clipboard,
            Capability::VirtualKeyboard,
            Capability::InputMethod,
        ]
    }

    /// The environment variable that grants the capability.
    pub open spec fn granted_by(self) -> Seq<char> {
        match self {
            Capability::Capture => "HALLEY_ALLOW_SCREEN_CAPTURE"@,
            Capability::Clipboard => "HALLEY_ALLOW_CLIPBOARD_CONTROL"@,
            Capability::VirtualKeyboard => "HALLEY_ALLOW_VIRTUAL_KEYBOARD"@,
            Capability::InputMethod => "HALLEY_ALLOW_INPUT_METHOD"@,
        }
    }

    /// The environment variable that grants the capability.
    pub fn variable(self) -> (res: &'static str)
        ensures
            res@ == self.granted_by(),
    {
        match self {
            Capability::Capture => "HALLEY_ALLOW_SCREEN_CAPTURE",
            Capability::Clipboard => "HALLEY_ALLOW_CLIPBOARD_CONTROL",
            Capability::VirtualKeyboard => "HALLEY_ALLOW_VIRTUAL_KEYBOARD",
            Capability::InputMethod => "HALLEY_ALLOW_INPUT_METHOD",
        }
    }
}

/// The absolute ones among `paths`, in order.
pub open spec fn absolute_ones(paths: Seq<Seq<u8>>) -> Seq<Seq<u8>>
    decreases paths.len(),
{
    if paths.len() == 0 {
        Seq::empty()
    } else if crate::paths::absolute(paths.last()) {
        absolute_ones(paths.drop_last()).push(paths.last())
    } else {
        absolute_ones(paths.drop_last())
    }
}

/// What separates the paths of a list.
pub const LIST_SEPARATOR: u8 = 58;

/// The absolute paths that an environment variable approves. Relative ones are
/// left out, and an unset variable approves nothing.
pub fn approved_paths(value: Option<&Vec<u8>>) -> (res: Vec<Vec<u8>>)
    ensures
        crate::paths::path_views(res@) == (match value {
            Some(list) => absolute_ones(crate::paths::pieces(list@, LIST_SEPARATOR)),
            None => Seq::empty(),
        }),
{
    let mut res: Vec<Vec<u8>> = Vec::new();
    let list = match value {
        Some(list) => list,
        None => {
            assert(crate::paths::path_views(res@) == Seq::<Seq<u8>>::empty());
            return res;
        },
    };
    let parts = split(list, LIST_SEPARATOR);
    let ghost all = crate::paths::path_views(parts@);
    assert(all.take(0) == Seq::<Seq<u8>>::empty());
    assert(crate::paths::path_views(res@) == absolute_ones(all.take(0)));
    for i in 0..parts.len()
        invariant
            all == crate::paths::path_views(parts@),
            crate::paths::path_views(res@) == absolute_ones(all.take(i as int)),
    {
        let part = &parts[i];
        assert(all.take(i + 1).drop_last() == all.take(i as int));
        assert(all.take(i + 1).last() == part@);
        if is_absolute(part) {
            let ghost done = crate::paths::path_views(res@);
            let path = copy(part);
            res.push(path);
            assert(crate::paths::path_views(res@) == done.push(path@));
        }
    }
    assert(all.take(all.len() as int) == all);
    res
}

/// Which file a path leads to.
#[derive(Clone, Copy, Debug, PartialEq, Eq, Structural)]
pub struct FileIdentity {
    /// Whether it is a regular file.
    pub is_file: bool,
    pub dev: u64,
    pub ino: u64,
}

/// Both paths lead to the same regular file. `None` is a path that leads nowhere.
pub open spec fn same_file(actual: Option<FileIdentity>, approved: Option<FileIdentity>) -> bool {
    match (actual, approved) {
        (Some(a), Some(b)) => a.is_file && b.is_file && a.dev == b.dev && a.ino == b.ino,
        _ => false,
    }
}

/// An approved path, and the file that it leads to.
#[derive(Debug)]
pub struct ApprovedFile {
    pub path: Vec<u8>,
    pub identity: Option<FileIdentity>,
}

/// `approved` stands for the executable `actual`.
pub open spec fn approves(approved: ApprovedFile, actual: Option<FileIdentity>) -> bool {
    crate::paths::absolute(approved.path@) && same_file(actual, approved.identity)
}

/// Whether the path `allowed`, which leads to `approved`, stands for the
/// executable that leads to `actual`.
pub fn same_executable(
    actual: Option<FileIdentity>,
    allowed: &Vec<u8>,
    approved: Option<FileIdentity>,
) -> (res: bool)
    ensures
        res == (crate::paths::absolute(allowed@) && same_file(actual, approved)),
{
    if !is_absolute(allowed) {
        return false;
    }
    match (actual, approved) {
        (Some(actual), Some(approved)) => actual.is_file && approved.is_file && actual.dev
            == approved.dev && actual.ino == approved.ino,
        _ => false,
    }
}

/// Who is at the other end of a socket.
#[derive(Clone, Copy, Debug)]
pub struct PeerCredentials {
    pub pid: i32,
    pub uid: u32,
}

/// The peer is a known process of the compositor's own user.
pub open spec fn own_process(credentials: Option<PeerCredentials>, euid: u32) -> bool {
    match credentials {
        Some(peer) => peer.pid > 0 && peer.uid == euid,
        None => false,
    }
}

/// The path of the executable of a peer that can be granted anything.
pub fn peer_executable(credentials: Option<PeerCredentials>, euid: u32) -> (res: Option<String>)
    ensures
        match res {
            Some(path) => own_process(credentials, euid) && path@ == crate::paths::executable_path(
                credentials->Some_0.pid as nat,
            ),
            None => !own_process(credentials, euid),
        },
{
    match credentials {
        Some(peer) => {
            if peer.pid <= 0 || peer.uid != euid {
                return None;
            }
            Some(process_executable(peer.pid as u32))
        },
        None => None,
    }
}

/// Whether a client whose executable is `actual` has the capability that
/// `policy` approves files for.
pub open spec fn granted(
    credentials: Option<PeerCredentials>,
    euid: u32,
    actual: Option<FileIdentity>,
    policy: Seq<ApprovedFile>,
) -> bool {
    own_process(credentials, euid) && exists|j: int|
        0 <= j < policy.len() && #[trigger] approves(policy[j], actual)
}

fn any_approves(policy: &Vec<ApprovedFile>, actual: Option<FileIdentity>) -> (res: bool)
    ensures
        res == (exists|j: int| 0 <= j < policy@.len() && #[trigger] approves(policy@[j], actual)),
{
    for i in 0..policy.len()
        invariant
            forall|j: int| 0 <= j < i ==> !#[trigger] approves(policy@[j], actual),
    {
        let approved = &policy[i];
        if same_executable(actual, &approved.path, approved.identity) {
            assert(approves(policy@[i as int], actual));
            return true;
        }
    }
    false
}

/// The capabilities of one client.
pub struct Permissions(pub [bool; 4]);

impl Default for Permissions {
    /// Ordinary clients have no desktop-wide capability.
    fn default() -> (res: Self)
        ensures
            forall|i: int| 0 <= i < 4 ==> !#[trigger] res.0@[i],
    {
        Permissions([false, false, false, false])
    }
}

impl Permissions {
    /// What the client behind a socket may do.
    ///
    /// `executable` is the file its process runs, and `policy` holds the files
    /// approved for each capability, at its place.
    pub fn for_socket(
        credentials: Option<PeerCredentials>,
        euid: u32,
        executable: Option<FileIdentity>,
        policy: &[Vec<ApprovedFile>; 4],
    ) -> (res: Self)
        ensures
            forall|i: int|
                0 <= i < 4 ==> #[trigger] res.0@[i] == granted(
                    credentials,
                    euid,
                    executable,
                    policy@[i]@,
                ),
    {
        if peer_executable(credentials, euid).is_none() {
            return Self::default();
        }
        Permissions(
            [
                any_approves(&policy[0], executable),
                any_approves(&policy[1], executable),
                any_approves(&policy[2], executable),
                any_approves(&policy[3], executable),
            ],
        )
    }
}

/// What the compositor keeps for one client.
pub struct ClientState {
    pub permissions: Permissions,
}

impl Default for ClientState {
    fn default() -> (res: Self)
        ensures
            forall|i: int| 0 <= i < 4 ==> !#[trigger] res.permissions.0@[i],
    {
        ClientState { permissions: Permissions::default() }
    }
}

/// Whether a client has a capability. A client the compositor keeps nothing for
/// has none.
pub fn allowed(client: Option<&ClientState>, capability: Capability) -> (res: bool)
    ensures
        res == (match client {
            Some(state) => state.permissions.0@[capability.place()],
            None => false,
        }),
{
    match client {
        Some(state) => state.permissions.0[capability.index()],
        None => false,
    }
}

proof fn membership_of_absolute_ones(paths: Seq<Seq<u8>>, path: Seq<u8>)
    ensures
        absolute_ones(paths).contains(path) <==> paths.contains(path) && crate::paths::absolute(
            path,
        ),
    decreases paths.len(),
{
    if paths.len() > 0 {
        let rest = paths.drop_last();
        let kept = absolute_ones(rest);
        let all = absolute_ones(paths);
        membership_of_absolute_ones(rest, path);
        if all.contains(path) {
            let k = all.index_of(path);
            if k < kept.len() {
                assert(kept[k] == path);
                assert(paths[rest.index_of(path)] == path);
            } else {
                assert(paths[paths.len() - 1] == path);
            }
        }
        if paths.contains(path) && crate::paths::absolute(path) {
            let k = paths.index_of(path);
            if k < rest.len() {
                assert(rest[k] == path);
                assert(all[kept.index_of(path)] == path);
            } else {
                assert(all[all.len() - 1] == path);
            }
        }
    }
}

/// A path is approved exactly when it is a piece of the list and absolute.
pub proof fn only_absolute_paths_are_approved(list: Seq<u8>, path: Seq<u8>)
    ensures
        absolute_ones(crate::paths::pieces(list, LIST_SEPARATOR)).contains(path)
            <==> crate::paths::pieces(list, LIST_SEPARATOR).contains(path)
            && crate::paths::absolute(path),
{
    membership_of_absolute_ones(crate::paths::pieces(list, LIST_SEPARATOR), path);
}

/// A process of another user, or one that is not known, is granted nothing.
pub proof fn strangers_are_granted_nothing(
    credentials: Option<PeerCredentials>,
    euid: u32,
    actual: Option<FileIdentity>,
    policy: Seq<ApprovedFile>,
)
    requires
        credentials matches Some(peer) ==> peer.pid <= 0 || peer.uid != euid,
    ensures
        !granted(credentials, euid, actual, policy),
{
}

/// Nothing is granted that was not opted into.
pub proof fn grants_are_opt_in(
    credentials: Option<PeerCredentials>,
    euid: u32,
    actual: Option<FileIdentity>,
)
    ensures
        !granted(credentials, euid, actual, Seq::empty()),
{
}

/// A grant goes by the file, not by its name: an absolute path to the file of an
/// approved path approves the same executables, and a path to another file does
/// not.
pub proof fn grants_follow_the_file(
    approved: ApprovedFile,
    other: ApprovedFile,
    actual: Option<FileIdentity>,
)
    requires
        approves(approved, actual),
        crate::paths::absolute(other.path@),
    ensures
        approves(other, actual) <==> other.identity == approved.identity,
{
}

/// Approving more files takes no grant away.
pub proof fn more_approvals_keep_grants(
    credentials: Option<PeerCredentials>,
    euid: u32,
    actual: Option<FileIdentity>,
    policy: Seq<ApprovedFile>,
    approved: ApprovedFile,
)
    requires
        granted(credentials, euid, actual, policy),
    ensures
        granted(credentials, euid, actual, policy.push(approved)),
{
    let j = choose|j: int| 0 <= j < policy.len() && #[trigger] approves(policy[j], actual);
    assert(approves(policy.push(approved)[j], actual));
}

/// Different capabilities are granted by different variables and have different
/// places.
pub proof fn capabilities_are_separate(a: Capability, b: Capability)
    ensures
        a != b ==> a.place() != b.place() && a.granted_by() != b.granted_by(),
{
    reveal_strlit("HALLEY_ALLOW_SCREEN_CAPTURE");
    reveal_strlit("HALLEY_ALLOW_CLIPBOARD_CONTROL");
    reveal_strlit("HALLEY_ALLOW_VIRTUAL_KEYBOARD");
    reveal_strlit("HALLEY_ALLOW_INPUT_METHOD");
    assert(Capability::Capture.granted_by()[13] == 'S');
    assert(Capability::Clipboard.granted_by()[13] == 'C');
    assert(Capability::VirtualKeyboard.granted_by()[13] == 'V');
    assert(Capability::InputMethod.granted_by()[13] == 'I');
}

/// Each capability has its own place and its own variable.
pub proof fn capabilities_keep_their_places(capability: Capability)
    ensures
        capability is Capture <==> capability.place() == 0,
        capability is Clipboard <==> capability.place() == 1,
        capability is VirtualKeyboard <==> capability.place() == 2,
        capability is InputMethod <==> capability.place() == 3,
        capability is Capture ==> capability.granted_by() == "HALLEY_ALLOW_SCREEN_CAPTURE"@,
        capability is Clipboard ==> capability.granted_by() == "HALLEY_ALLOW_CLIPBOARD_CONTROL"@,
        capability is VirtualKeyboard ==> capability.granted_by()
            == "HALLEY_ALLOW_VIRTUAL_KEYBOARD"@,
        capability is InputMethod ==> capability.granted_by() == "HALLEY_ALLOW_INPUT_METHOD"@,
{
}

/// A capability is granted exactly when the client is a known process of the
/// compositor's own user that runs a regular file, and an absolute path among the
/// approved ones leads to the same file on the same device.
pub proof fn grants_need_an_approved_file(
    credentials: Option<PeerCredentials>,
    euid: u32,
    actual: Option<FileIdentity>,
    policy: Seq<ApprovedFile>,
)
    ensures
        granted(credentials, euid, actual, policy) <==> {
            &&& credentials is Some
            &&& credentials->Some_0.pid > 0
            &&& credentials->Some_0.uid == euid
            &&& actual is Some
            &&& actual->Some_0.is_file
            &&& exists|j: int|
                #![trigger policy[j]]
                0 <= j < policy.len() && policy[j].path@.len() > 0 && policy[j].path@[0] == 47
                    && policy[j].identity is Some && policy[j].identity->Some_0.is_file
                    && policy[j].identity->Some_0.dev == actual->Some_0.dev
                    && policy[j].identity->Some_0.ino == actual->Some_0.ino
        },
{
    if granted(credentials, euid, actual, policy) {
        let j = choose|j: int| 0 <= j < policy.len() && #[trigger] approves(policy[j], actual);
        assert(policy[j].path@[0] == 47);
    }
    assert forall|j: int|
        0 <= j < policy.len() && (#[trigger] policy[j]).path@.len() > 0 && policy[j].path@[0] == 47
            && policy[j].identity is Some && policy[j].identity->Some_0.is_file && actual is Some
            && actual->Some_0.is_file && policy[j].identity->Some_0.dev == actual->Some_0.dev
            && policy[j].identity->Some_0.ino == actual->Some_0.ino implies approves(
        policy[j],
        actual,
    ) by {}
}

/// The approved paths are the absolute ones, each as often as it is listed and in
/// the same order: `chosen` says where each comes from.
pub proof fn approved_paths_keep_their_order(paths: Seq<Seq<u8>>) -> (chosen: Seq<int>)
    ensures
        chosen.len() == absolute_ones(paths).len(),
        forall|k: int, l: int|
            0 <= k < l < chosen.len() ==> #[trigger] chosen[k] < #[trigger] chosen[l],
        forall|k: int|
            0 <= k < chosen.len() ==> {
                let i = #[trigger] chosen[k];
                &&& 0 <= i < paths.len()
                &&& absolute_ones(paths)[k] == paths[i]
                &&& paths[i].len() > 0 && paths[i][0] == 47
            },
        forall|i: int|
            0 <= i < paths.len() && paths[i].len() > 0 && paths[i][0] == 47
                ==> #[trigger] chosen.contains(i),
    decreases paths.len(),
{
    if paths.len() == 0 {
        Seq::empty()
    } else {
        let n = paths.len() - 1;
        let earlier = approved_paths_keep_their_order(paths.drop_last());
        let taken = paths[n].len() > 0 && paths[n][0] == 47;
        let chosen = if taken {
            earlier.push(n)
        } else {
            earlier
        };
        assert forall|k: int| 0 <= k < chosen.len() implies {
            let i = #[trigger] chosen[k];
            &&& 0 <= i < paths.len()
            &&& absolute_ones(paths)[k] == paths[i]
            &&& paths[i].len() > 0 && paths[i][0] == 47
        } by {
            if k < earlier.len() {
                assert(chosen[k] == earlier[k]);
                assert(paths.drop_last()[earlier[k]] == paths[earlier[k]]);
            }
        }
        assert forall|i: int|
            0 <= i < paths.len() && paths[i].len() > 0 && paths[i][0]
                == 47 implies #[trigger] chosen.contains(i) by {
            if i < n {
                assert(paths.drop_last()[i] == paths[i]);
                assert(earlier.contains(i));
                assert(chosen[earlier.index_of(i)] == i);
            } else {
                assert(chosen[chosen.len() - 1] == i);
            }
        }
        chosen
    }
}

} // verus!
