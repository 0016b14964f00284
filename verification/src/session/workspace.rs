//! Session policy for the staging `ext-workspace-v1` global.
//!
//! The protocol layer owns protocol objects; this module owns the two decisions
//! only the session can make: what the current cluster model looks like, and
//! how a reduced transaction is applied through the existing activation path.
//!
//! | Protocol concept | Compositor |
//! |---|---|
//! | Workspace group | One currently mapped output |
//! | Workspace | One cluster, including empty clusters |
//! | Name | The cluster's name |
//! | 1-D coordinate | Published slot |
//! | Active | The cluster active on the output |
//! | No active workspace | The output is in Field mode |
//!
//! There is deliberately no synthetic "Field" workspace: Field mode is the
//! absence of an active cluster.

use vstd::prelude::*;

verus! {

/// Identity of one cluster.
#[derive(Clone, Copy, Debug, PartialEq, Eq, Structural)]
pub struct ClusterId(pub u64);

/// One mapped output. `handle` tells apart two outputs that carry the same
/// name one after the other.
#[derive(Debug)]
pub struct Output {
    pub handle: u64,
    pub name: String,
}

/// One cluster as published on an output.
#[derive(Debug)]
pub struct Cluster {
    pub slot: u8,
    pub id: ClusterId,
    pub name: String,
}

/// A mapped output together with its clusters and the cluster active on it.
#[derive(Debug)]
pub struct OutputClusters {
    pub output: Output,
    pub clusters: Vec<Cluster>,
    pub active: Option<ClusterId>,
}

/// One workspace as clients see it.
#[derive(Debug)]
pub struct WorkspaceSnapshot {
    pub id: ClusterId,
    pub name: String,
    pub order: u8,
    pub active: bool,
}

/// One workspace group as clients see it.
#[derive(Debug)]
pub struct GroupSnapshot {
    pub output: Output,
    pub workspaces: Vec<WorkspaceSnapshot>,
}

/// Everything clients see of the cluster model.
#[derive(Debug)]
pub struct Snapshot {
    pub groups: Vec<GroupSnapshot>,
}

/// `workspace` publishes `cluster` on an output whose active cluster is `active`.
pub open spec fn publishes(
    workspace: WorkspaceSnapshot,
    cluster: Cluster,
    active: Option<ClusterId>,
) -> bool {
    &&& workspace.id == cluster.id
    &&& workspace.name@ == cluster.name@
    &&& workspace.order == cluster.slot
    &&& workspace.active == (active == Some(cluster.id))
}

/// `group` publishes `source`: the same output, and its clusters one by one.
pub open spec fn publishes_group(group: GroupSnapshot, source: OutputClusters) -> bool {
    &&& group.output.handle == source.output.handle
    &&& group.output.name@ == source.output.name@
    &&& group.workspaces@.len() == source.clusters@.len()
    &&& forall|i: int|
        0 <= i < source.clusters@.len() ==> publishes(
            #[trigger] group.workspaces@[i],
            source.clusters@[i],
            source.active,
        )
}

/// `snapshot` publishes `session`: one group per mapped output, in order.
pub open spec fn publishes_session(snapshot: Snapshot, session: Seq<OutputClusters>) -> bool {
    &&& snapshot.groups@.len() == session.len()
    &&& forall|i: int|
        0 <= i < session.len() ==> publishes_group(#[trigger] snapshot.groups@[i], session[i])
}

fn group_snapshot(source: &OutputClusters) -> (res: GroupSnapshot)
    ensures
        publishes_group(res, *source),
{
    let mut workspaces: Vec<WorkspaceSnapshot> = Vec::new();
    let mut i: usize = 0;
    while i < source.clusters.len()
        invariant
            i <= source.clusters@.len(),
            workspaces@.len() == i,
            forall|j: int|
                0 <= j < i ==> publishes(
                    #[trigger] workspaces@[j],
                    source.clusters@[j],
                    source.active,
                ),
        decreases source.clusters@.len() - i,
    {
        let cluster = &source.clusters[i];
        let active = match source.active {
            Some(id) => id == cluster.id,
            None => false,
        };
        workspaces.push(
            WorkspaceSnapshot {
                id: cluster.id,
                name: cluster.name.clone(),
                order: cluster.slot,
                active,
            },
        );
        i += 1;
    }
    GroupSnapshot {
        output: Output { handle: source.output.handle, name: source.output.name.clone() },
        workspaces,
    }
}

/// Builds the protocol-visible view of the cluster model.
///
/// Groups exist only for currently mapped outputs, and a cluster is advertised
/// only while its owning output is mapped. Nothing is created or moved here.
pub fn snapshot(session: &Vec<OutputClusters>) -> (res: Snapshot)
    ensures
        publishes_session(res, session@),
{
    let mut groups: Vec<GroupSnapshot> = Vec::new();
    let mut i: usize = 0;
    while i < session.len()
        invariant
            i <= session@.len(),
            groups@.len() == i,
            forall|j: int| 0 <= j < i ==> publishes_group(#[trigger] groups@[j], session@[j]),
        decreases session@.len() - i,
    {
        groups.push(group_snapshot(&session[i]));
        i += 1;
    }
    Snapshot { groups }
}

/// The snapshot to push to every manager binding, or `None` while no client has
/// bound the manager.
pub fn sync_ext_workspace(idle: bool, session: &Vec<OutputClusters>) -> (res: Option<Snapshot>)
    ensures
        idle ==> res is None,
        !idle ==> (res matches Some(published) && publishes_session(published, session@)),
{
    if idle {
        None
    } else {
        Some(snapshot(session))
    }
}

/// A compositor grab of the pointer.
#[derive(Clone, Copy, Debug, PartialEq, Eq, Structural)]
pub enum Grab {
    Free,
    Held,
}

/// External activation is ignored while switching would be unsafe.
///
/// The session lock owns the screen and a compositor grab owns the pointer.
/// Neither is cancelled or bypassed from here: the request is simply dropped.
pub fn switching_allowed(locked: bool, grab: Grab) -> (res: bool)
    ensures
        res == (!locked && grab == Grab::Free),
{
    !locked && grab == Grab::Free
}

/// The final selection of every output a transaction touches, and the output
/// whose activation came last.
#[derive(Debug)]
pub struct TransactionPlan {
    pub selections: Vec<(String, Option<ClusterId>)>,
    pub focus: Option<(String, ClusterId)>,
}

/// A plan with its text as characters.
#[verifier::ext_equal]
pub struct PlanView {
    pub selections: Seq<(Seq<char>, Option<ClusterId>)>,
    pub focus: Option<(Seq<char>, ClusterId)>,
}

impl View for TransactionPlan {
    type V = PlanView;

    open spec fn view(&self) -> PlanView {
        PlanView {
            selections: self.selections@.map_values(
                |s: (String, Option<ClusterId>)| (s.0@, s.1),
            ),
            focus: match self.focus {
                Some(focus) => Some((focus.0@, focus.1)),
                None => None,
            },
        }
    }
}

impl TransactionPlan {
    /// Whether the plan selects nothing.
    pub fn is_empty(&self) -> (res: bool)
        ensures
            res == (self@.selections.len() == 0),
    {
        self.selections.len() == 0
    }
}

/// A selection that changed its output.
#[derive(Debug)]
pub struct AppliedSwitch {
    pub output: String,
    pub target: ClusterId,
    pub owned_focus: bool,
}

/// An applied switch with its text as characters.
#[verifier::ext_equal]
pub struct SwitchView {
    pub output: Seq<char>,
    pub target: ClusterId,
    pub owned_focus: bool,
}

impl View for AppliedSwitch {
    type V = SwitchView;

    open spec fn view(&self) -> SwitchView {
        SwitchView {
            output: self.output@,
            target: self.target,
            owned_focus: self.owned_focus,
        }
    }
}

/// What the session answered for one selection: the cluster concerned, whether
/// it owned the keyboard focus before the change, and whether the cluster model
/// changed.
pub struct Outcome {
    pub target: Option<ClusterId>,
    pub owned_focus: bool,
    pub changed: bool,
}

/// The switches that `outcomes` made of `selections`, in order: one for every
/// selection that had a target and changed the model.
pub open spec fn applied_switches(
    selections: Seq<(Seq<char>, Option<ClusterId>)>,
    outcomes: Seq<Outcome>,
) -> Seq<SwitchView>
    decreases selections.len(),
{
    if selections.len() == 0 {
        Seq::empty()
    } else {
        let earlier = applied_switches(selections.drop_last(), outcomes.drop_last());
        let outcome = outcomes.last();
        match outcome.target {
            Some(target) => if outcome.changed {
                earlier.push(
                    SwitchView {
                        output: selections.last().0,
                        target,
                        owned_focus: outcome.owned_focus,
                    },
                )
            } else {
                earlier
            },
            None => earlier,
        }
    }
}

/// What a transaction waits for.
#[derive(Clone, Copy, Debug, PartialEq, Eq, Structural)]
pub enum Pending {
    /// Which cluster is active on the output to be cleared.
    Active,
    /// Whether `target` owns the keyboard focus.
    Focus { target: ClusterId },
    /// The switch itself.
    Switch { target: ClusterId, owned_focus: bool },
    /// Nothing: every selection was handled.
    Done,
}

/// What the transaction at `selections[index]` waits for first.
pub open spec fn first_pending(
    selections: Seq<(Seq<char>, Option<ClusterId>)>,
    index: int,
) -> Pending {
    if 0 <= index < selections.len() {
        match selections[index].1 {
            Some(target) => Pending::Focus { target },
            None => Pending::Active,
        }
    } else {
        Pending::Done
    }
}

/// The session's answer to a step.
#[derive(Clone, Copy, Debug, PartialEq, Eq, Structural)]
pub enum Event {
    Active(Option<ClusterId>),
    OwnsFocus(bool),
    Changed(bool),
}

/// What a transaction has seen so far.
#[verifier::ext_equal]
pub struct TransactionView {
    pub plan: PlanView,
    pub pending: Pending,
    pub outcomes: Seq<Outcome>,
}

impl TransactionView {
    /// The selection being handled is settled with `outcome`.
    pub open spec fn settled(self, outcome: Outcome) -> TransactionView {
        TransactionView {
            plan: self.plan,
            pending: first_pending(self.plan.selections, self.outcomes.len() as int + 1),
            outcomes: self.outcomes.push(outcome),
        }
    }

    /// The transaction after the session answered `event`. An answer to
    /// anything but the pending question changes nothing.
    pub open spec fn after(self, event: Event) -> TransactionView {
        match (self.pending, event) {
            (Pending::Active, Event::Active(None)) => self.settled(
                Outcome { target: None, owned_focus: false, changed: false },
            ),
            (Pending::Active, Event::Active(Some(target))) => TransactionView {
                pending: Pending::Focus { target },
                ..self
            },
            (Pending::Focus { target }, Event::OwnsFocus(owned_focus)) => TransactionView {
                pending: Pending::Switch { target, owned_focus },
                ..self
            },
            (Pending::Switch { target, owned_focus }, Event::Changed(changed)) => self.settled(
                Outcome { target: Some(target), owned_focus, changed },
            ),
            _ => self,
        }
    }

    /// The switches made so far.
    pub open spec fn applied(self) -> Seq<SwitchView> {
        applied_switches(self.plan.selections.take(self.outcomes.len() as int), self.outcomes)
    }
}

/// What the session is asked to do next.
#[derive(Debug)]
pub enum Step {
    /// Say which cluster is active on `output`.
    Active { output: String },
    /// Say whether `cluster` owns the keyboard focus.
    Focus { cluster: ClusterId },
    /// Activate exactly `cluster` on `output`, and say whether anything changed.
    Activate { output: String, cluster: ClusterId },
    /// Clear `output`, and say whether anything changed.
    Deactivate { output: String },
    /// Nothing more: finish the transaction.
    Done,
}

/// How the camera and the keyboard follow one applied switch.
#[derive(Debug)]
pub enum SwitchSync {
    /// Hand the keyboard to the output's cluster and move its camera.
    Focus { handle: u64, cluster: ClusterId, owned_focus: bool },
    /// Only move the camera of the output.
    Camera { output: String },
}

/// A synchronisation with its text as characters.
#[verifier::ext_equal]
pub enum SwitchSyncView {
    Focus { handle: u64, cluster: ClusterId, owned_focus: bool },
    Camera { output: Seq<char> },
}

impl View for SwitchSync {
    type V = SwitchSyncView;

    open spec fn view(&self) -> SwitchSyncView {
        match *self {
            SwitchSync::Focus { handle, cluster, owned_focus } => SwitchSyncView::Focus {
                handle,
                cluster,
                owned_focus,
            },
            SwitchSync::Camera { output } => SwitchSyncView::Camera { output: output@ },
        }
    }
}

/// What a finished transaction did: whether the model changed, and with it
/// whether a redraw is due, and how cameras and keyboard follow.
#[derive(Debug)]
pub struct Switched {
    pub changed: bool,
    pub syncs: Vec<SwitchSync>,
}

/// Some switch of `applied` is on `output`.
pub open spec fn switches_output(applied: Seq<SwitchView>, output: Seq<char>) -> bool {
    exists|i: int| 0 <= i < applied.len() && (#[trigger] applied[i]).output == output
}

/// The output that gets the keyboard: that of the transaction's final
/// activation when it really changed, or the single output of a one-output
/// transaction.
pub open spec fn focus_output(
    focus: Option<(Seq<char>, ClusterId)>,
    applied: Seq<SwitchView>,
) -> Option<Seq<char>> {
    if focus is Some && switches_output(applied, focus->Some_0.0) {
        Some(focus->Some_0.0)
    } else if applied.len() == 1 {
        Some(applied[0].output)
    } else {
        None
    }
}

/// The handle of the first output called `name`.
pub open spec fn find_output(outputs: Seq<Output>, name: Seq<char>) -> Option<u64>
    decreases outputs.len(),
{
    if outputs.len() == 0 {
        None
    } else if outputs[0].name@ == name {
        Some(outputs[0].handle)
    } else {
        find_output(outputs.drop_first(), name)
    }
}

/// How `switch` is followed, unless its output is no longer mapped.
pub open spec fn sync_for(
    switch: SwitchView,
    focused: Option<Seq<char>>,
    outputs: Seq<Output>,
) -> Option<SwitchSyncView> {
    match find_output(outputs, switch.output) {
        Some(handle) => if focused == Some(switch.output) {
            Some(
                SwitchSyncView::Focus {
                    handle,
                    cluster: switch.target,
                    owned_focus: switch.owned_focus,
                },
            )
        } else {
            Some(SwitchSyncView::Camera { output: switch.output })
        },
        None => None,
    }
}

/// How `applied` is followed, in order.
pub open spec fn syncs_for(
    applied: Seq<SwitchView>,
    focused: Option<Seq<char>>,
    outputs: Seq<Output>,
) -> Seq<SwitchSyncView>
    decreases applied.len(),
{
    if applied.len() == 0 {
        Seq::empty()
    } else {
        let earlier = syncs_for(applied.drop_last(), focused, outputs);
        match sync_for(applied.last(), focused, outputs) {
            Some(sync) => earlier.push(sync),
            None => earlier,
        }
    }
}

/// The views of a list of switches.
pub open spec fn switch_views(applied: Seq<AppliedSwitch>) -> Seq<SwitchView> {
    applied.map_values(|s: AppliedSwitch| s@)
}

/// The views of a list of synchronisations.
pub open spec fn sync_views(syncs: Seq<SwitchSync>) -> Seq<SwitchSyncView> {
    syncs.map_values(|s: SwitchSync| s@)
}

/// A committed transaction being applied, one question or change at a time.
pub struct Transaction {
    plan: TransactionPlan,
    next: usize,
    pending: Pending,
    applied: Vec<AppliedSwitch>,
    outcomes: Ghost<Seq<Outcome>>,
}

impl View for Transaction {
    type V = TransactionView;

    closed spec fn view(&self) -> TransactionView {
        TransactionView {
            plan: self.plan@,
            pending: self.pending,
            outcomes: self.outcomes@,
        }
    }
}

impl Transaction {
    /// The transaction has settled a prefix of its selections, and recorded the
    /// switches they made.
    pub closed spec fn wf(&self) -> bool {
        &&& self.next == self.outcomes@.len()
        &&& self.next <= self.plan@.selections.len()
        &&& switch_views(self.applied@) == self@.applied()
        &&& self.pending is Done <==> self.next == self.plan@.selections.len()
        &&& self.pending is Active ==> self.plan@.selections[self.next as int].1 is None
    }

    fn pending_at(plan: &TransactionPlan, index: usize) -> (res: Pending)
        ensures
            res == first_pending(plan@.selections, index as int),
    {
        if index < plan.selections.len() {
            match plan.selections[index].1 {
                Some(target) => Pending::Focus { target },
                None => Pending::Active,
            }
        } else {
            Pending::Done
        }
    }

    fn settle(&mut self)
        requires
            old(self).next < old(self).plan@.selections.len(),
        ensures
            final(self).plan == old(self).plan,
            final(self).applied == old(self).applied,
            final(self).outcomes == old(self).outcomes,
            final(self).next == old(self).next + 1,
            final(self).pending == first_pending(old(self).plan@.selections, old(self).next + 1),
    {
        assert(self.next < self.plan.selections.len());
        self.next = self.next + 1;
        self.pending = Self::pending_at(&self.plan, self.next);
    }

    /// What the session is asked to do next.
    pub fn step(&self) -> (res: Step)
        requires
            self.wf(),
        ensures
            self@.pending is Done <==> self@.outcomes.len() == self@.plan.selections.len(),
            match self@.pending {
                Pending::Active => res matches Step::Active { output } && output@
                    == self@.plan.selections[self@.outcomes.len() as int].0,
                Pending::Focus { target } => res == (Step::Focus { cluster: target }),
                Pending::Switch { target, .. } => match self@.plan.selections[self@.outcomes.len() as int].1 {
                    Some(id) => res matches Step::Activate { output, cluster } && output@
                        == self@.plan.selections[self@.outcomes.len() as int].0 && cluster == id,
                    None => res matches Step::Deactivate { output } && output@
                        == self@.plan.selections[self@.outcomes.len() as int].0,
                },
                Pending::Done => res is Done,
            },
    {
        match self.pending {
            Pending::Active => Step::Active { output: self.plan.selections[self.next].0.clone() },
            Pending::Focus { target } => Step::Focus { cluster: target },
            Pending::Switch { target: _, owned_focus: _ } => {
                let output = self.plan.selections[self.next].0.clone();
                match self.plan.selections[self.next].1 {
                    Some(cluster) => Step::Activate { output, cluster },
                    None => Step::Deactivate { output },
                }
            },
            Pending::Done => Step::Done,
        }
    }

    /// Takes the session's answer to the last step.
    pub fn advance(&mut self, event: Event)
        requires
            old(self).wf(),
        ensures
            final(self).wf(),
            final(self)@ == old(self)@.after(event),
    {
        match (self.pending, event) {
            (Pending::Active, Event::Active(None)) => {
                self.outcomes = Ghost(
                    self.outcomes@.push(
                        Outcome { target: None, owned_focus: false, changed: false },
                    ),
                );
                self.settle();
            },
            (Pending::Active, Event::Active(Some(target))) => {
                self.pending = Pending::Focus { target };
            },
            (Pending::Focus { target }, Event::OwnsFocus(owned_focus)) => {
                self.pending = Pending::Switch { target, owned_focus };
            },
            (Pending::Switch { target, owned_focus }, Event::Changed(changed)) => {
                if changed {
                    let output = self.plan.selections[self.next].0.clone();
                    self.applied.push(AppliedSwitch { output, target, owned_focus });
                }
                self.outcomes = Ghost(
                    self.outcomes@.push(Outcome { target: Some(target), owned_focus, changed }),
                );
                self.settle();
            },
            _ => {},
        }
        proof {
            let before = old(self)@;
            let n = before.outcomes.len() as int;
            let selections = before.plan.selections;
            if self.next != old(self).next {
                assert(selections.take(n + 1).drop_last() == selections.take(n));
                assert(self.outcomes@.drop_last() == before.outcomes);
                assert(selections.take(n + 1).last() == selections[n]);
                assert(switch_views(self.applied@) == self@.applied());
            }
        }
    }

    /// Finishes a transaction whose selections were all handled.
    ///
    /// Every changed output has its camera synchronised, but the keyboard is
    /// handed over at most once.
    pub fn finish(self, outputs: &Vec<Output>) -> (res: Switched)
        requires
            self.wf(),
            self@.pending is Done,
        ensures
            res.changed == (self@.applied().len() > 0),
            sync_views(res.syncs@) == syncs_for(
                self@.applied(),
                focus_output(self@.plan.focus, self@.applied()),
                outputs@,
            ),
    {
        let ghost applied = self@.applied();
        let focused = choose_focus(&self.plan.focus, &self.applied);
        let mut syncs: Vec<SwitchSync> = Vec::new();
        let mut i: usize = 0;
        let ghost focused_view = crate::text::optional_text(focused);
        assert(applied.take(0) == Seq::<SwitchView>::empty());
        assert(sync_views(syncs@) == Seq::<SwitchSyncView>::empty());
        while i < self.applied.len()
            invariant
                i <= self.applied@.len(),
                applied == switch_views(self.applied@),
                focused_view == crate::text::optional_text(focused),
                sync_views(syncs@) == syncs_for(applied.take(i as int), focused_view, outputs@),
            decreases self.applied@.len() - i,
        {
            let switch = &self.applied[i];
            let ghost before = syncs@;
            proof {
                assert(applied.take(i + 1).drop_last() == applied.take(i as int));
                assert(applied.take(i + 1).last() == switch@);
            }
            if let Some(handle) = lookup_output(outputs, &switch.output) {
                let gets_keyboard = match &focused {
                    Some(output) => *output == switch.output,
                    None => false,
                };
                if gets_keyboard {
                    syncs.push(
                        SwitchSync::Focus {
                            handle,
                            cluster: switch.target,
                            owned_focus: switch.owned_focus,
                        },
                    );
                } else {
                    syncs.push(SwitchSync::Camera { output: switch.output.clone() });
                }
                assert(sync_views(syncs@) == sync_views(before).push(syncs@.last()@));
            }
            i += 1;
        }
        assert(applied.take(applied.len() as int) == applied);
        Switched { changed: self.applied.len() > 0, syncs }
    }
}

fn lookup_output(outputs: &Vec<Output>, name: &String) -> (res: Option<u64>)
    ensures
        res == find_output(outputs@, name@),
{
    let mut i: usize = 0;
    assert(outputs@.skip(0) == outputs@);
    while i < outputs.len()
        invariant
            i <= outputs@.len(),
            find_output(outputs@, name@) == find_output(outputs@.skip(i as int), name@),
        decreases outputs@.len() - i,
    {
        assert(outputs@.skip(i as int).drop_first() == outputs@.skip(i + 1));
        if outputs[i].name == *name {
            return Some(outputs[i].handle);
        }
        i += 1;
    }
    None
}

fn choose_focus(focus: &Option<(String, ClusterId)>, applied: &Vec<AppliedSwitch>) -> (res: Option<
    String,
>)
    ensures
        crate::text::optional_text(res) == focus_output(
            match focus {
                Some(f) => Some((f.0@, f.1)),
                None => None,
            },
            switch_views(applied@),
        ),
{
    let ghost views = switch_views(applied@);
    if let Some(wanted) = focus {
        let mut i: usize = 0;
        while i < applied.len()
            invariant
                i <= applied@.len(),
                views == switch_views(applied@),
                *focus == Some(*wanted),
                forall|j: int| 0 <= j < i ==> (#[trigger] views[j]).output != wanted.0@,
            decreases applied@.len() - i,
        {
            if applied[i].output == wanted.0 {
                assert(views[i as int].output == wanted.0@);
                return Some(wanted.0.clone());
            }
            assert(views[i as int].output != wanted.0@);
            i += 1;
        }
        assert(!switches_output(views, wanted.0@));
    }
    if applied.len() == 1 {
        assert(views[0].output == applied@[0].output@);
        Some(applied[0].output.clone())
    } else {
        None
    }
}

/// Begins to apply a committed transaction through the existing activation
/// path. `None` when the transaction is declined: nothing is asked of the
/// session then, and the model does not change.
pub fn apply_transaction(plan: TransactionPlan, locked: bool, grab: Grab) -> (res: Option<
    Transaction,
>)
    ensures
        res is None <==> plan@.selections.len() == 0 || locked || grab == Grab::Held,
        res matches Some(transaction) ==> {
            &&& transaction.wf()
            &&& transaction@ == (TransactionView {
                plan: plan@,
                pending: first_pending(plan@.selections, 0),
                outcomes: Seq::empty(),
            })
        },
{
    if plan.is_empty() || !switching_allowed(locked, grab) {
        return None;
    }
    let pending = Transaction::pending_at(&plan, 0);
    let transaction = Transaction {
        plan,
        next: 0,
        pending,
        applied: Vec::new(),
        outcomes: Ghost(Seq::empty()),
    };
    assert(switch_views(transaction.applied@) == transaction@.applied());
    Some(transaction)
}

/// The outputs of `selections` are pairwise different.
pub open spec fn distinct_outputs(selections: Seq<(Seq<char>, Option<ClusterId>)>) -> bool {
    forall|i: int, j: int|
        0 <= i < j < selections.len() ==> (#[trigger] selections[i]).0 != (
        #[trigger] selections[j]).0
}

/// An output in Field mode publishes no active workspace.
pub proof fn field_mode_has_no_active_workspace(group: GroupSnapshot, source: OutputClusters)
    requires
        publishes_group(group, source),
        source.active is None,
    ensures
        forall|i: int|
            0 <= i < group.workspaces@.len() ==> !(#[trigger] group.workspaces@[i]).active,
{
}

/// A group whose clusters are pairwise different has at most one active
/// workspace, and it is the cluster active on the output.
pub proof fn at_most_one_workspace_is_active(
    group: GroupSnapshot,
    source: OutputClusters,
    i: int,
    j: int,
)
    requires
        publishes_group(group, source),
        forall|a: int, b: int|
            0 <= a < b < source.clusters@.len() ==> (#[trigger] source.clusters@[a]).id != (
            #[trigger] source.clusters@[b]).id,
        0 <= i < group.workspaces@.len(),
        0 <= j < group.workspaces@.len(),
        group.workspaces@[i].active,
        group.workspaces@[j].active,
    ensures
        i == j,
        source.active == Some(group.workspaces@[i].id),
{
    let a = source.clusters@[i];
    let b = source.clusters@[j];
    assert(publishes(group.workspaces@[i], a, source.active));
    assert(publishes(group.workspaces@[j], b, source.active));
}

/// Focus ownership is captured before the model changes: the answer recorded
/// for a selection is the one given before its switch was asked for.
pub proof fn focus_is_captured_before_the_switch(
    before: TransactionView,
    target: ClusterId,
    owned_focus: bool,
    changed: bool,
)
    requires
        before.pending == (Pending::Focus { target }),
    ensures
        before.after(Event::Changed(changed)) == before,
        before.after(Event::OwnsFocus(owned_focus)).outcomes == before.outcomes,
        before.after(Event::OwnsFocus(owned_focus)).after(Event::Changed(changed)).outcomes
            == before.outcomes.push(Outcome { target: Some(target), owned_focus, changed }),
{
}

/// Every applied switch is one of the selections, with the target, the focus
/// ownership and the change that the session reported for it.
pub proof fn every_switch_is_a_changed_selection(
    selections: Seq<(Seq<char>, Option<ClusterId>)>,
    outcomes: Seq<Outcome>,
    k: int,
) -> (i: int)
    requires
        selections.len() == outcomes.len(),
        0 <= k < applied_switches(selections, outcomes).len(),
    ensures
        0 <= i < selections.len(),
        outcomes[i].changed,
        outcomes[i].target == Some(applied_switches(selections, outcomes)[k].target),
        outcomes[i].owned_focus == applied_switches(selections, outcomes)[k].owned_focus,
        selections[i].0 == applied_switches(selections, outcomes)[k].output,
    decreases selections.len(),
{
    let earlier = applied_switches(selections.drop_last(), outcomes.drop_last());
    if k < earlier.len() {
        every_switch_is_a_changed_selection(selections.drop_last(), outcomes.drop_last(), k)
    } else {
        selections.len() - 1
    }
}

/// Every selection that had a target and changed the model is an applied
/// switch.
pub proof fn every_changed_selection_is_a_switch(
    selections: Seq<(Seq<char>, Option<ClusterId>)>,
    outcomes: Seq<Outcome>,
    i: int,
)
    requires
        selections.len() == outcomes.len(),
        0 <= i < selections.len(),
        outcomes[i].changed,
        outcomes[i].target is Some,
    ensures
        applied_switches(selections, outcomes).contains(
            SwitchView {
                output: selections[i].0,
                target: outcomes[i].target->Some_0,
                owned_focus: outcomes[i].owned_focus,
            },
        ),
    decreases selections.len(),
{
    let applied = applied_switches(selections, outcomes);
    let earlier = applied_switches(selections.drop_last(), outcomes.drop_last());
    let switch = SwitchView {
        output: selections[i].0,
        target: outcomes[i].target->Some_0,
        owned_focus: outcomes[i].owned_focus,
    };
    if i == selections.len() - 1 {
        assert(applied == earlier.push(switch));
        assert(applied[applied.len() - 1] == switch);
    } else {
        every_changed_selection_is_a_switch(selections.drop_last(), outcomes.drop_last(), i);
        let k = choose|k: int| 0 <= k < earlier.len() && earlier[k] == switch;
        assert(applied[k] == switch);
    }
}

/// A transaction that changes nothing has no applied switch and nothing follows
/// it.
pub proof fn unchanged_selections_have_no_effect(
    plan: PlanView,
    outcomes: Seq<Outcome>,
    outputs: Seq<Output>,
)
    requires
        plan.selections.len() == outcomes.len(),
        forall|i: int| 0 <= i < outcomes.len() ==> !(#[trigger] outcomes[i]).changed,
    ensures
        applied_switches(plan.selections, outcomes).len() == 0,
        syncs_for(
            applied_switches(plan.selections, outcomes),
            focus_output(plan.focus, applied_switches(plan.selections, outcomes)),
            outputs,
        ).len() == 0,
{
    let applied = applied_switches(plan.selections, outcomes);
    if applied.len() > 0 {
        let i = every_switch_is_a_changed_selection(plan.selections, outcomes, 0);
    }
}

/// `active` says which cluster is active on each output; the selection of one
/// output makes this of it.
pub open spec fn after_selection(
    active: Map<Seq<char>, ClusterId>,
    selection: (Seq<char>, Option<ClusterId>),
) -> Map<Seq<char>, ClusterId> {
    match selection.1 {
        Some(id) => active.insert(selection.0, id),
        None => active.remove(selection.0),
    }
}

/// The active clusters after `selections`, one after the other.
pub open spec fn after_selections(
    active: Map<Seq<char>, ClusterId>,
    selections: Seq<(Seq<char>, Option<ClusterId>)>,
) -> Map<Seq<char>, ClusterId>
    decreases selections.len(),
{
    if selections.len() == 0 {
        active
    } else {
        after_selection(after_selections(active, selections.drop_last()), selections.last())
    }
}

/// The active cluster of the output is the selected one, or there is none where
/// none is selected.
pub open spec fn is_selected(
    active: Map<Seq<char>, ClusterId>,
    selection: (Seq<char>, Option<ClusterId>),
) -> bool {
    match selection.1 {
        Some(id) => active.contains_pair(selection.0, id),
        None => !active.contains_key(selection.0),
    }
}

/// The cluster that a selection concerns: the selected one, or the active one
/// that is to be cleared.
pub open spec fn concerned(
    active: Map<Seq<char>, ClusterId>,
    selection: (Seq<char>, Option<ClusterId>),
) -> Option<ClusterId> {
    match selection.1 {
        Some(id) => Some(id),
        None => if active.contains_key(selection.0) {
            Some(active[selection.0])
        } else {
            None
        },
    }
}

/// `outcomes` are those of a session that reports a change exactly when the
/// active cluster of the output differs from the selection.
pub open spec fn truthful(
    active: Map<Seq<char>, ClusterId>,
    selections: Seq<(Seq<char>, Option<ClusterId>)>,
    outcomes: Seq<Outcome>,
) -> bool {
    &&& outcomes.len() == selections.len()
    &&& forall|i: int|
        0 <= i < outcomes.len() ==> {
            let now = after_selections(active, selections.take(i));
            &&& (#[trigger] outcomes[i]).target == concerned(now, selections[i])
            &&& outcomes[i].changed == !is_selected(now, selections[i])
        }
}

/// The transaction has come as far as a truthful session lets it, from the
/// active clusters `active` on.
pub open spec fn on_track(active: Map<Seq<char>, ClusterId>, transaction: TransactionView) -> bool {
    let selections = transaction.plan.selections;
    let n = transaction.outcomes.len() as int;
    let now = after_selections(active, selections.take(n));
    &&& n <= selections.len()
    &&& truthful(active, selections.take(n), transaction.outcomes)
    &&& match transaction.pending {
        Pending::Active => n < selections.len() && selections[n].1 is None,
        Pending::Focus { target } => n < selections.len() && concerned(now, selections[n]) == Some(
            target,
        ),
        Pending::Switch { target, .. } => n < selections.len() && concerned(now, selections[n])
            == Some(target),
        Pending::Done => n == selections.len(),
    }
}

/// `event` is what a truthful session answers.
pub open spec fn answers_truthfully(
    active: Map<Seq<char>, ClusterId>,
    transaction: TransactionView,
    event: Event,
) -> bool {
    let selections = transaction.plan.selections;
    let n = transaction.outcomes.len() as int;
    let now = after_selections(active, selections.take(n));
    match transaction.pending {
        Pending::Active => event == Event::Active(concerned(now, selections[n])),
        Pending::Focus { .. } => event is OwnsFocus,
        Pending::Switch { .. } => event == Event::Changed(!is_selected(now, selections[n])),
        Pending::Done => true,
    }
}

/// How many answers a transaction still waits for at most.
pub open spec fn answers_left(transaction: TransactionView) -> int {
    let left = transaction.plan.selections.len() - transaction.outcomes.len();
    match transaction.pending {
        Pending::Active => 3 * left,
        Pending::Focus { .. } => 3 * left - 1,
        Pending::Switch { .. } => 3 * left - 2,
        Pending::Done => 0,
    }
}

/// A transaction begins on track.
pub proof fn transactions_begin_on_track(active: Map<Seq<char>, ClusterId>, plan: PlanView)
    ensures
        on_track(
            active,
            TransactionView {
                plan,
                pending: first_pending(plan.selections, 0),
                outcomes: Seq::empty(),
            },
        ),
{
}

/// Each truthful answer keeps a transaction on track and brings it nearer to its
/// end.
pub proof fn truthful_answers_keep_transactions_on_track(
    active: Map<Seq<char>, ClusterId>,
    transaction: TransactionView,
    event: Event,
)
    requires
        on_track(active, transaction),
        answers_truthfully(active, transaction, event),
    ensures
        on_track(active, transaction.after(event)),
        transaction.pending !is Done ==> 0 <= answers_left(transaction.after(event))
            < answers_left(transaction),
{
    let selections = transaction.plan.selections;
    let n = transaction.outcomes.len() as int;
    let after = transaction.after(event);
    if after.outcomes.len() > n {
        assert(after.outcomes.drop_last() == transaction.outcomes);
        assert forall|i: int| 0 <= i < after.outcomes.len() implies {
            let now = after_selections(active, selections.take(n + 1).take(i));
            &&& (#[trigger] after.outcomes[i]).target == concerned(
                now,
                selections.take(n + 1)[i],
            )
            &&& after.outcomes[i].changed == !is_selected(now, selections.take(n + 1)[i])
        } by {
            assert(selections.take(n + 1).take(i) == selections.take(i));
            if i < n {
                assert(selections.take(n).take(i) == selections.take(i));
                assert(after.outcomes[i] == transaction.outcomes[i]);
            }
        }
    }
}

proof fn selected_outputs_stay_selected(
    active: Map<Seq<char>, ClusterId>,
    selections: Seq<(Seq<char>, Option<ClusterId>)>,
)
    requires
        forall|i: int|
            0 <= i < selections.len() ==> is_selected(active, #[trigger] selections[i]),
    ensures
        after_selections(active, selections) == active,
    decreases selections.len(),
{
    if selections.len() > 0 {
        let rest = selections.drop_last();
        assert forall|i: int| 0 <= i < rest.len() implies is_selected(
            active,
            #[trigger] rest[i],
        ) by {
            assert(rest[i] == selections[i]);
        }
        selected_outputs_stay_selected(active, rest);
        assert(is_selected(active, selections[selections.len() - 1]));
        assert(after_selection(active, selections.last()) == active);
    }
}

/// After the selections of a transaction the active cluster of each selected
/// output is its selection, and other outputs are as they were.
pub proof fn selections_take_effect(
    active: Map<Seq<char>, ClusterId>,
    selections: Seq<(Seq<char>, Option<ClusterId>)>,
    other: Seq<char>,
)
    requires
        distinct_outputs(selections),
    ensures
        forall|i: int|
            0 <= i < selections.len() ==> is_selected(
                after_selections(active, selections),
                #[trigger] selections[i],
            ),
        (forall|i: int| 0 <= i < selections.len() ==> (#[trigger] selections[i]).0 != other)
            ==> after_selections(active, selections).contains_key(other) == active.contains_key(
            other,
        ) && after_selections(active, selections)[other] == active[other],
    decreases selections.len(),
{
    if selections.len() > 0 {
        let rest = selections.drop_last();
        let last = selections.last();
        assert(last == selections[selections.len() - 1]);
        assert forall|i: int, j: int| 0 <= i < j < rest.len() implies (#[trigger] rest[i]).0 != (
        #[trigger] rest[j]).0 by {
            assert(rest[i] == selections[i] && rest[j] == selections[j]);
        }
        selections_take_effect(active, rest, other);
        assert forall|i: int| 0 <= i < selections.len() implies is_selected(
            after_selections(active, selections),
            #[trigger] selections[i],
        ) by {
            if i < rest.len() {
                assert(rest[i] == selections[i]);
                assert(selections[i].0 != selections[selections.len() - 1].0);
            }
        }
        if forall|i: int| 0 <= i < selections.len() ==> (#[trigger] selections[i]).0 != other {
            assert forall|i: int| 0 <= i < rest.len() implies (#[trigger] rest[i]).0 != other by {
                assert(rest[i] == selections[i]);
            }
        }
    }
}

/// Repeating a transaction is idempotent: once a truthful session has carried out
/// its selections, a second run of the same selections changes nothing, switches
/// nothing, and nothing follows it.
pub proof fn repeating_a_transaction_changes_nothing(
    active: Map<Seq<char>, ClusterId>,
    again: TransactionView,
    outputs: Seq<Output>,
)
    requires
        distinct_outputs(again.plan.selections),
        on_track(after_selections(active, again.plan.selections), again),
        again.pending is Done,
    ensures
        after_selections(after_selections(active, again.plan.selections), again.plan.selections)
            == after_selections(active, again.plan.selections),
        again.applied().len() == 0,
        syncs_for(
            again.applied(),
            focus_output(again.plan.focus, again.applied()),
            outputs,
        ).len() == 0,
{
    let selections = again.plan.selections;
    let reached = after_selections(active, selections);
    selections_take_effect(active, selections, Seq::empty());
    selected_outputs_stay_selected(reached, selections);
    assert(selections.take(selections.len() as int) == selections);
    assert forall|i: int| 0 <= i < again.outcomes.len() implies !(
    #[trigger] again.outcomes[i]).changed by {
        let before = selections.take(i);
        assert forall|j: int| 0 <= j < before.len() implies is_selected(
            reached,
            #[trigger] before[j],
        ) by {
            assert(before[j] == selections[j]);
        }
        selected_outputs_stay_selected(reached, before);
        assert(is_selected(reached, selections[i]));
    }
    unchanged_selections_have_no_effect(again.plan, again.outcomes, outputs);
}

proof fn applied_outputs_are_distinct(
    selections: Seq<(Seq<char>, Option<ClusterId>)>,
    outcomes: Seq<Outcome>,
)
    requires
        selections.len() == outcomes.len(),
        distinct_outputs(selections),
    ensures
        forall|i: int, j: int|
            0 <= i < j < applied_switches(selections, outcomes).len() ==> (
            #[trigger] applied_switches(selections, outcomes)[i]).output != (
            #[trigger] applied_switches(selections, outcomes)[j]).output,
    decreases selections.len(),
{
    if selections.len() > 0 {
        let applied = applied_switches(selections, outcomes);
        let earlier = applied_switches(selections.drop_last(), outcomes.drop_last());
        applied_outputs_are_distinct(selections.drop_last(), outcomes.drop_last());
        assert forall|i: int, j: int| 0 <= i < j < applied.len() implies (
        #[trigger] applied[i]).output != (#[trigger] applied[j]).output by {
            if j == earlier.len() {
                let k = every_switch_is_a_changed_selection(
                    selections.drop_last(),
                    outcomes.drop_last(),
                    i,
                );
                assert(selections[k].0 == selections.drop_last()[k].0);
                assert(selections[selections.len() - 1] == selections.last());
            }
        }
    }
}

proof fn only_the_focused_output_gets_the_keyboard(
    applied: Seq<SwitchView>,
    focused: Option<Seq<char>>,
    outputs: Seq<Output>,
)
    requires
        forall|i: int| 0 <= i < applied.len() ==> Some((#[trigger] applied[i]).output) != focused,
    ensures
        forall|i: int|
            0 <= i < syncs_for(applied, focused, outputs).len() ==> !((#[trigger] syncs_for(
                applied,
                focused,
                outputs,
            )[i]) is Focus),
    decreases applied.len(),
{
    if applied.len() > 0 {
        only_the_focused_output_gets_the_keyboard(applied.drop_last(), focused, outputs);
    }
}

proof fn distinct_switches_share_no_keyboard(
    applied: Seq<SwitchView>,
    focused: Option<Seq<char>>,
    outputs: Seq<Output>,
)
    requires
        forall|i: int, j: int|
            0 <= i < j < applied.len() ==> (#[trigger] applied[i]).output != (
            #[trigger] applied[j]).output,
    ensures
        forall|i: int, j: int|
            0 <= i < j < syncs_for(applied, focused, outputs).len() ==> !((#[trigger] syncs_for(
                applied,
                focused,
                outputs,
            )[i]) is Focus && (#[trigger] syncs_for(applied, focused, outputs)[j]) is Focus),
    decreases applied.len(),
{
    if applied.len() > 0 {
        let earlier = applied.drop_last();
        distinct_switches_share_no_keyboard(earlier, focused, outputs);
        if focused == Some(applied.last().output) {
            assert forall|i: int| 0 <= i < earlier.len() implies Some(
                (#[trigger] earlier[i]).output,
            ) != focused by {
                assert(applied[i].output != applied[applied.len() - 1].output);
            }
            only_the_focused_output_gets_the_keyboard(earlier, focused, outputs);
        }
    }
}

/// A transaction spanning several outputs switches all of them, but the
/// keyboard goes to at most one.
pub proof fn keyboard_goes_to_at_most_one_output(
    plan: PlanView,
    outcomes: Seq<Outcome>,
    outputs: Seq<Output>,
    i: int,
    j: int,
)
    requires
        plan.selections.len() == outcomes.len(),
        distinct_outputs(plan.selections),
        ({
            let applied = applied_switches(plan.selections, outcomes);
            let syncs = syncs_for(applied, focus_output(plan.focus, applied), outputs);
            &&& 0 <= i < syncs.len()
            &&& 0 <= j < syncs.len()
            &&& syncs[i] is Focus
            &&& syncs[j] is Focus
        }),
    ensures
        i == j,
{
    let applied = applied_switches(plan.selections, outcomes);
    let focused = focus_output(plan.focus, applied);
    applied_outputs_are_distinct(plan.selections, outcomes);
    distinct_switches_share_no_keyboard(applied, focused, outputs);
    if i < j {
        assert(!(syncs_for(applied, focused, outputs)[i] is Focus && syncs_for(
            applied,
            focused,
            outputs,
        )[j] is Focus));
    } else if j < i {
        assert(!(syncs_for(applied, focused, outputs)[j] is Focus && syncs_for(
            applied,
            focused,
            outputs,
        )[i] is Focus));
    }
}

/// Every applied switch whose output is still mapped is followed by its camera,
/// or by its camera and the keyboard.
pub proof fn every_mapped_switch_is_followed(
    applied: Seq<SwitchView>,
    focused: Option<Seq<char>>,
    outputs: Seq<Output>,
    k: int,
)
    requires
        0 <= k < applied.len(),
        find_output(outputs, applied[k].output) is Some,
    ensures
        syncs_for(applied, focused, outputs).contains(
            sync_for(applied[k], focused, outputs)->Some_0,
        ),
    decreases applied.len(),
{
    let syncs = syncs_for(applied, focused, outputs);
    let earlier = syncs_for(applied.drop_last(), focused, outputs);
    let sync = sync_for(applied[k], focused, outputs)->Some_0;
    if k == applied.len() - 1 {
        assert(syncs == earlier.push(sync));
        assert(syncs[syncs.len() - 1] == sync);
    } else {
        every_mapped_switch_is_followed(applied.drop_last(), focused, outputs, k);
        let i = choose|i: int| 0 <= i < earlier.len() && earlier[i] == sync;
        assert(syncs[i] == sync);
    }
}

/// A snapshot shows the whole model and nothing else: one group for each mapped
/// output, and in it one workspace for each cluster, with the cluster's identity,
/// name and slot, active exactly where the cluster is.
pub proof fn snapshots_show_the_model(snapshot: Snapshot, session: Seq<OutputClusters>, g: int)
    requires
        publishes_session(snapshot, session),
        0 <= g < session.len(),
    ensures
        snapshot.groups@.len() == session.len(),
        snapshot.groups@[g].output.handle == session[g].output.handle,
        snapshot.groups@[g].output.name@ == session[g].output.name@,
        snapshot.groups@[g].workspaces@.len() == session[g].clusters@.len(),
        forall|i: int|
            0 <= i < session[g].clusters@.len() ==> {
                let workspace = #[trigger] snapshot.groups@[g].workspaces@[i];
                let cluster = session[g].clusters@[i];
                &&& workspace.id == cluster.id
                &&& workspace.name@ == cluster.name@
                &&& workspace.order == cluster.slot
                &&& workspace.active <==> session[g].active == Some(cluster.id)
            },
{
    assert(publishes_group(snapshot.groups@[g], session[g]));
}

/// The workspaces of a group are ordered as the slots of their clusters are, so
/// clusters in different slots can be told apart.
pub proof fn workspaces_are_ordered_by_slot(
    group: GroupSnapshot,
    source: OutputClusters,
    i: int,
    j: int,
)
    requires
        publishes_group(group, source),
        0 <= i < source.clusters@.len(),
        0 <= j < source.clusters@.len(),
    ensures
        group.workspaces@[i].order < group.workspaces@[j].order <==> source.clusters@[i].slot
            < source.clusters@[j].slot,
        group.workspaces@[i].order == group.workspaces@[j].order <==> source.clusters@[i].slot
            == source.clusters@[j].slot,
        group.workspaces@[i].id == group.workspaces@[j].id <==> source.clusters@[i].id
            == source.clusters@[j].id,
{
    assert(publishes(group.workspaces@[i], source.clusters@[i], source.active));
    assert(publishes(group.workspaces@[j], source.clusters@[j], source.active));
}

/// The applied switches are the selections that had a target and changed the
/// model, each once and in the order of the plan: `chosen` says which selection
/// each switch comes from.
pub proof fn switches_are_the_changes_in_order(
    selections: Seq<(Seq<char>, Option<ClusterId>)>,
    outcomes: Seq<Outcome>,
) -> (chosen: Seq<int>)
    requires
        selections.len() == outcomes.len(),
    ensures
        chosen.len() == applied_switches(selections, outcomes).len(),
        forall|k: int, l: int|
            0 <= k < l < chosen.len() ==> #[trigger] chosen[k] < #[trigger] chosen[l],
        forall|k: int|
            0 <= k < chosen.len() ==> {
                let i = #[trigger] chosen[k];
                let switch = applied_switches(selections, outcomes)[k];
                &&& 0 <= i < selections.len()
                &&& outcomes[i].changed
                &&& outcomes[i].target == Some(switch.target)
                &&& outcomes[i].owned_focus == switch.owned_focus
                &&& selections[i].0 == switch.output
            },
        forall|i: int|
            0 <= i < selections.len() && outcomes[i].changed && outcomes[i].target is Some
                ==> #[trigger] chosen.contains(i),
    decreases selections.len(),
{
    if selections.len() == 0 {
        Seq::empty()
    } else {
        let n = selections.len() - 1;
        let earlier = switches_are_the_changes_in_order(
            selections.drop_last(),
            outcomes.drop_last(),
        );
        let taken = outcomes[n].changed && outcomes[n].target is Some;
        let chosen = if taken {
            earlier.push(n)
        } else {
            earlier
        };
        assert forall|k: int| 0 <= k < chosen.len() implies {
            let i = #[trigger] chosen[k];
            let switch = applied_switches(selections, outcomes)[k];
            &&& 0 <= i < selections.len()
            &&& outcomes[i].changed
            &&& outcomes[i].target == Some(switch.target)
            &&& outcomes[i].owned_focus == switch.owned_focus
            &&& selections[i].0 == switch.output
        } by {
            if k < earlier.len() {
                assert(chosen[k] == earlier[k]);
            }
        }
        assert forall|i: int|
            0 <= i < selections.len() && outcomes[i].changed
                && outcomes[i].target is Some implies #[trigger] chosen.contains(i) by {
            if i < n {
                assert(outcomes.drop_last()[i] == outcomes[i]);
                assert(earlier.contains(i));
                let k = earlier.index_of(i);
                assert(chosen[k] == i);
            } else {
                assert(chosen[chosen.len() - 1] == i);
            }
        }
        chosen
    }
}

/// An output is found exactly when one has the name, and then it is the first of
/// that name.
pub proof fn outputs_are_found_by_name(outputs: Seq<Output>, name: Seq<char>) -> (i: int)
    ensures
        match find_output(outputs, name) {
            Some(handle) => {
                &&& 0 <= i < outputs.len()
                &&& outputs[i].name@ == name
                &&& outputs[i].handle == handle
                &&& forall|j: int| 0 <= j < i ==> (#[trigger] outputs[j]).name@ != name
            },
            None => forall|j: int| 0 <= j < outputs.len() ==> (#[trigger] outputs[j]).name@ != name,
        },
    decreases outputs.len(),
{
    if outputs.len() == 0 || outputs[0].name@ == name {
        0
    } else {
        let rest = outputs.drop_first();
        let i = outputs_are_found_by_name(rest, name);
        assert forall|j: int| 0 < j < outputs.len() implies #[trigger] outputs[j] == rest[j
            - 1] by {}
        i + 1
    }
}

/// `output` is mapped under `handle`: the first output of that name has it.
pub open spec fn mapped_as(outputs: Seq<Output>, output: Seq<char>, handle: u64) -> bool {
    exists|i: int|
        0 <= i < outputs.len() && (#[trigger] outputs[i]).name@ == output && outputs[i].handle
            == handle && forall|j: int| 0 <= j < i ==> (#[trigger] outputs[j]).name@ != output
}

/// Every switch whose output is mapped is followed once, in order, and nothing
/// else is done: `chosen` says which switch each synchronisation follows. The
/// switch of the transaction's final activation, or the only switch there is,
/// takes the keyboard to its own output and cluster; every other one moves the
/// camera of its output.
pub proof fn the_final_activation_gets_the_keyboard(
    focus: Option<(Seq<char>, ClusterId)>,
    applied: Seq<SwitchView>,
    outputs: Seq<Output>,
) -> (chosen: Seq<int>)
    ensures
        ({
            let syncs = syncs_for(applied, focus_output(focus, applied), outputs);
            &&& chosen.len() == syncs.len()
            &&& forall|k: int, l: int|
                0 <= k < l < chosen.len() ==> #[trigger] chosen[k] < #[trigger] chosen[l]
            &&& forall|k: int|
                0 <= k < chosen.len() ==> {
                    let i = #[trigger] chosen[k];
                    &&& 0 <= i < applied.len()
                    &&& if applied.len() == 1 || (focus is Some && focus->Some_0.0
                        == applied[i].output) {
                        &&& syncs[k] is Focus
                        &&& syncs[k]->cluster == applied[i].target
                        &&& syncs[k]->owned_focus == applied[i].owned_focus
                        &&& mapped_as(outputs, applied[i].output, syncs[k]->handle)
                    } else {
                        syncs[k] == (SwitchSyncView::Camera { output: applied[i].output })
                    }
                }
            &&& forall|i: int, j: int|
                0 <= i < applied.len() && 0 <= j < outputs.len() && (#[trigger] outputs[j]).name@
                    == (#[trigger] applied[i]).output ==> chosen.contains(i)
        }),
{
    let focused = focus_output(focus, applied);
    assert forall|i: int| 0 <= i < applied.len() implies (focused == Some(
        (#[trigger] applied[i]).output,
    ) <==> applied.len() == 1 || (focus is Some && focus->Some_0.0 == applied[i].output)) by {
        if focus is Some && focus->Some_0.0 == applied[i].output {
            assert(switches_output(applied, focus->Some_0.0));
        }
        if focus is Some && switches_output(applied, focus->Some_0.0) && applied.len() == 1 {
            assert(applied[0].output == focus->Some_0.0);
        }
    }
    synchronisations_are_in_order(focused, applied, outputs)
}

proof fn synchronisations_are_in_order(
    focused: Option<Seq<char>>,
    applied: Seq<SwitchView>,
    outputs: Seq<Output>,
) -> (chosen: Seq<int>)
    ensures
        ({
            let syncs = syncs_for(applied, focused, outputs);
            &&& chosen.len() == syncs.len()
            &&& forall|k: int, l: int|
                0 <= k < l < chosen.len() ==> #[trigger] chosen[k] < #[trigger] chosen[l]
            &&& forall|k: int|
                0 <= k < chosen.len() ==> {
                    let i = #[trigger] chosen[k];
                    &&& 0 <= i < applied.len()
                    &&& if focused == Some(applied[i].output) {
                        &&& syncs[k] is Focus
                        &&& syncs[k]->cluster == applied[i].target
                        &&& syncs[k]->owned_focus == applied[i].owned_focus
                        &&& mapped_as(outputs, applied[i].output, syncs[k]->handle)
                    } else {
                        syncs[k] == (SwitchSyncView::Camera { output: applied[i].output })
                    }
                }
            &&& forall|i: int, j: int|
                0 <= i < applied.len() && 0 <= j < outputs.len() && (#[trigger] outputs[j]).name@
                    == (#[trigger] applied[i]).output ==> chosen.contains(i)
        }),
    decreases applied.len(),
{
    if applied.len() == 0 {
        Seq::empty()
    } else {
        let n = applied.len() - 1;
        let rest = applied.drop_last();
        let earlier = synchronisations_are_in_order(focused, rest, outputs);
        let before = syncs_for(rest, focused, outputs);
        let syncs = syncs_for(applied, focused, outputs);
        let at = outputs_are_found_by_name(outputs, applied[n].output);
        let chosen = if find_output(outputs, applied[n].output) is Some {
            earlier.push(n)
        } else {
            earlier
        };
        assert forall|k: int| 0 <= k < chosen.len() implies {
            let i = #[trigger] chosen[k];
            &&& 0 <= i < applied.len()
            &&& if focused == Some(applied[i].output) {
                &&& syncs[k] is Focus
                &&& syncs[k]->cluster == applied[i].target
                &&& syncs[k]->owned_focus == applied[i].owned_focus
                &&& mapped_as(outputs, applied[i].output, syncs[k]->handle)
            } else {
                syncs[k] == (SwitchSyncView::Camera { output: applied[i].output })
            }
        } by {
            if k < earlier.len() {
                assert(chosen[k] == earlier[k]);
                assert(syncs[k] == before[k]);
                assert(rest[earlier[k]] == applied[earlier[k]]);
            }
        }
        assert forall|i: int, j: int|
            0 <= i < applied.len() && 0 <= j < outputs.len() && (#[trigger] outputs[j]).name@ == (
            #[trigger] applied[i]).output implies chosen.contains(i) by {
            if i < n {
                assert(rest[i] == applied[i]);
                assert(outputs[j].name@ == rest[i].output);
                assert(earlier.contains(i));
                assert(chosen[earlier.index_of(i)] == i);
            } else {
                assert(chosen[chosen.len() - 1] == i);
            }
        }
        chosen
    }
}

/// An answer changes neither the plan nor what was settled before it, settles at
/// most one selection, and counts only where it was asked for.
pub proof fn answers_settle_one_selection_at_a_time(transaction: TransactionView, event: Event)
    ensures
        ({
            let after = transaction.after(event);
            &&& after.plan == transaction.plan
            &&& transaction.outcomes.len() <= after.outcomes.len() <= transaction.outcomes.len() + 1
            &&& after.outcomes.take(transaction.outcomes.len() as int) == transaction.outcomes
            &&& event is Active && transaction.pending !is Active ==> after == transaction
            &&& event is OwnsFocus && transaction.pending !is Focus ==> after == transaction
            &&& event is Changed && transaction.pending !is Switch ==> after == transaction
        }),
{
    assert(transaction.outcomes.take(transaction.outcomes.len() as int) == transaction.outcomes);
}

} // verus!
