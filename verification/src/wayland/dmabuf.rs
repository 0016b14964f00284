//! Which linux-dmabuf global is advertised, which surfaces get feedback for an
//! output, and when a commit waits for its buffer.

use vstd::prelude::*;

verus! {

/// Keeps an unfinished implicit-sync buffer out of committed renderer state.
///
/// `generated` is the blocker and the one-shot readiness source of a pending
/// buffer, or an error when there is nothing to wait for. The blocker is
/// installed only when its source was registered; an orphan blocker would
/// freeze the surface permanently.
pub fn defer_until_readable<B, S, E, F: FnOnce(S) -> bool>(
    generated: Result<(B, S), E>,
    register: F,
) -> (res: Option<B>)
    requires
        generated matches Ok((_, source)) ==> call_requires(register, (source,)),
    ensures
        match generated {
            Ok((blocker, source)) => {
                ||| res == Some(blocker) && call_ensures(register, (source,), true)
                ||| res is None && call_ensures(register, (source,), false)
            },
            Err(_) => res is None,
        },
{
    match generated {
        Ok((blocker, source)) => {
            if register(source) {
                Some(blocker)
            } else {
                None
            }
        },
        Err(_) => None,
    }
}

/// A pixel format a renderer can import.
#[derive(Clone, Copy, Debug, PartialEq, Eq, Structural)]
pub struct Format {
    /// The fourcc code.
    pub code: u32,
    pub modifier: u64,
}

/// What a renderer can import, and the device it renders on where that is known.
pub struct DmabufCapabilities {
    main_device: Option<u64>,
    formats: Vec<Format>,
}

impl DmabufCapabilities {
    /// The device the renderer runs on.
    pub closed spec fn device(self) -> Option<u64> {
        self.main_device
    }

    /// The formats the renderer can import.
    pub closed spec fn importable(self) -> Seq<Format> {
        self.formats@
    }

    pub fn new(main_device: Option<u64>, formats: Vec<Format>) -> (res: Self)
        ensures
            res.device() == main_device,
            res.importable() == formats@,
    {
        DmabufCapabilities { main_device, formats }
    }

    /// Whether the renderer can import nothing.
    pub fn is_empty(&self) -> (res: bool)
        ensures
            res == (self.importable().len() == 0),
    {
        self.formats.len() == 0
    }

    /// The device the renderer runs on, where it is known.
    pub fn main_device(&self) -> (res: Option<u64>)
        ensures
            res == self.device(),
    {
        self.main_device
    }

    /// The formats the renderer can import, in order.
    pub fn formats(&self) -> (res: Vec<Format>)
        ensures
            res@ == self.importable(),
    {
        let mut res: Vec<Format> = Vec::new();
        for i in 0..self.formats.len()
            invariant
                res@ == self.formats@.take(i as int),
        {
            res.push(self.formats[i]);
            assert(self.formats@.take(i + 1) == self.formats@.take(i as int).push(
                self.formats@[i as int],
            ));
        }
        assert(self.formats@.take(self.formats@.len() as int) == self.formats@);
        res
    }
}

/// Which linux-dmabuf global a renderer can truthfully offer.
#[derive(Clone, Copy, Debug, PartialEq, Eq, Structural)]
pub enum Advertisement {
    /// No global at all.
    Omitted,
    /// A plain format list.
    Version3,
    /// Feedback with a table backed by this device.
    Version5(u64),
}

/// The strongest truthful advertisement of `capabilities`.
pub open spec fn strongest(capabilities: DmabufCapabilities) -> Advertisement {
    if capabilities.importable().len() == 0 {
        Advertisement::Omitted
    } else {
        match capabilities.device() {
            Some(main_device) => Advertisement::Version5(main_device),
            None => Advertisement::Version3,
        }
    }
}

/// The strongest truthful advertisement of `capabilities`.
pub fn advertisement(capabilities: &DmabufCapabilities) -> (res: Advertisement)
    ensures
        res == strongest(*capabilities),
{
    if capabilities.is_empty() {
        Advertisement::Omitted
    } else if let Some(main_device) = capabilities.main_device() {
        Advertisement::Version5(main_device)
    } else {
        Advertisement::Version3
    }
}

/// The global to create.
#[derive(Debug, PartialEq, Eq)]
pub enum DmabufGlobal<F> {
    /// A version 3 global with this format list.
    Formats(Vec<Format>),
    /// A version 5 global with this default feedback.
    DefaultFeedback(F),
}

/// `global` is what is created where building the feedback came to `built`.
pub open spec fn follows_feedback<F, E>(
    capabilities: DmabufCapabilities,
    built: Result<F, E>,
    global: DmabufGlobal<F>,
) -> bool {
    match built {
        Ok(feedback) => global == DmabufGlobal::DefaultFeedback(feedback),
        Err(_) => is_format_list(capabilities, global),
    }
}

/// `global` is the version 3 global of `capabilities`.
pub open spec fn is_format_list<F>(
    capabilities: DmabufCapabilities,
    global: DmabufGlobal<F>,
) -> bool {
    global matches DmabufGlobal::Formats(formats) && formats@ == capabilities.importable()
}

/// The global to create once building the feedback came to `built`: without
/// feedback it falls back to the version 3 format list.
pub fn feedback_built<F, E>(capabilities: &DmabufCapabilities, built: Result<F, E>) -> (res:
    DmabufGlobal<F>)
    ensures
        follows_feedback(*capabilities, built, res),
{
    match built {
        Ok(feedback) => DmabufGlobal::DefaultFeedback(feedback),
        Err(_) => DmabufGlobal::Formats(capabilities.formats()),
    }
}

/// Advertises the strongest truthful linux-dmabuf global for one renderer.
///
/// Feedback-capable version 5 needs a device-backed table, which `build` makes
/// for the device and all the formats it is given. Renderers whose device cannot
/// be resolved still support the version 3 format list.
pub fn create_global<F, E, B: FnOnce(u64, Vec<Format>) -> Result<F, E>>(
    capabilities: &DmabufCapabilities,
    build: B,
) -> (res: Option<DmabufGlobal<F>>)
    requires
        forall|device: u64, formats: Vec<Format>|
            strongest(*capabilities) == Advertisement::Version5(device) && formats@
                == capabilities.importable() ==> #[trigger] call_requires(
                build,
                (device, formats),
            ),
    ensures
        match strongest(*capabilities) {
            Advertisement::Omitted => res is None,
            Advertisement::Version3 => res matches Some(global) && is_format_list(
                *capabilities,
                global,
            ),
            Advertisement::Version5(device) => res matches Some(global) && exists|
                formats: Vec<Format>,
                built: Result<F, E>,
            | #[trigger]
                call_ensures(build, (device, formats), built) && formats@
                    == capabilities.importable() && follows_feedback(*capabilities, built, global),
        },
{
    let main_device = match advertisement(capabilities) {
        Advertisement::Omitted => {
            return None;
        },
        Advertisement::Version3 => {
            return Some(DmabufGlobal::Formats(capabilities.formats()));
        },
        Advertisement::Version5(main_device) => main_device,
    };
    let formats = capabilities.formats();
    let built = build(main_device, formats);
    Some(feedback_built(capabilities, built))
}

/// A window of the desktop, and whether it is on the output in question.
#[derive(Clone, Copy, Debug, PartialEq, Eq, Structural)]
pub struct DesktopWindow {
    pub id: u64,
    pub on_output: bool,
}

/// What an output shows.
pub struct OutputScene {
    /// Whether the session is locked.
    pub locked: bool,
    /// The lock surfaces of the output.
    pub lock_surfaces: Vec<u64>,
    /// The windows of the desktop, on every output.
    pub windows: Vec<DesktopWindow>,
    /// The layer surfaces of the output.
    pub layers: Vec<u64>,
    /// The icon of a running drag.
    pub dnd_icon: Option<u64>,
}

/// A surface tree that is sent feedback.
#[derive(Clone, Copy, Debug, PartialEq, Eq, Structural)]
pub enum FeedbackTarget {
    LockSurface(u64),
    Window(u64),
    Layer(u64),
    DragIcon(u64),
}

/// The windows that are on the output, in order.
pub open spec fn windows_on_output(windows: Seq<DesktopWindow>) -> Seq<FeedbackTarget>
    decreases windows.len(),
{
    if windows.len() == 0 {
        Seq::empty()
    } else if windows.last().on_output {
        windows_on_output(windows.drop_last()).push(FeedbackTarget::Window(windows.last().id))
    } else {
        windows_on_output(windows.drop_last())
    }
}

/// Who is sent feedback for an output, in order: its lock surfaces alone while
/// the session is locked; else its windows, its layers and the drag icon.
pub open spec fn feedback_targets(scene: OutputScene) -> Seq<FeedbackTarget> {
    if scene.locked {
        scene.lock_surfaces@.map_values(|id: u64| FeedbackTarget::LockSurface(id))
    } else {
        windows_on_output(scene.windows@) + scene.layers@.map_values(
            |id: u64| FeedbackTarget::Layer(id),
        ) + match scene.dnd_icon {
            Some(icon) => seq![FeedbackTarget::DragIcon(icon)],
            None => Seq::empty(),
        }
    }
}

/// The surface trees that are sent dmabuf feedback for an output, in order.
pub fn send_output_feedback(scene: &OutputScene) -> (res: Vec<FeedbackTarget>)
    ensures
        res@ == feedback_targets(*scene),
{
    let mut res: Vec<FeedbackTarget> = Vec::new();
    if scene.locked {
        for i in 0..scene.lock_surfaces.len()
            invariant
                res@ == scene.lock_surfaces@.take(i as int).map_values(
                    |id: u64| FeedbackTarget::LockSurface(id),
                ),
        {
            res.push(FeedbackTarget::LockSurface(scene.lock_surfaces[i]));
        }
        return res;
    }
    for i in 0..scene.windows.len()
        invariant
            res@ == windows_on_output(scene.windows@.take(i as int)),
    {
        assert(scene.windows@.take(i + 1).drop_last() == scene.windows@.take(i as int));
        if scene.windows[i].on_output {
            res.push(FeedbackTarget::Window(scene.windows[i].id));
        }
    }
    assert(scene.windows@.take(scene.windows@.len() as int) == scene.windows@);
    for i in 0..scene.layers.len()
        invariant
            res@ == windows_on_output(scene.windows@) + scene.layers@.take(i as int).map_values(
                |id: u64| FeedbackTarget::Layer(id),
            ),
    {
        res.push(FeedbackTarget::Layer(scene.layers[i]));
    }
    if let Some(icon) = scene.dnd_icon {
        res.push(FeedbackTarget::DragIcon(icon));
    }
    res
}

/// A global is advertised exactly when the renderer can import some format, and
/// feedback is offered only with a device behind it.
pub proof fn advertisements_are_truthful(capabilities: DmabufCapabilities)
    ensures
        strongest(capabilities) is Omitted <==> capabilities.importable().len() == 0,
        strongest(capabilities) matches Advertisement::Version5(device) ==> capabilities.device()
            == Some(device),
        capabilities.importable().len() > 0 && capabilities.device() is Some ==> strongest(
            capabilities,
        ) is Version5,
{
}

/// While the session is locked nothing but lock surfaces is sent feedback.
pub proof fn locked_sessions_feed_only_lock_surfaces(scene: OutputScene, i: int)
    requires
        scene.locked,
        0 <= i < feedback_targets(scene).len(),
    ensures
        feedback_targets(scene)[i] is LockSurface,
{
}

proof fn windows_are_on_output(windows: Seq<DesktopWindow>, id: u64)
    ensures
        windows_on_output(windows).contains(FeedbackTarget::Window(id)) <==> windows.contains(
            DesktopWindow { id, on_output: true },
        ),
        forall|i: int|
            0 <= i < windows_on_output(windows).len() ==> #[trigger] windows_on_output(
                windows,
            )[i] is Window,
    decreases windows.len(),
{
    if windows.len() > 0 {
        let rest = windows.drop_last();
        let wanted = DesktopWindow { id, on_output: true };
        let target = FeedbackTarget::Window(id);
        windows_are_on_output(rest, id);
        let targets = windows_on_output(rest);
        let all = windows_on_output(windows);
        if targets.contains(target) {
            let k = targets.index_of(target);
            assert(all[k] == target);
        }
        if rest.contains(wanted) {
            let k = rest.index_of(wanted);
            assert(windows[k] == wanted);
        }
        if windows.last() == wanted {
            assert(all.last() == target);
            assert(windows[windows.len() - 1] == wanted);
        }
        if all.contains(target) {
            let k = all.index_of(target);
            if k < targets.len() {
                assert(targets[k] == target);
            }
        }
        if windows.contains(wanted) {
            let k = windows.index_of(wanted);
            if k < rest.len() {
                assert(rest[k] == wanted);
            }
        }
    }
}

/// In an unlocked session a window is sent feedback for an output exactly when
/// it is on that output.
pub proof fn windows_are_fed_for_their_outputs(scene: OutputScene, id: u64)
    requires
        !scene.locked,
    ensures
        feedback_targets(scene).contains(FeedbackTarget::Window(id)) <==> scene.windows@.contains(
            DesktopWindow { id, on_output: true },
        ),
{
    windows_are_on_output(scene.windows@, id);
    let targets = feedback_targets(scene);
    let windows = windows_on_output(scene.windows@);
    let target = FeedbackTarget::Window(id);
    if windows.contains(target) {
        let k = windows.index_of(target);
        assert(targets[k] == target);
    }
    if targets.contains(target) {
        let k = targets.index_of(target);
        if k < windows.len() {
            assert(windows[k] == target);
        }
    }
}

/// Every layer surface of an output is sent feedback in an unlocked session, and
/// no other one is; so are the drag icon and, in a locked session, the lock
/// surfaces. A window is never taken for one of them.
pub proof fn everything_shown_is_fed(scene: OutputScene, id: u64)
    ensures
        feedback_targets(scene).contains(FeedbackTarget::Layer(id)) <==> !scene.locked
            && scene.layers@.contains(id),
        feedback_targets(scene).contains(FeedbackTarget::DragIcon(id)) <==> !scene.locked
            && scene.dnd_icon == Some(id),
        feedback_targets(scene).contains(FeedbackTarget::LockSurface(id)) <==> scene.locked
            && scene.lock_surfaces@.contains(id),
        scene.locked ==> !feedback_targets(scene).contains(FeedbackTarget::Window(id)),
{
    let targets = feedback_targets(scene);
    let windows = windows_on_output(scene.windows@);
    let n = windows.len() as int;
    windows_are_on_output(scene.windows@, id);
    if scene.locked {
        if scene.lock_surfaces@.contains(id) {
            assert(targets[scene.lock_surfaces@.index_of(id)] == FeedbackTarget::LockSurface(id));
        }
        if targets.contains(FeedbackTarget::LockSurface(id)) {
            let k = targets.index_of(FeedbackTarget::LockSurface(id));
            assert(scene.lock_surfaces@[k] == id);
        }
    } else {
        if scene.layers@.contains(id) {
            assert(targets[n + scene.layers@.index_of(id)] == FeedbackTarget::Layer(id));
        }
        if targets.contains(FeedbackTarget::Layer(id)) {
            let k = targets.index_of(FeedbackTarget::Layer(id));
            if k < n {
                assert(targets[k] == windows[k]);
            }
            assert(scene.layers@[k - n] == id);
        }
        if scene.dnd_icon == Some(id) {
            assert(targets[targets.len() - 1] == FeedbackTarget::DragIcon(id));
        }
        if targets.contains(FeedbackTarget::DragIcon(id)) {
            let k = targets.index_of(FeedbackTarget::DragIcon(id));
            if k < n {
                assert(targets[k] == windows[k]);
            }
        }
        if targets.contains(FeedbackTarget::LockSurface(id)) {
            let k = targets.index_of(FeedbackTarget::LockSurface(id));
            if k < n {
                assert(targets[k] == windows[k]);
            }
        }
    }
}

/// How many of `windows` are on the output.
pub open spec fn count_on_output(windows: Seq<DesktopWindow>) -> nat
    decreases windows.len(),
{
    if windows.len() == 0 {
        0
    } else {
        count_on_output(windows.drop_last()) + (if windows.last().on_output {
            1nat
        } else {
            0
        })
    }
}

proof fn windows_are_listed_once(windows: Seq<DesktopWindow>) -> (chosen: Seq<int>)
    ensures
        chosen.len() == windows_on_output(windows).len(),
        chosen.len() == count_on_output(windows),
        forall|k: int, l: int|
            0 <= k < l < chosen.len() ==> #[trigger] chosen[k] < #[trigger] chosen[l],
        forall|k: int|
            0 <= k < chosen.len() ==> {
                let i = #[trigger] chosen[k];
                &&& 0 <= i < windows.len()
                &&& windows[i].on_output
                &&& windows_on_output(windows)[k] == FeedbackTarget::Window(windows[i].id)
            },
    decreases windows.len(),
{
    if windows.len() == 0 {
        Seq::empty()
    } else {
        let earlier = windows_are_listed_once(windows.drop_last());
        let chosen = if windows.last().on_output {
            earlier.push(windows.len() - 1)
        } else {
            earlier
        };
        assert forall|k: int| 0 <= k < chosen.len() implies {
            let i = #[trigger] chosen[k];
            &&& 0 <= i < windows.len()
            &&& windows[i].on_output
            &&& windows_on_output(windows)[k] == FeedbackTarget::Window(windows[i].id)
        } by {
            if k < earlier.len() {
                assert(chosen[k] == earlier[k]);
            }
        }
        chosen
    }
}

/// Feedback goes out in a fixed order and to each surface as often as the output
/// shows it: in an unlocked session first to the windows that are on the output,
/// in their order, `chosen` being their places; then to all layers in theirs; then
/// to the drag icon. In a locked session it goes to all lock surfaces in theirs.
pub proof fn feedback_is_sent_in_order(scene: OutputScene) -> (chosen: Seq<int>)
    ensures
        scene.locked ==> {
            let targets = feedback_targets(scene);
            &&& targets.len() == scene.lock_surfaces@.len()
            &&& forall|i: int|
                0 <= i < targets.len() ==> #[trigger] targets[i] == FeedbackTarget::LockSurface(
                    scene.lock_surfaces@[i],
                )
        },
        !scene.locked ==> {
            let targets = feedback_targets(scene);
            let n = chosen.len() as int;
            let m = scene.layers@.len() as int;
            &&& n == count_on_output(scene.windows@)
            &&& targets.len() == n + m + (if scene.dnd_icon is Some {
                1int
            } else {
                0
            })
            &&& forall|k: int, l: int|
                0 <= k < l < n ==> #[trigger] chosen[k] < #[trigger] chosen[l]
            &&& forall|k: int|
                0 <= k < n ==> {
                    let i = #[trigger] chosen[k];
                    &&& 0 <= i < scene.windows@.len()
                    &&& scene.windows@[i].on_output
                    &&& targets[k] == FeedbackTarget::Window(scene.windows@[i].id)
                }
            &&& forall|i: int|
                0 <= i < m ==> targets[n + i] == FeedbackTarget::Layer(
                    #[trigger] scene.layers@[i],
                )
            &&& scene.dnd_icon is Some ==> targets[n + m] == FeedbackTarget::DragIcon(
                scene.dnd_icon->Some_0,
            )
        },
{
    let windows = windows_on_output(scene.windows@);
    let chosen = windows_are_listed_once(scene.windows@);
    if !scene.locked {
        let targets = feedback_targets(scene);
        assert forall|k: int| 0 <= k < windows.len() implies targets[k] == #[trigger] windows[k] by {}
        assert forall|k: int| 0 <= k < chosen.len() implies {
            let i = #[trigger] chosen[k];
            targets[k] == FeedbackTarget::Window(scene.windows@[i].id)
        } by {
            assert(targets[k] == windows[k]);
        }
    }
    chosen
}

/// A device is offered feedback exactly when there are formats to offer; without
/// a device the formats are offered alone.
pub proof fn devices_decide_the_version(capabilities: DmabufCapabilities)
    requires
        capabilities.importable().len() > 0,
    ensures
        capabilities.device() matches Some(device) ==> strongest(capabilities)
            == Advertisement::Version5(device),
        capabilities.device() is None ==> strongest(capabilities) is Version3,
{
}

/// What was built is what is offered, and only what could not be built is
/// replaced, by all the formats in their order.
pub proof fn feedback_is_offered_where_it_was_built<F, E>(
    capabilities: DmabufCapabilities,
    built: Result<F, E>,
    global: DmabufGlobal<F>,
)
    requires
        follows_feedback(capabilities, built, global),
    ensures
        built is Ok <==> global is DefaultFeedback,
        built matches Ok(feedback) ==> global == DmabufGlobal::DefaultFeedback(feedback),
        global matches DmabufGlobal::Formats(formats) ==> formats@.len()
            == capabilities.importable().len() && forall|i: int|
            0 <= i < formats@.len() ==> #[trigger] formats@[i] == capabilities.importable()[i],
{
}

} // verus!
