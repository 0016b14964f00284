//! Exclusive control of the gamma ramps of outputs.
//!
//! An output has at most one control at a time. Its ramp is read from a file on
//! a worker, so a control may be gone or replaced when the worker is done.

use std::collections::HashMap;

use vstd::prelude::*;

verus! {

broadcast use vstd::std_specs::hash::group_hash_axioms;

/// The version of the global.
pub const VERSION: u32 = 1;

/// The data of the manager global.
#[derive(Clone, Copy, Debug)]
pub struct GlobalData {
    enabled: bool,
}

impl GlobalData {
    /// Whether gamma control is offered at all.
    pub closed spec fn offered(self) -> bool {
        self.enabled
    }

    pub fn new(enabled: bool) -> (res: Self)
        ensures
            res.offered() == enabled,
    {
        GlobalData { enabled }
    }

    /// Whether clients see the global.
    pub fn can_view(&self) -> (res: bool)
        ensures
            res == self.offered(),
    {
        self.enabled
    }
}

/// The data of one gamma control.
#[derive(Clone, Copy, Debug)]
pub struct ControlData {
    gamma_size: u32,
}

impl ControlData {
    /// The number of entries per channel.
    pub closed spec fn size(self) -> u32 {
        self.gamma_size
    }

    /// The data of a control on an output with the given gamma size. A control
    /// that failed from the start has size zero.
    pub fn new(gamma_size: Option<u32>) -> (res: Self)
        ensures
            res.size() == (match gamma_size {
                Some(size) => size,
                None => 0,
            }),
    {
        match gamma_size {
            Some(gamma_size) => ControlData { gamma_size },
            None => ControlData { gamma_size: 0 },
        }
    }
}

/// The controls in force: which control each output is held by.
pub struct State {
    controls: HashMap<u64, u64>,
}

impl View for State {
    type V = Map<u64, u64>;

    closed spec fn view(&self) -> Map<u64, u64> {
        self.controls@
    }
}

/// No control holds two outputs.
pub open spec fn one_output_per_control(controls: Map<u64, u64>) -> bool {
    forall|a: u64, b: u64|
        #![trigger controls[a], controls[b]]
        controls.contains_key(a) && controls.contains_key(b) && controls[a] == controls[b] ==> a
            == b
}

/// What a client is told about a control it asked for.
#[derive(Clone, Copy, Debug, PartialEq, Eq, Structural)]
pub enum Announcement {
    /// The control holds the output; a channel has this many entries.
    GammaSize(u32),
    /// The control is void.
    Failed,
}

/// The gamma size offered for `output` where the driver would say `driver`: none
/// for an unknown output or one that is held already.
pub open spec fn size_offered(
    controls: Map<u64, u64>,
    output: Option<u64>,
    driver: Option<u32>,
) -> Option<u32> {
    match output {
        Some(held) => if controls.contains_key(held) {
            None
        } else {
            driver
        },
        None => None,
    }
}

/// What a client is told when `gamma_size` is offered for `output`.
pub open spec fn announcement(output: Option<u64>, gamma_size: Option<u32>) -> Announcement {
    match (output, gamma_size) {
        (Some(_), Some(size)) => Announcement::GammaSize(size),
        _ => Announcement::Failed,
    }
}

/// The controls once `control` was created with `gamma_size` for `output`.
pub open spec fn after_request(
    controls: Map<u64, u64>,
    output: Option<u64>,
    gamma_size: Option<u32>,
    control: u64,
) -> Map<u64, u64> {
    match (output, gamma_size) {
        (Some(held), Some(_)) => controls.insert(held, control),
        _ => controls,
    }
}

/// `control` still holds `output`.
pub open spec fn holds(controls: Map<u64, u64>, output: u64, control: u64) -> bool {
    controls.contains_key(output) && controls[output] == control
}

/// A control that failed: it is told so, and the gamma of its output is reset.
#[derive(Debug, PartialEq, Eq)]
pub struct Failure {
    pub output: u64,
    pub control: u64,
    pub message: String,
}

/// `control` on `output` failed with `message`.
pub open spec fn is_failure(
    failure: Option<Failure>,
    output: u64,
    control: u64,
    message: Seq<char>,
) -> bool {
    match failure {
        Some(f) => f.output == output && f.control == control && f.message@ == message,
        None => false,
    }
}

/// `failure` is what comes of a ramp for `control` on `output` that led to
/// `applied`: nothing when the control no longer holds the output or all went
/// well.
pub open spec fn failure_follows(
    controls: Map<u64, u64>,
    output: u64,
    control: u64,
    applied: Result<(), String>,
    failure: Option<Failure>,
) -> bool {
    match applied {
        Err(message) => if holds(controls, output, control) {
            is_failure(failure, output, control, message@)
        } else {
            failure is None
        },
        Ok(()) => failure is None,
    }
}

/// The controls once a ramp for `control` on `output` led to `applied`: a control
/// that holds its output and failed loses it.
pub open spec fn after_read(
    controls: Map<u64, u64>,
    output: u64,
    control: u64,
    applied: Result<(), String>,
) -> Map<u64, u64> {
    if applied is Err && holds(controls, output, control) {
        controls.remove(output)
    } else {
        controls
    }
}

/// A ramp to read on the worker.
#[derive(Clone, Copy, Debug, PartialEq, Eq)]
pub struct ReadJob {
    pub gamma_size: u32,
    pub output: u64,
    pub control: u64,
}

/// The message when a ramp cannot be handed to the worker.
pub open spec fn reader_unavailable() -> Seq<char> {
    "gamma reader unavailable or queue full"@
}

impl State {
    /// No control is in force.
    pub fn new() -> (res: Self)
        ensures
            res@ == Map::<u64, u64>::empty(),
    {
        State { controls: HashMap::new() }
    }

    /// Ends the control of an output that was disabled, and returns it so that
    /// it is told that it failed.
    pub fn output_disabled(&mut self, output: u64) -> (res: Option<u64>)
        ensures
            final(self)@ == old(self)@.remove(output),
            res == (if old(self)@.contains_key(output) {
                Some(old(self)@[output])
            } else {
                None
            }),
    {
        self.controls.remove(&output)
    }

    fn held_by(&self, control: u64) -> (res: Option<u64>)
        ensures
            match res {
                Some(output) => holds(self@, output, control),
                None => forall|output: u64| !#[trigger] holds(self@, output, control),
            },
    {
        for entry in it: self.controls.iter()
            invariant
                it.seq() == vstd::std_specs::iter::IteratorSpec::remaining(
                    &vstd::std_specs::hash::spec_hash_map_iter(&self.controls),
                ),
                forall|i: int| 0 <= i < it.index() ==> *(#[trigger] it.seq()[i]).1 != control,
        {
            let (output, holder) = entry;
            if *holder == control {
                return Some(*output);
            }
        }
        assert forall|output: u64| !#[trigger] holds(self@, output, control) by {
            let all = vstd::std_specs::iter::IteratorSpec::remaining(
                &vstd::std_specs::hash::spec_hash_map_iter(&self.controls),
            );
            if self@.contains_key(output) {
                assert(all.contains((&output, &self.controls@[output])));
            }
        }
        None
    }

    /// The gamma size to offer for `output`, which the driver is asked for only
    /// where the output is known and not held.
    pub fn gamma_size<E, F: FnOnce(u64) -> Result<u32, E>>(
        &self,
        output: Option<u64>,
        driver: F,
    ) -> (res: Option<u32>)
        requires
            output matches Some(known) ==> (!self@.contains_key(known) ==> call_requires(
                driver,
                (known,),
            )),
        ensures
            match output {
                Some(known) => if self@.contains_key(known) {
                    res is None
                } else {
                    exists|size: Result<u32, E>| #[trigger]
                        call_ensures(driver, (known,), size) && res == size_offered(
                            self@,
                            output,
                            size.ok(),
                        )
                },
                None => res is None,
            },
    {
        match output {
            Some(known) => {
                if self.controls.contains_key(&known) {
                    return None;
                }
                let size = driver(known);
                match size {
                    Ok(gamma_size) => Some(gamma_size),
                    Err(_) => None,
                }
            },
            None => None,
        }
    }

    /// Records a control that a client asked for, and says what the client is
    /// told. `gamma_size` is what was offered for the output: nothing where it is
    /// held already.
    pub fn get_gamma_control(
        &mut self,
        output: Option<u64>,
        gamma_size: Option<u32>,
        control: u64,
    ) -> (res: Announcement)
        requires
            gamma_size is Some ==> (output matches Some(o) ==> !old(self)@.contains_key(o)),
        ensures
            final(self)@ == after_request(old(self)@, output, gamma_size, control),
            res == announcement(output, gamma_size),
    {
        match (output, gamma_size) {
            (Some(output), Some(gamma_size)) => {
                self.controls.insert(output, control);
                Announcement::GammaSize(gamma_size)
            },
            _ => Announcement::Failed,
        }
    }

    fn fail(&mut self, output: u64, control: u64, message: String) -> (res: Option<Failure>)
        ensures
            final(self)@ == after_read(old(self)@, output, control, Err(message)),
            failure_follows(old(self)@, output, control, Err(message), res),
    {
        if self.is_current(output, control) {
            self.controls.remove(&output);
            Some(Failure { output, control, message })
        } else {
            None
        }
    }

    /// Whether `control` still holds `output`.
    pub fn is_current(&self, output: u64, control: u64) -> (res: bool)
        ensures
            res == holds(self@, output, control),
    {
        match self.controls.get(&output) {
            Some(holder) => *holder == control,
            None => false,
        }
    }

    /// Takes a ramp that the worker read, or the reason why it could not.
    ///
    /// A destroyed or replaced control or a disabled output invalidates pending
    /// work: then `apply` is not called. Else it hands the ramp to the driver.
    pub fn finish_read<F: FnOnce(u64, Vec<u16>) -> Result<(), String>>(
        &mut self,
        output: u64,
        control: u64,
        result: Result<Vec<u16>, String>,
        apply: F,
    ) -> (res: Option<Failure>)
        requires
            holds(old(self)@, output, control) ==> (result matches Ok(ramp) ==> call_requires(
                apply,
                (output, ramp),
            )),
        ensures
            if !holds(old(self)@, output, control) {
                final(self)@ == old(self)@ && res is None
            } else {
                match result {
                    Ok(ramp) => exists|applied: Result<(), String>| #[trigger]
                        call_ensures(apply, (output, ramp), applied) && final(self)@ == after_read(
                            old(self)@,
                            output,
                            control,
                            applied,
                        ) && failure_follows(old(self)@, output, control, applied, res),
                    Err(message) => final(self)@ == after_read(
                        old(self)@,
                        output,
                        control,
                        Err(message),
                    ) && failure_follows(old(self)@, output, control, Err(message), res),
                }
            },
    {
        if !self.is_current(output, control) {
            return None;
        }
        let applied = match result {
            Ok(ramp) => apply(output, ramp),
            Err(message) => Err(message),
        };
        match applied {
            Ok(()) => None,
            Err(message) => self.fail(output, control, message),
        }
    }

    /// Hands the ramp of `control` to the worker through `queue`, which says
    /// whether the worker took it. Nothing is queued for a control that holds no
    /// output.
    pub fn set_gamma<F: FnOnce(ReadJob) -> bool>(
        &mut self,
        control: u64,
        data: &ControlData,
        queue: F,
    ) -> (res: Option<Failure>)
        requires
            forall|job: ReadJob|
                holds(old(self)@, job.output, control) && job.control == control && job.gamma_size
                    == data.size() ==> #[trigger] call_requires(queue, (job,)),
        ensures
            (forall|output: u64| !#[trigger] holds(old(self)@, output, control)) ==> final(self)@
                == old(self)@ && res is None,
            (exists|output: u64| #[trigger] holds(old(self)@, output, control)) ==> exists|
                output: u64,
            | #[trigger]
                holds(old(self)@, output, control) && {
                    let job = ReadJob { gamma_size: data.size(), output, control };
                    ||| call_ensures(queue, (job,), true) && final(self)@ == old(self)@
                        && res is None
                    ||| call_ensures(queue, (job,), false) && final(self)@ == old(self)@.remove(
                        output,
                    ) && is_failure(res, output, control, reader_unavailable())
                },
    {
        match self.held_by(control) {
            Some(output) => {
                let job = ReadJob { gamma_size: data.gamma_size, output, control };
                if queue(job) {
                    None
                } else {
                    self.fail(output, control, "gamma reader unavailable or queue full".to_owned())
                }
            },
            None => None,
        }
    }

    /// Ends a control that was destroyed, and returns the output whose gamma is
    /// reset.
    pub fn destroyed(&mut self, control: u64) -> (res: Option<u64>)
        ensures
            match res {
                Some(output) => holds(old(self)@, output, control) && final(self)@ == old(
                    self,
                )@.remove(output),
                None => final(self)@ == old(self)@ && forall|output: u64|
                    !#[trigger] holds(old(self)@, output, control),
            },
    {
        match self.held_by(control) {
            Some(output) => {
                self.controls.remove(&output);
                Some(output)
            },
            None => None,
        }
    }
}

/// What the worker learns of a file before reading it.
#[derive(Clone, Copy, Debug)]
pub struct FileMetadata {
    /// Whether it is a regular file.
    pub is_file: bool,
    /// Its length in bytes.
    pub len: u64,
}

/// The length in bytes of the ramp of three channels of `gamma_size` entries.
pub open spec fn ramp_bytes(gamma_size: u32) -> nat {
    6 * gamma_size as nat
}

/// The message when a ramp has too many entries for the machine, or too many
/// bytes, or `None` when it fits.
pub open spec fn ramp_overflow(gamma_size: u32) -> Option<Seq<char>> {
    if 3 * gamma_size > usize::MAX {
        Some("gamma ramp size overflow"@)
    } else if ramp_bytes(gamma_size) > usize::MAX {
        Some("gamma ramp byte size overflow"@)
    } else {
        None
    }
}

/// A file that can hold the ramp: a regular one of exactly its length.
pub open spec fn fits_ramp(metadata: FileMetadata, gamma_size: u32) -> bool {
    metadata.is_file && metadata.len == ramp_bytes(gamma_size)
}

/// The message when a file cannot hold the ramp.
pub open spec fn wrong_file() -> Seq<char> {
    "gamma ramp must be a regular file of the advertised size"@
}

/// Two bytes as a number in the byte order of the machine.
pub open spec fn native_entry(first: u8, second: u8) -> u16 {
    match vstd::endian::endianness() {
        vstd::endian::Endian::Little => (first + 256 * second) as u16,
        vstd::endian::Endian::Big => (256 * first + second) as u16,
    }
}

/// The entries of a ramp: each pair of bytes is one, in order.
pub open spec fn ramp_entries(bytes: Seq<u8>) -> Seq<u16> {
    Seq::new(bytes.len() / 2, |i: int| native_entry(bytes[2 * i], bytes[2 * i + 1]))
}

/// The message `what` followed by the reason `why`.
pub open spec fn because(what: Seq<char>, why: Seq<char>) -> Seq<char> {
    what + why
}

/// Two bytes as a number in the byte order of the machine, by
/// `u16::from_ne_bytes`: the first byte is the low one on a little-endian
/// machine and the high one on a big-endian machine.
#[verifier::external_body]
fn from_ne_bytes(first: u8, second: u8) -> (res: u16)
    ensures
        res == native_entry(first, second),
{
    u16::from_ne_bytes([first, second])
}

/// The length in bytes of the ramp of three channels of `gamma_size` entries.
pub fn ramp_len(gamma_size: u32) -> (res: Result<usize, String>)
    ensures
        match res {
            Ok(len) => ramp_overflow(gamma_size) is None && len == ramp_bytes(gamma_size),
            Err(message) => ramp_overflow(gamma_size) == Some(message@),
        },
{
    let size: usize = gamma_size as usize;
    match size.checked_mul(3) {
        Some(entries) => match entries.checked_mul(2) {
            Some(byte_len) => Ok(byte_len),
            None => Err("gamma ramp byte size overflow".to_owned()),
        },
        None => Err("gamma ramp size overflow".to_owned()),
    }
}

/// The entries that `bytes` hold.
pub fn decode_ramp(bytes: &Vec<u8>) -> (res: Vec<u16>)
    ensures
        res@ == ramp_entries(bytes@),
{
    let mut res: Vec<u16> = Vec::new();
    let count: usize = bytes.len() / 2;
    for i in 0..count
        invariant
            count == bytes@.len() / 2,
            2 * count <= usize::MAX,
            res@ == ramp_entries(bytes@).take(i as int),
    {
        res.push(from_ne_bytes(bytes[2 * i], bytes[2 * i + 1]));
        assert(ramp_entries(bytes@).take(i + 1) == ramp_entries(bytes@).take(i as int).push(
            native_entry(bytes@[2 * i], bytes@[2 * i + 1]),
        ));
    }
    assert(ramp_entries(bytes@).take(count as int) == ramp_entries(bytes@));
    res
}

/// The message when a file is refused before it is read, or `None` when it is
/// read: `metadata` is what is known of it.
pub open spec fn file_refused(gamma_size: u32, metadata: Result<FileMetadata, String>) -> Option<
    Seq<char>,
> {
    match metadata {
        Err(why) => Some(because("gamma file metadata: "@, why@)),
        Ok(known) => if fits_ramp(known, gamma_size) {
            None
        } else {
            Some(wrong_file())
        },
    }
}

/// `res` is an error with this message.
pub open spec fn fails_with(res: Result<Vec<u16>, String>, expected: Seq<char>) -> bool {
    match res {
        Err(message) => message@ == expected,
        Ok(_) => false,
    }
}

/// `res` is what comes of reading `bytes`.
pub open spec fn ramp_follows(bytes: Result<Vec<u8>, String>, res: Result<Vec<u16>, String>) -> bool {
    match bytes {
        Err(why) => fails_with(res, because("failed to read gamma ramp: "@, why@)),
        Ok(read) => res matches Ok(ramp) && ramp@ == ramp_entries(read@),
    }
}

/// Reads the ramp of three channels of `gamma_size` entries.
///
/// `metadata` asks for what is known of the file, and `read` reads the given
/// number of bytes from its beginning. The protocol requires a file of fixed
/// size, so streams are rejected before they are read.
pub fn read_ramp<
    M: FnOnce() -> Result<FileMetadata, String>,
    R: FnOnce(usize) -> Result<Vec<u8>, String>,
>(gamma_size: u32, metadata: M, read: R) -> (res: Result<Vec<u16>, String>)
    requires
        ramp_overflow(gamma_size) is None ==> call_requires(metadata, ()),
        forall|known: Result<FileMetadata, String>, len: usize|
            #![trigger call_ensures(metadata, (), known), call_requires(read, (len,))]
            ramp_overflow(gamma_size) is None && call_ensures(metadata, (), known) && file_refused(
                gamma_size,
                known,
            ) is None && len == ramp_bytes(gamma_size) ==> call_requires(read, (len,)),
    ensures
        match ramp_overflow(gamma_size) {
            Some(overflow) => fails_with(res, overflow),
            None => exists|known: Result<FileMetadata, String>| #[trigger]
                call_ensures(metadata, (), known) && match file_refused(gamma_size, known) {
                    Some(refusal) => fails_with(res, refusal),
                    None => exists|bytes: Result<Vec<u8>, String>| #[trigger]
                        call_ensures(read, (ramp_bytes(gamma_size) as usize,), bytes)
                            && ramp_follows(bytes, res),
                },
        },
{
    let byte_len: usize = match ramp_len(gamma_size) {
        Ok(byte_len) => byte_len,
        Err(message) => {
            return Err(message);
        },
    };
    let known = metadata();
    let file = match known {
        Ok(file) => file,
        Err(why) => {
            let mut message = "gamma file metadata: ".to_owned();
            message.append(why.as_str());
            return Err(message);
        },
    };
    if !file.is_file || file.len != byte_len as u64 {
        return Err("gamma ramp must be a regular file of the advertised size".to_owned());
    }
    let contents = read(byte_len);
    let ghost bytes = contents;
    let res = match contents {
        Ok(bytes) => Ok(decode_ramp(&bytes)),
        Err(why) => {
            let mut message = "failed to read gamma ramp: ".to_owned();
            message.append(why.as_str());
            Err(message)
        },
    };
    assert(byte_len == ramp_bytes(gamma_size) as usize);
    assert(call_ensures(read, (ramp_bytes(gamma_size) as usize,), bytes));
    assert(ramp_follows(bytes, res));
    assert(file_refused(gamma_size, known) is None);
    res
}

/// An output that is held is not given to another control: the newcomer is told
/// that it failed, whatever the driver would say, and the holder stays.
pub proof fn held_outputs_stay_held(
    controls: Map<u64, u64>,
    output: u64,
    driver: Option<u32>,
    control: u64,
)
    requires
        controls.contains_key(output),
    ensures
        size_offered(controls, Some(output), driver) is None,
        announcement(Some(output), size_offered(controls, Some(output), driver)) is Failed,
        after_request(
            controls,
            Some(output),
            size_offered(controls, Some(output), driver),
            control,
        ) == controls,
{
}

/// A control that is told the gamma size holds its output, and one that is told
/// that it failed changes nothing.
pub proof fn announcements_are_true(
    controls: Map<u64, u64>,
    output: Option<u64>,
    gamma_size: Option<u32>,
    control: u64,
)
    ensures
        ({
            let after = after_request(controls, output, gamma_size, control);
            match announcement(output, gamma_size) {
                Announcement::GammaSize(_) => output matches Some(o) && holds(after, o, control),
                Announcement::Failed => after == controls,
            }
        }),
{
}

/// That no control holds two outputs is kept by everything that changes the
/// controls, as long as a control that is recorded is new.
pub proof fn controls_stay_exclusive(
    controls: Map<u64, u64>,
    output: u64,
    gamma_size: Option<u32>,
    control: u64,
    applied: Result<(), String>,
)
    requires
        one_output_per_control(controls),
    ensures
        one_output_per_control(controls.remove(output)),
        one_output_per_control(after_read(controls, output, control, applied)),
        (forall|o: u64| !#[trigger] holds(controls, o, control)) ==> one_output_per_control(
            after_request(controls, Some(output), gamma_size, control),
        ),
{
    assert forall|o: u64| controls.contains_key(o) implies controls[o] != control || holds(
        controls,
        o,
        control,
    ) by {}
}

/// The output that a control holds is the only one.
pub proof fn holders_hold_one_output(controls: Map<u64, u64>, a: u64, b: u64, control: u64)
    requires
        one_output_per_control(controls),
        holds(controls, a, control),
        holds(controls, b, control),
    ensures
        a == b,
{
}

/// A ramp that was read for a control which no longer holds its output changes
/// nothing and fails nobody.
pub proof fn stale_ramps_are_ignored(
    controls: Map<u64, u64>,
    output: u64,
    control: u64,
    applied: Result<(), String>,
    failure: Option<Failure>,
)
    requires
        !holds(controls, output, control),
        failure_follows(controls, output, control, applied, failure),
    ensures
        after_read(controls, output, control, applied) == controls,
        failure is None,
{
}

/// A file that holds the whole ramp and no more gives three channels of
/// `gamma_size` entries.
pub proof fn ramps_have_three_channels(gamma_size: u32, bytes: Seq<u8>)
    requires
        bytes.len() == ramp_bytes(gamma_size),
    ensures
        ramp_entries(bytes).len() == 3 * gamma_size,
{
}

/// A free output is offered with the size that its driver says, and not at all
/// where the driver says none; an unknown output is never offered.
pub proof fn free_outputs_are_offered_as_the_driver_says(
    controls: Map<u64, u64>,
    output: u64,
    driver: Option<u32>,
)
    requires
        !controls.contains_key(output),
    ensures
        size_offered(controls, Some(output), driver) == driver,
        size_offered(controls, None, driver) is None,
{
}

/// A client is told the size that was offered exactly when its output is known
/// and a size was offered; then its control alone holds the output, and every
/// other output is held as before.
pub proof fn controls_change_only_their_output(
    controls: Map<u64, u64>,
    output: Option<u64>,
    gamma_size: Option<u32>,
    control: u64,
    other: u64,
    size: u32,
)
    ensures
        announcement(output, gamma_size) == Announcement::GammaSize(size) <==> output is Some
            && gamma_size == Some(size),
        announcement(output, gamma_size) is Failed <==> output is None || gamma_size is None,
        ({
            let after = after_request(controls, output, gamma_size, control);
            &&& output is Some && gamma_size is Some ==> after.contains_key(output->Some_0)
                && after[output->Some_0] == control
            &&& output != Some(other) ==> after.contains_key(other) == controls.contains_key(other)
                && after[other] == controls[other]
            &&& output is None || gamma_size is None ==> after == controls
        }),
{
}

/// A control that holds its output loses it exactly when its ramp failed, and is
/// then told so under its own name with the reason; whoever holds another output
/// is not touched.
pub proof fn failed_ramps_end_their_control(
    controls: Map<u64, u64>,
    output: u64,
    control: u64,
    applied: Result<(), String>,
    failure: Option<Failure>,
    other: u64,
)
    requires
        failure_follows(controls, output, control, applied, failure),
        controls.contains_key(output),
        controls[output] == control,
    ensures
        failure is Some <==> applied is Err,
        failure is Some ==> failure->Some_0.output == output && failure->Some_0.control == control
            && failure->Some_0.message@ == applied->Err_0@,
        after_read(controls, output, control, applied).contains_key(output) <==> applied is Ok,
        applied is Ok ==> after_read(controls, output, control, applied) == controls,
        other != output ==> after_read(controls, output, control, applied).contains_key(other)
            == controls.contains_key(other) && after_read(controls, output, control, applied)[other]
            == controls[other],
{
}

/// A control holds an output exactly when it is the one recorded for it.
pub proof fn holders_are_recorded(controls: Map<u64, u64>, output: u64, control: u64)
    ensures
        holds(controls, output, control) <==> controls.contains_pair(output, control),
{
}

/// Every entry of a ramp is two bytes of the file, in its place: the low one
/// first on a little-endian machine, the high one first on a big-endian one.
pub proof fn ramp_entries_are_pairs_of_bytes(bytes: Seq<u8>, i: int)
    requires
        0 <= i,
        2 * i + 1 < bytes.len(),
    ensures
        i < ramp_entries(bytes).len(),
        2 * ramp_entries(bytes).len() <= bytes.len() < 2 * ramp_entries(bytes).len() + 2,
        vstd::endian::endianness() is Little ==> ramp_entries(bytes)[i] % 256 == bytes[2 * i]
            && ramp_entries(bytes)[i] / 256 == bytes[2 * i + 1],
        vstd::endian::endianness() is Big ==> ramp_entries(bytes)[i] / 256 == bytes[2 * i]
            && ramp_entries(bytes)[i] % 256 == bytes[2 * i + 1],
{
}

/// A ramp takes three channels of two bytes for each entry, and is refused for
/// its size exactly when the machine cannot count that many bytes.
pub proof fn ramps_are_refused_only_for_overflow(gamma_size: u32)
    ensures
        ramp_bytes(gamma_size) == 3 * (2 * gamma_size),
        ramp_overflow(gamma_size) is None <==> 6 * gamma_size <= usize::MAX,
        3 * gamma_size > usize::MAX ==> ramp_overflow(gamma_size) == Some(
            "gamma ramp size overflow"@,
        ),
        3 * gamma_size <= usize::MAX < 6 * gamma_size ==> ramp_overflow(gamma_size) == Some(
            "gamma ramp byte size overflow"@,
        ),
{
}

/// A file is read exactly when its metadata is known, it is a regular file, and it
/// has as many bytes as the ramp; else the error says which of these failed.
pub proof fn only_files_of_the_right_size_are_read(
    gamma_size: u32,
    metadata: Result<FileMetadata, String>,
)
    ensures
        file_refused(gamma_size, metadata) is None <==> metadata is Ok && metadata->Ok_0.is_file
            && metadata->Ok_0.len == 6 * gamma_size,
        metadata is Ok && file_refused(gamma_size, metadata) is Some ==> file_refused(
            gamma_size,
            metadata,
        ) == Some("gamma ramp must be a regular file of the advertised size"@),
        metadata is Err ==> file_refused(gamma_size, metadata) == Some(
            "gamma file metadata: "@ + metadata->Err_0@,
        ),
{
}

/// What was read is decoded, and what could not be read is an error with its
/// reason.
pub proof fn ramps_come_from_what_was_read(
    bytes: Result<Vec<u8>, String>,
    res: Result<Vec<u16>, String>,
)
    requires
        ramp_follows(bytes, res),
    ensures
        res is Ok <==> bytes is Ok,
        res is Ok ==> res->Ok_0@ == ramp_entries(bytes->Ok_0@),
        res is Err ==> res->Err_0@ == "failed to read gamma ramp: "@ + bytes->Err_0@,
{
}

} // verus!
