//! Keyboard auto-repeat of the X server.

use vstd::prelude::*;

verus! {

/// `numerator / denominator` rounded to the nearest integer, halves up.
pub open spec fn nearest_quotient(numerator: nat, denominator: nat) -> nat {
    (2 * numerator + denominator) / (2 * denominator)
}

/// The milliseconds between two repeats at `rate` repeats per second, rounded
/// to the nearest one and never below one. A rate below one counts as one.
pub open spec fn repeat_interval(rate: i32) -> nat {
    let per_second: nat = if rate < 1 {
        1
    } else {
        rate as nat
    };
    let interval = nearest_quotient(1000, per_second);
    if interval < 1 {
        1
    } else {
        interval
    }
}

/// The interval between two repeats in milliseconds.
pub fn repeat_interval_ms(rate: i32) -> (res: u16)
    ensures
        res == repeat_interval(rate),
{
    let per_second: u64 = if rate < 1 {
        1
    } else {
        rate as u64
    };
    let interval: u64 = (2000 + per_second) / (2 * per_second);
    proof {
        assert((2000 + per_second) / (2 * per_second) <= 1000) by (nonlinear_arith)
            requires
                per_second >= 1,
        ;
    }
    if interval < 1 {
        1
    } else {
        interval as u16
    }
}

/// The keyboard controls the X server reports.
#[derive(Clone, Copy, Debug, PartialEq, Eq)]
pub struct KeyboardControls {
    pub internal_mods_mask: u16,
    pub internal_mods_real_mods: u16,
    pub ignore_lock_mods_mask: u16,
    pub ignore_lock_mods_real_mods: u16,
    pub internal_mods_vmods: u16,
    pub ignore_lock_mods_vmods: u16,
    pub mouse_keys_dflt_btn: u8,
    pub groups_wrap: u8,
    pub access_x_option: u16,
    pub slow_keys_delay: u16,
    pub debounce_delay: u16,
    pub mouse_keys_delay: u16,
    pub mouse_keys_interval: u16,
    pub mouse_keys_time_to_max: u16,
    pub mouse_keys_max_speed: u16,
    pub mouse_keys_curve: i16,
    pub access_x_timeout: u16,
    pub access_x_timeout_mask: u32,
    pub access_x_timeout_values: u32,
    pub access_x_timeout_options_mask: u16,
    pub access_x_timeout_options_values: u16,
    pub per_key_repeat: [u8; 32],
}

/// The keyboard controls to set: the arguments of the XKB `SetControls` request.
#[derive(Clone, Copy, Debug, PartialEq, Eq)]
pub struct ControlsUpdate {
    pub device: u16,
    pub affect_internal_real_mods: u16,
    pub internal_real_mods: u16,
    pub affect_ignore_lock_real_mods: u16,
    pub ignore_lock_real_mods: u16,
    pub affect_internal_virtual_mods: u16,
    pub internal_virtual_mods: u16,
    pub affect_ignore_lock_virtual_mods: u16,
    pub ignore_lock_virtual_mods: u16,
    pub mouse_keys_dflt_btn: u8,
    pub groups_wrap: u8,
    pub access_x_options: u16,
    pub affect_enabled_controls: u32,
    pub enabled_controls: u32,
    pub change_controls: u32,
    pub repeat_delay: u16,
    pub repeat_interval: u16,
    pub slow_keys_delay: u16,
    pub debounce_delay: u16,
    pub mouse_keys_delay: u16,
    pub mouse_keys_interval: u16,
    pub mouse_keys_time_to_max: u16,
    pub mouse_keys_max_speed: u16,
    pub mouse_keys_curve: i16,
    pub access_x_timeout: u16,
    pub access_x_timeout_mask: u32,
    pub access_x_timeout_values: u32,
    pub access_x_timeout_options_mask: u16,
    pub access_x_timeout_options_values: u16,
    pub per_key_repeat: [u8; 32],
}

/// The XKB device specification of the core keyboard.
pub const USE_CORE_KEYBOARD: u16 = 256;

/// The XKB boolean control for key repeat.
pub const REPEAT_KEYS: u32 = 1;

/// `x11rb::protocol::xkb::ID::USE_CORE_KBD` as the device specification it
/// stands for: 256.
#[verifier::external_body]
fn core_keyboard() -> (res: u16)
    ensures
        res == USE_CORE_KEYBOARD,
{
    u16::from(x11rb::protocol::xkb::ID::USE_CORE_KBD)
}

/// `x11rb::protocol::xkb::BoolCtrl::REPEAT_KEYS` as its bit mask: the lowest bit.
#[verifier::external_body]
fn repeat_keys_control() -> (res: u32)
    ensures
        res == REPEAT_KEYS,
{
    u32::from(x11rb::protocol::xkb::BoolCtrl::REPEAT_KEYS)
}

/// `delay` in the range a repeat delay can have.
pub open spec fn clamped_delay(delay: i32) -> int {
    if delay < 1 {
        1
    } else if delay > 65535 {
        65535
    } else {
        delay as int
    }
}

/// `update` sets key repeat to `delay` and `rate` and keeps everything else of
/// `current`.
pub open spec fn sets_key_repeat(
    update: ControlsUpdate,
    current: KeyboardControls,
    delay: i32,
    rate: i32,
) -> bool {
    &&& update.device == USE_CORE_KEYBOARD
    &&& update.affect_enabled_controls == REPEAT_KEYS
    &&& update.enabled_controls == REPEAT_KEYS
    &&& update.change_controls == REPEAT_KEYS
    &&& update.repeat_delay == clamped_delay(delay)
    &&& update.repeat_interval == repeat_interval(rate)
    &&& update.affect_internal_real_mods == current.internal_mods_mask
    &&& update.internal_real_mods == current.internal_mods_real_mods
    &&& update.affect_ignore_lock_real_mods == current.ignore_lock_mods_mask
    &&& update.ignore_lock_real_mods == current.ignore_lock_mods_real_mods
    &&& update.affect_internal_virtual_mods == current.internal_mods_vmods
    &&& update.internal_virtual_mods == current.internal_mods_vmods
    &&& update.affect_ignore_lock_virtual_mods == current.ignore_lock_mods_vmods
    &&& update.ignore_lock_virtual_mods == current.ignore_lock_mods_vmods
    &&& update.mouse_keys_dflt_btn == current.mouse_keys_dflt_btn
    &&& update.groups_wrap == current.groups_wrap
    &&& update.access_x_options == current.access_x_option
    &&& update.slow_keys_delay == current.slow_keys_delay
    &&& update.debounce_delay == current.debounce_delay
    &&& update.mouse_keys_delay == current.mouse_keys_delay
    &&& update.mouse_keys_interval == current.mouse_keys_interval
    &&& update.mouse_keys_time_to_max == current.mouse_keys_time_to_max
    &&& update.mouse_keys_max_speed == current.mouse_keys_max_speed
    &&& update.mouse_keys_curve == current.mouse_keys_curve
    &&& update.access_x_timeout == current.access_x_timeout
    &&& update.access_x_timeout_mask == current.access_x_timeout_mask
    &&& update.access_x_timeout_values == current.access_x_timeout_values
    &&& update.access_x_timeout_options_mask == current.access_x_timeout_options_mask
    &&& update.access_x_timeout_options_values == current.access_x_timeout_options_values
    &&& update.per_key_repeat == current.per_key_repeat
}

/// The controls that set key repeat to `delay` and `rate` on top of `current`.
pub fn key_repeat_controls(current: &KeyboardControls, delay: i32, rate: i32) -> (res:
    ControlsUpdate)
    ensures
        sets_key_repeat(res, *current, delay, rate),
{
    let repeat_delay: u16 = if delay < 1 {
        1
    } else if delay > 65535 {
        65535
    } else {
        delay as u16
    };
    let repeat_keys: u32 = repeat_keys_control();
    ControlsUpdate {
        device: core_keyboard(),
        affect_internal_real_mods: current.internal_mods_mask,
        internal_real_mods: current.internal_mods_real_mods,
        affect_ignore_lock_real_mods: current.ignore_lock_mods_mask,
        ignore_lock_real_mods: current.ignore_lock_mods_real_mods,
        affect_internal_virtual_mods: current.internal_mods_vmods,
        internal_virtual_mods: current.internal_mods_vmods,
        affect_ignore_lock_virtual_mods: current.ignore_lock_mods_vmods,
        ignore_lock_virtual_mods: current.ignore_lock_mods_vmods,
        mouse_keys_dflt_btn: current.mouse_keys_dflt_btn,
        groups_wrap: current.groups_wrap,
        access_x_options: current.access_x_option,
        affect_enabled_controls: repeat_keys,
        enabled_controls: repeat_keys,
        change_controls: repeat_keys,
        repeat_delay,
        repeat_interval: repeat_interval_ms(rate),
        slow_keys_delay: current.slow_keys_delay,
        debounce_delay: current.debounce_delay,
        mouse_keys_delay: current.mouse_keys_delay,
        mouse_keys_interval: current.mouse_keys_interval,
        mouse_keys_time_to_max: current.mouse_keys_time_to_max,
        mouse_keys_max_speed: current.mouse_keys_max_speed,
        mouse_keys_curve: current.mouse_keys_curve,
        access_x_timeout: current.access_x_timeout,
        access_x_timeout_mask: current.access_x_timeout_mask,
        access_x_timeout_values: current.access_x_timeout_values,
        access_x_timeout_options_mask: current.access_x_timeout_options_mask,
        access_x_timeout_options_values: current.access_x_timeout_options_values,
        per_key_repeat: current.per_key_repeat,
    }
}

/// What configuring key repeat asks of the X server next.
#[derive(Debug)]
pub enum KeyRepeatStep {
    /// Switch the core auto-repeat mode and wait for the confirmation.
    SetMode { enabled: bool },
    /// Ask for XKB 1.0.
    UseExtension,
    /// Ask for the keyboard controls of `device`.
    GetControls { device: u16 },
    /// Set the keyboard controls and wait for the confirmation.
    SetControls(ControlsUpdate),
    /// Flush the connection.
    Flush,
    /// Key repeat is configured.
    Done,
    /// Key repeat cannot be configured.
    Failed(String),
}

/// What the X server answered.
#[derive(Debug)]
pub enum KeyRepeatReply {
    /// The request was carried out.
    Confirmed,
    /// Whether XKB 1.0 is supported.
    Extension { supported: bool },
    /// The current keyboard controls.
    Controls(KeyboardControls),
}

/// The message when the server has no XKB 1.0.
pub open spec fn xkb_unsupported() -> Seq<char> {
    "XWayland does not support XKB 1.0 keyboard controls"@
}

/// The step that follows `step` when the server answered `reply`. An answer to
/// anything but the question asked leads nowhere.
pub open spec fn key_repeat_follows(
    delay: i32,
    rate: i32,
    step: KeyRepeatStep,
    reply: KeyRepeatReply,
    next: KeyRepeatStep,
) -> bool {
    match (step, reply) {
        (KeyRepeatStep::SetMode { .. }, KeyRepeatReply::Confirmed) => if rate > 0 {
            next is UseExtension
        } else {
            next is Flush
        },
        (KeyRepeatStep::UseExtension, KeyRepeatReply::Extension { supported }) => if supported {
            next == (KeyRepeatStep::GetControls { device: USE_CORE_KEYBOARD })
        } else {
            next matches KeyRepeatStep::Failed(message) && message@ == xkb_unsupported()
        },
        (KeyRepeatStep::GetControls { .. }, KeyRepeatReply::Controls(current)) => next matches
            KeyRepeatStep::SetControls(update) && sets_key_repeat(update, current, delay, rate),
        (KeyRepeatStep::SetControls(..), KeyRepeatReply::Confirmed) => next is Flush,
        (KeyRepeatStep::Flush, KeyRepeatReply::Confirmed) => next is Done,
        _ => next == step,
    }
}

/// The first step of configuring key repeat: the core auto-repeat mode is on
/// exactly when the rate is positive.
pub fn first_key_repeat_step(rate: i32) -> (res: KeyRepeatStep)
    ensures
        res == (KeyRepeatStep::SetMode { enabled: rate > 0 }),
{
    KeyRepeatStep::SetMode { enabled: rate > 0 }
}

/// The step that follows the server's answer.
pub fn next_key_repeat_step(delay: i32, rate: i32, step: KeyRepeatStep, reply: KeyRepeatReply) -> (
res: KeyRepeatStep)
    ensures
        key_repeat_follows(delay, rate, step, reply, res),
{
    match (step, reply) {
        (KeyRepeatStep::SetMode { enabled: _ }, KeyRepeatReply::Confirmed) => if rate > 0 {
            KeyRepeatStep::UseExtension
        } else {
            KeyRepeatStep::Flush
        },
        (KeyRepeatStep::UseExtension, KeyRepeatReply::Extension { supported }) => if supported {
            KeyRepeatStep::GetControls { device: core_keyboard() }
        } else {
            KeyRepeatStep::Failed(
                "XWayland does not support XKB 1.0 keyboard controls".to_owned(),
            )
        },
        (KeyRepeatStep::GetControls { device: _ }, KeyRepeatReply::Controls(current)) => {
            KeyRepeatStep::SetControls(key_repeat_controls(&current, delay, rate))
        },
        (KeyRepeatStep::SetControls(_), KeyRepeatReply::Confirmed) => KeyRepeatStep::Flush,
        (KeyRepeatStep::Flush, KeyRepeatReply::Confirmed) => KeyRepeatStep::Done,
        (step, _) => step,
    }
}

/// How many answers configuring key repeat still waits for at most.
pub open spec fn answers_left(step: KeyRepeatStep) -> nat {
    match step {
        KeyRepeatStep::SetMode { .. } => 5,
        KeyRepeatStep::UseExtension => 4,
        KeyRepeatStep::GetControls { .. } => 3,
        KeyRepeatStep::SetControls(..) => 2,
        KeyRepeatStep::Flush => 1,
        KeyRepeatStep::Done => 0,
        KeyRepeatStep::Failed(..) => 0,
    }
}

/// `reply` is an answer to the question that `step` asks.
pub open spec fn fits_step(step: KeyRepeatStep, reply: KeyRepeatReply) -> bool {
    match step {
        KeyRepeatStep::UseExtension => reply is Extension,
        KeyRepeatStep::GetControls { .. } => reply is Controls,
        _ => reply is Confirmed,
    }
}

/// Every fitting answer brings configuring key repeat nearer to its end, and the
/// only answer that makes it fail is that XKB is not supported.
pub proof fn key_repeat_comes_to_an_end(
    delay: i32,
    rate: i32,
    step: KeyRepeatStep,
    reply: KeyRepeatReply,
    next: KeyRepeatStep,
)
    requires
        fits_step(step, reply),
        key_repeat_follows(delay, rate, step, reply, next),
        answers_left(step) > 0,
    ensures
        answers_left(next) < answers_left(step),
        next is Failed <==> step is UseExtension && reply == (KeyRepeatReply::Extension {
            supported: false,
        }),
{
}

/// Switching repeat off never touches the XKB controls.
pub proof fn disabled_repeat_leaves_controls_alone(
    delay: i32,
    rate: i32,
    step: KeyRepeatStep,
    reply: KeyRepeatReply,
    next: KeyRepeatStep,
)
    requires
        rate <= 0,
        step is SetMode || step is Flush || step is Done,
        key_repeat_follows(delay, rate, step, reply, next),
    ensures
        next is SetMode || next is Flush || next is Done,
{
}

/// A faster rate never repeats at a longer interval.
pub proof fn faster_rates_have_shorter_intervals(slow: i32, fast: i32)
    requires
        slow <= fast,
    ensures
        repeat_interval(fast) <= repeat_interval(slow),
{
    let s: int = if slow < 1 {
        1
    } else {
        slow as int
    };
    let f: int = if fast < 1 {
        1
    } else {
        fast as int
    };
    assert((2000 + f) / (2 * f) <= (2000 + s) / (2 * s)) by (nonlinear_arith)
        requires
            1 <= s <= f,
    {
        let q = (2000 + f) / (2 * f);
        assert(2 * f * q <= 2000 + f);
        assert(2 * s * q <= 2000 + s);
    }
}

/// The controls that a keyboard reports once it was told `update`.
pub open spec fn reported_after(update: ControlsUpdate) -> KeyboardControls {
    KeyboardControls {
        internal_mods_mask: update.affect_internal_real_mods,
        internal_mods_real_mods: update.internal_real_mods,
        ignore_lock_mods_mask: update.affect_ignore_lock_real_mods,
        ignore_lock_mods_real_mods: update.ignore_lock_real_mods,
        internal_mods_vmods: update.internal_virtual_mods,
        ignore_lock_mods_vmods: update.ignore_lock_virtual_mods,
        mouse_keys_dflt_btn: update.mouse_keys_dflt_btn,
        groups_wrap: update.groups_wrap,
        access_x_option: update.access_x_options,
        slow_keys_delay: update.slow_keys_delay,
        debounce_delay: update.debounce_delay,
        mouse_keys_delay: update.mouse_keys_delay,
        mouse_keys_interval: update.mouse_keys_interval,
        mouse_keys_time_to_max: update.mouse_keys_time_to_max,
        mouse_keys_max_speed: update.mouse_keys_max_speed,
        mouse_keys_curve: update.mouse_keys_curve,
        access_x_timeout: update.access_x_timeout,
        access_x_timeout_mask: update.access_x_timeout_mask,
        access_x_timeout_values: update.access_x_timeout_values,
        access_x_timeout_options_mask: update.access_x_timeout_options_mask,
        access_x_timeout_options_values: update.access_x_timeout_options_values,
        per_key_repeat: update.per_key_repeat,
    }
}

/// Setting key repeat keeps every other control as it was reported, switches
/// repeat on, and changes nothing but repeat.
pub proof fn key_repeat_keeps_the_other_controls(
    update: ControlsUpdate,
    current: KeyboardControls,
    delay: i32,
    rate: i32,
)
    requires
        sets_key_repeat(update, current, delay, rate),
    ensures
        reported_after(update) == current,
        update.affect_internal_virtual_mods == update.internal_virtual_mods,
        update.affect_ignore_lock_virtual_mods == update.ignore_lock_virtual_mods,
        update.device == 256,
        update.affect_enabled_controls == 1,
        update.enabled_controls == 1,
        update.change_controls == 1,
{
}

/// The delay before the first repeat is the one that is asked for, as far as it
/// is a number of milliseconds from one to 65535, and else the nearest such
/// number.
pub proof fn delays_are_kept_in_range(
    update: ControlsUpdate,
    current: KeyboardControls,
    delay: i32,
    rate: i32,
)
    requires
        sets_key_repeat(update, current, delay, rate),
    ensures
        1 <= update.repeat_delay,
        1 <= delay <= 65535 ==> update.repeat_delay == delay,
        delay < 1 ==> update.repeat_delay == 1,
        delay > 65535 ==> update.repeat_delay == 65535,
{
}

/// The interval is the whole number of milliseconds nearest to a second divided
/// by the rate, the larger one of two that are equally near; a rate below one
/// counts as one, and an interval is at least one millisecond.
pub proof fn intervals_divide_a_second(
    update: ControlsUpdate,
    current: KeyboardControls,
    delay: i32,
    rate: i32,
)
    requires
        sets_key_repeat(update, current, delay, rate),
    ensures
        rate < 1 ==> update.repeat_interval == 1000,
        1 <= rate <= 2000 ==> {
            &&& 2 * rate * update.repeat_interval <= 2000 + rate
            &&& 2000 + rate < 2 * rate * update.repeat_interval + 2 * rate
        },
        rate > 2000 ==> update.repeat_interval == 1,
{
    let r: int = if rate < 1 {
        1
    } else {
        rate as int
    };
    let q = (2000 + r) / (2 * r);
    assert(2 * r * q <= 2000 + r < 2 * r * q + 2 * r) by (nonlinear_arith)
        requires
            r >= 1,
            q == (2000 + r) / (2 * r),
    ;
    assert(1 <= r <= 2000 ==> q >= 1) by (nonlinear_arith)
        requires
            r >= 1,
            2000 + r < 2 * r * q + 2 * r,
    ;
    assert(r > 2000 ==> q <= 0) by (nonlinear_arith)
        requires
            r >= 1,
            2 * r * q <= 2000 + r,
    ;
    assert(r == 1 ==> q == 1000) by (nonlinear_arith)
        requires
            q == (2000 + r) / (2 * r),
    ;
}

/// Key repeat is switched on or off first; it is finished only once all was
/// flushed, and while it is on, nothing is flushed before the controls of the
/// core keyboard were read and set. An answer to another question changes
/// nothing.
pub proof fn enabled_repeat_sets_the_controls(
    delay: i32,
    rate: i32,
    step: KeyRepeatStep,
    reply: KeyRepeatReply,
    next: KeyRepeatStep,
)
    requires
        key_repeat_follows(delay, rate, step, reply, next),
    ensures
        next is Done && step !is Done ==> step is Flush,
        next is Flush && step !is Flush ==> step is SetControls || (step is SetMode && rate <= 0),
        next is SetControls && step !is SetControls ==> step is GetControls
            && reply is Controls && reported_after(next->SetControls_0) == reply->Controls_0,
        next is GetControls && step !is GetControls ==> step is UseExtension && next->device == 256
            && reply == (KeyRepeatReply::Extension { supported: true }),
        next is UseExtension && step !is UseExtension ==> step is SetMode && rate > 0,
        next is SetMode ==> step is SetMode,
        step is SetMode && reply is Confirmed && rate > 0 ==> next is UseExtension,
        step is UseExtension && reply == (KeyRepeatReply::Extension { supported: true })
            ==> next is GetControls,
        step is GetControls && reply is Controls ==> next is SetControls,
        step is SetControls && reply is Confirmed ==> next is Flush,
        !fits_step(step, reply) ==> next == step,
{
}

} // verus!
