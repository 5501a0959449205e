//! Keyboard events, the classification of raw hook messages, and what the hook
//! callback does with each invocation.
use vstd::prelude::*;

use crate::keycode::{key_from_code, spec_key_from_code};

verus! {

/// The hook code with which the system hands over a real input event.
pub const HC_ACTION: i32 = 0;

/// A key was pressed.
pub const WM_KEYDOWN: u32 = 0x0100;

/// A key was released.
pub const WM_KEYUP: u32 = 0x0101;

/// A key was pressed while Alt was held, or F10.
pub const WM_SYSKEYDOWN: u32 = 0x0104;

/// A key was released while Alt was held, or F10.
pub const WM_SYSKEYUP: u32 = 0x0105;

/// One key transition, as handed to the caller's handler.
#[derive(Debug, Clone, PartialEq)]
pub struct Event {
    /// Milliseconds since the Unix epoch when the transition was seen.
    pub timestamp: u128,
    /// `true` for a press, `false` for a release.
    pub is_key_down: bool,
    /// The symbolic name of the key, or `"Unknown"`.
    pub key: &'static str,
}

/// Why listening could not start.
#[derive(Debug)]
#[non_exhaustive]
pub enum ListenError {
    /// The keyboard hook was refused, with the system's error code.
    KeyHookError(u32),
    /// The mouse hook was refused, with the system's error code.
    MouseHookError(u32),
}

/// Why a hook could not be installed, with the system's error code.
#[derive(Debug)]
pub enum HookError {
    Mouse(u32),
    Key(u32),
}

/// The raw message kinds that mean a key went down.
pub open spec fn is_press_message(param: usize) -> bool {
    param == WM_KEYDOWN as usize || param == WM_SYSKEYDOWN as usize
}

/// The raw message kinds that mean a key went up.
pub open spec fn is_release_message(param: usize) -> bool {
    param == WM_KEYUP as usize || param == WM_SYSKEYUP as usize
}

/// Classifies a raw message: for a press or a release, the name of the key
/// with virtual-key code `vk_code` and whether it went down; for any other
/// message, no name.
pub fn convert(param: usize, vk_code: u32) -> (r: (Option<&'static str>, bool))
    ensures
        is_press_message(param) ==> r.0 is Some && r.0.unwrap()@ == spec_key_from_code(
            vk_code as u16,
        ) && r.1,
        is_release_message(param) ==> r.0 is Some && r.0.unwrap()@ == spec_key_from_code(
            vk_code as u16,
        ) && !r.1,
        !is_press_message(param) && !is_release_message(param) ==> r.0 is None && !r.1,
{
    if param == WM_KEYDOWN as usize || param == WM_SYSKEYDOWN as usize {
        (Some(key_from_code(vk_code as u16)), true)
    } else if param == WM_KEYUP as usize || param == WM_SYSKEYUP as usize {
        (Some(key_from_code(vk_code as u16)), false)
    } else {
        (None, false)
    }
}

/// One thing the hook callback does, in the order given.
#[derive(Debug, Clone, PartialEq)]
pub enum CallbackStep {
    /// Hand the event to the installed handler, if there is one.
    Deliver(Event),
    /// Pass the invocation on to the next hook in the chain and return its result.
    CallNext,
}

/// Whether an invocation of the hook callback yields an event.
pub open spec fn produces_event(hook_code: i32, param: usize) -> bool {
    hook_code == HC_ACTION && (is_press_message(param) || is_release_message(param))
}

/// Whether `e` is the event that an invocation yields, stamped with `timestamp`.
pub open spec fn is_event_for(e: Event, param: usize, vk_code: u32, timestamp: u128) -> bool {
    &&& e.key@ == spec_key_from_code(vk_code as u16)
    &&& e.is_key_down == is_press_message(param)
    &&& e.timestamp == timestamp
}

/// Whether `steps` is what the callback does for one invocation: deliver the
/// event that it yields, if any, and then pass the invocation on.
pub open spec fn is_callback_plan(
    steps: Seq<CallbackStep>,
    hook_code: i32,
    param: usize,
    vk_code: u32,
    timestamp: u128,
) -> bool {
    if produces_event(hook_code, param) {
        &&& steps.len() == 2
        &&& steps[0] matches CallbackStep::Deliver(e) && is_event_for(e, param, vk_code, timestamp)
        &&& steps[1] is CallNext
    } else {
        steps == seq![CallbackStep::CallNext]
    }
}

/// Decides what the hook callback does for one invocation with hook code
/// `hook_code`, message `param`, the key's virtual-key code `vk_code`, and the
/// current time `timestamp`.
pub fn plan_callback(hook_code: i32, param: usize, vk_code: u32, timestamp: u128) -> (r: Vec<
    CallbackStep,
>)
    ensures
        is_callback_plan(r@, hook_code, param, vk_code, timestamp),
{
    let mut steps: Vec<CallbackStep> = Vec::new();
    if hook_code == HC_ACTION {
        let (opt, is_key_down) = convert(param, vk_code);
        if let Some(key) = opt {
            steps.push(CallbackStep::Deliver(Event { timestamp, is_key_down, key }));
        }
    }
    steps.push(CallbackStep::CallNext);
    proof {
        if !produces_event(hook_code, param) {
            assert(steps@ =~= seq![CallbackStep::CallNext]);
        }
    }
    steps
}

/// Every invocation of the callback passes itself on exactly once, as its last
/// step, whether or not it yields an event.
pub proof fn lemma_chains_exactly_once(
    steps: Seq<CallbackStep>,
    hook_code: i32,
    param: usize,
    vk_code: u32,
    timestamp: u128,
)
    requires
        is_callback_plan(steps, hook_code, param, vk_code, timestamp),
    ensures
        steps.len() >= 1,
        steps.last() is CallNext,
        forall|i: int| 0 <= i < steps.len() - 1 ==> !(steps[i] is CallNext),
{
    if !produces_event(hook_code, param) {
        assert(steps[0] is CallNext);
    }
}

} // verus!
