//! What to tell the backlight tool for a relative change.
//!
//! A decrease is never handed to the tool as such: the target is computed
//! here and issued as an absolute value, so that a decrease from a known
//! brightness cannot switch the backlight fully off. An increase from a dark
//! screen is issued as an absolute value too.

use vstd::prelude::*;
use vstd::math::max;
use crate::request::Mode;

verus! {

/// Lowest brightness that a decrease may reach.
pub const FLOOR: u8 = 1;

/// How the backlight tool is to take a value.
#[derive(Clone, Copy, Debug, PartialEq, Eq, Structural)]
pub enum WriteMode {
    /// As the new brightness.
    SetTo,
    /// As an amount to add to the brightness.
    Increase,
    /// As an amount to take from the brightness.
    Decrease,
}

/// One instruction for the backlight tool.
#[derive(Clone, Copy, Debug, PartialEq, Eq, Structural)]
pub struct Instruction {
    pub mode: WriteMode,
    pub value: u8,
}

/// The brightness to set when `current` is lowered by `delta`:
/// `max(current - delta, 1)`.
pub open spec fn decrease_target(current: u8, delta: u8) -> u8 {
    max(current - delta, FLOOR as int) as u8
}

/// The instruction that carries out a relative change.
///
/// - Increase, current brightness known and at most 1: set to the delta.
/// - Increase otherwise: increase by the delta.
/// - Decrease, current brightness known: set to `max(current - delta, 1)`.
/// - Decrease, current brightness unknown: set to the delta.
/// - Any other mode: nothing to adjust.
pub open spec fn adjustment(mode: Mode, current: Option<u8>) -> Option<Instruction> {
    match mode {
        Mode::Increase(delta) => Some(
            Instruction {
                mode: if current matches Some(c) && c <= FLOOR {
                    WriteMode::SetTo
                } else {
                    WriteMode::Increase
                },
                value: delta,
            },
        ),
        Mode::Decrease(delta) => Some(
            Instruction {
                mode: WriteMode::SetTo,
                value: match current {
                    Some(c) => decrease_target(c, delta),
                    None => delta,
                },
            },
        ),
        _ => None,
    }
}

/// Computes the brightness to set for a decrease.
pub fn lowered(current: u8, delta: u8) -> (target: u8)
    ensures
        target == max(current - delta, 1),
        target == decrease_target(current, delta),
        target >= FLOOR,
{
    let rest = current.saturating_sub(delta);
    if rest < FLOOR {
        FLOOR
    } else {
        rest
    }
}

/// Decides the instruction for a relative change, given the current
/// brightness where it could be read.
pub fn plan_adjustment(mode: Mode, current: Option<u8>) -> (plan: Option<Instruction>)
    ensures
        plan == adjustment(mode, current),
        plan is Some <==> mode is Increase || mode is Decrease,
        mode is Decrease ==> (plan matches Some(w) && w.mode == WriteMode::SetTo),
        mode matches Mode::Decrease(delta) ==> (current matches Some(c) ==> plan == Some(
            (Instruction { mode: WriteMode::SetTo, value: max(c - delta, 1) as u8 }),
        )),
        mode matches Mode::Increase(delta) ==> (current matches Some(c) ==> (c <= 1 ==> plan
            == Some((Instruction { mode: WriteMode::SetTo, value: delta })))),
{
    match mode {
        Mode::Increase(delta) => {
            let dark = match current {
                Some(c) => c <= FLOOR,
                None => false,
            };
            if dark {
                Some(Instruction { mode: WriteMode::SetTo, value: delta })
            } else {
                Some(Instruction { mode: WriteMode::Increase, value: delta })
            }
        },
        Mode::Decrease(delta) => {
            let value = match current {
                Some(c) => lowered(c, delta),
                None => delta,
            };
            Some(Instruction { mode: WriteMode::SetTo, value })
        },
        _ => None,
    }
}

/// A decrease from a known brightness never asks for less than 1, and never
/// for more than the brightness it started from unless that was 0.
pub proof fn lemma_decrease_keeps_floor(current: u8, delta: u8)
    ensures
        adjustment(Mode::Decrease(delta), Some(current)) matches Some(w) && {
            &&& w.mode == WriteMode::SetTo
            &&& w.value == max(current - delta, 1)
            &&& w.value >= 1
            &&& w.value <= max(current as int, 1)
        },
{
}

/// An increase from a known brightness of at most 1 is an absolute set of
/// the delta; from any brightness above 1, or an unknown one, it is a
/// relative increase by the delta.
pub proof fn lemma_increase_from_dark_is_absolute(delta: u8, current: Option<u8>)
    ensures
        adjustment(Mode::Increase(delta), current) matches Some(w) && {
            &&& w.value == delta
            &&& w.mode == if current matches Some(c) && c <= 1 {
                WriteMode::SetTo
            } else {
                WriteMode::Increase
            }
            &&& w.mode != WriteMode::Decrease
        },
{
}

} // verus!
