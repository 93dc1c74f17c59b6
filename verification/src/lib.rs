//! Simulation core of a turn-based auto-battler.
//!
//! The crate owns the per-player economy (money, experience, levelling), the
//! roster of units on a board, the shop the roster buys from, the resolution
//! of spell and unit abilities, the battle resolver that turns two boards
//! into an ordered queue of battle actions, the playback protocol that
//! applies those actions to the presented boards, and the match scheduler
//! that advances rounds and closes the match.  Rendering, transport and
//! persistence live outside the crate and exchange plain values with it.
#![allow(unused_imports)]
use vstd::prelude::*;

pub mod ability;
pub mod battle;
pub mod catalog;
pub mod character;
pub mod game;
pub mod lobby;
pub mod playback;
pub mod player;
mod rng;
pub mod shop;
pub mod spell;

verus! {

/// Number of unit slots on a roster's board.
pub const BOARD_SIZE: usize = 8;

/// Number of unit slots a freshly rolled shop offers.
pub const SHOP_SIZE: usize = 5;

/// Number of spell slots a freshly rolled shop offers.
pub const SHOP_SPELL_SIZE: usize = 2;

/// Cap on the spells a roster may hold at once.
pub const MAX_SPELLS: usize = 8;

/// Experience a roster needs for each level.
pub const EXP_PER_LVL: u8 = 2;

/// Highest level a roster can reach.
pub const MAX_LVL: u8 = 6;

/// Health a roster starts the match with.
pub const START_HEALTH: i16 = 10;

/// Money a roster starts the match with.
pub const START_MONEY: u16 = 10;

/// Experience a roster starts the match with.
pub const START_EXP: u8 = 2;

/// Why a roster operation was refused.  Every mutating roster operation
/// either fully applies or reports one of these and leaves the roster
/// unchanged (the one documented exception is the ability cast that
/// `buy_spell` performs after the purchase itself has committed).
#[derive(Clone, Copy, Debug, PartialEq, Eq, Structural)]
pub enum GameError {
    /// A shop or board index lies outside its range.
    InvalidIndex,
    /// The referenced shop or board slot holds nothing.
    SlotEmpty,
    /// The roster cannot pay the cost of the purchase.
    InsufficientFunds,
    /// The board or the spell inventory is full, or an upgrade group has
    /// the wrong size.
    CapacityExceeded,
    /// An ability target is missing or illegal, or an upgrade group mixes
    /// units that cannot merge.
    InvalidTarget,
    /// The ability effect is not modelled yet; the cast fails loudly
    /// instead of silently doing nothing.
    UnimplementedEffect,
}

/// The smaller of two mathematical integers.
pub open spec fn min_int(a: int, b: int) -> int {
    if a <= b {
        a
    } else {
        b
    }
}

/// Clamps a mathematical integer into the `i32` range.
pub open spec fn clip_i32(x: int) -> int {
    if x > i32::MAX {
        i32::MAX as int
    } else if x < i32::MIN {
        i32::MIN as int
    } else {
        x
    }
}

/// Integer division by 100 that rounds toward zero, as the percentage
/// ability values are defined to do.
pub open spec fn div100_trunc(x: int) -> int {
    if x >= 0 {
        x / 100
    } else {
        -((-x) / 100)
    }
}

/// Clamps a mathematical integer into the `i16` range.
pub open spec fn clip_i16(x: int) -> int {
    if x > i16::MAX {
        i16::MAX as int
    } else if x < i16::MIN {
        i16::MIN as int
    } else {
        x
    }
}

/// Adds two `i32` values, clamping the result into the `i32` range.
pub fn sat_add_i32(a: i32, b: i32) -> (r: i32)
    ensures
        r as int == clip_i32(a + b),
{
    let wide: i64 = a as i64 + b as i64;
    clamp_to_i32(wide)
}

/// Clamps an `i64` into the `i32` range.
pub fn clamp_to_i32(x: i64) -> (r: i32)
    ensures
        r as int == clip_i32(x as int),
{
    if x > i32::MAX as i64 {
        i32::MAX
    } else if x < i32::MIN as i64 {
        i32::MIN
    } else {
        x as i32
    }
}

} // verus!
