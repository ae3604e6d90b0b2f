//! The two persisted record types: per-pin state and the allowed-states
//! reference rows.

use vstd::prelude::*;
use std::collections::HashMap;
use crate::tokens::lowered_eq_seq;

verus! {

/// Mathematical image of a [`Gpio`] record.
pub ghost struct GpioView {
    pub gpio_id: int,
    pub in_use: int,
    pub gpio_mode: Option<Seq<char>>,
    pub gpio_level: Option<Seq<char>>,
    pub last_change: Option<i64>,
}

/// One per-pin state record: whether the pin is managed, its declared
/// direction, its last requested level, and when it last changed.
///
/// `gpio_mode` and `gpio_level` are `None` until first written; a reset
/// leaves them holding the empty string. `in_use` is the stored flag,
/// `1` meaning managed. `last_change` is a second count since the Unix
/// epoch, absent until the record is first written.
#[derive(Debug)]
pub struct Gpio {
    pub gpio_id: i32,
    pub in_use: i32,
    pub gpio_mode: Option<String>,
    pub gpio_level: Option<String>,
    pub last_change: Option<i64>,
}

impl View for Gpio {
    type V = GpioView;

    open spec fn view(&self) -> GpioView {
        GpioView {
            gpio_id: self.gpio_id as int,
            in_use: self.in_use as int,
            gpio_mode: match self.gpio_mode {
                Some(m) => Some(m@),
                None => None,
            },
            gpio_level: match self.gpio_level {
                Some(l) => Some(l@),
                None => None,
            },
            last_change: self.last_change,
        }
    }
}

/// Duplicate an optional string, preserving its contents.
fn clone_opt_string(o: &Option<String>) -> (r: Option<String>)
    ensures
        match *o {
            Some(s) => r matches Some(t) && t@ == s@,
            None => r is None,
        },
{
    match o {
        Some(s) => Some(s.clone()),
        None => None,
    }
}

impl Clone for Gpio {
    fn clone(&self) -> (r: Self)
        ensures
            r@ == self@,
    {
        Gpio {
            gpio_id: self.gpio_id,
            in_use: self.in_use,
            gpio_mode: clone_opt_string(&self.gpio_mode),
            gpio_level: clone_opt_string(&self.gpio_level),
            last_change: self.last_change,
        }
    }
}

/// Mathematical image of an [`AllowedStates`] row.
pub ghost struct AllowedStatesView {
    pub state_id: int,
    pub state_type: Seq<char>,
    pub input: int,
    pub output: int,
    pub high: int,
    pub low: int,
}

/// One reference row declaring which of the four tokens are legal for a
/// state type (`"mode"` or `"level"`). A field holding `1` marks its
/// token legal.
#[derive(Debug)]
pub struct AllowedStates {
    pub state_id: i32,
    pub state_type: String,
    pub input: i32,
    pub output: i32,
    pub high: i32,
    pub low: i32,
}

impl View for AllowedStates {
    type V = AllowedStatesView;

    open spec fn view(&self) -> AllowedStatesView {
        AllowedStatesView {
            state_id: self.state_id as int,
            state_type: self.state_type@,
            input: self.input as int,
            output: self.output as int,
            high: self.high as int,
            low: self.low as int,
        }
    }
}

impl Clone for AllowedStates {
    fn clone(&self) -> (r: Self)
        ensures
            r@ == self@,
    {
        AllowedStates {
            state_id: self.state_id,
            state_type: self.state_type.clone(),
            input: self.input,
            output: self.output,
            high: self.high,
            low: self.low,
        }
    }
}

/// What a row answers for a token, after the token is folded to
/// lowercase: `None` for an unrecognized token, otherwise whether the
/// row marks the token legal.
pub open spec fn spec_token_allowed(a: AllowedStatesView, token: Seq<char>) -> Option<bool> {
    if lowered_eq_seq(token, "input"@) {
        Some(a.input == 1)
    } else if lowered_eq_seq(token, "output"@) {
        Some(a.output == 1)
    } else if lowered_eq_seq(token, "high"@) {
        Some(a.high == 1)
    } else if lowered_eq_seq(token, "low"@) {
        Some(a.low == 1)
    } else {
        None
    }
}

impl AllowedStates {
    /// The row as a token-to-legality map.
    ///
    /// The map is handed to unverified callers for display; verified
    /// lookups go through [`AllowedStates::token_allowed`], whose result
    /// is pinned down exactly.
    pub fn to_hashmap(&self) -> HashMap<&'static str, bool> {
        let mut hashed: HashMap<&'static str, bool> = HashMap::new();
        hashed.insert("input", self.input == 1);
        hashed.insert("output", self.output == 1);
        hashed.insert("high", self.high == 1);
        hashed.insert("low", self.low == 1);
        hashed
    }

    /// Look up a token, folded to lowercase, in this row.
    pub fn token_allowed(&self, token: &str) -> (r: Option<bool>)
        ensures
            r == spec_token_allowed(self@, token@),
    {
        if crate::tokens::eq_lowered(token, "input") {
            Some(self.input == 1)
        } else if crate::tokens::eq_lowered(token, "output") {
            Some(self.output == 1)
        } else if crate::tokens::eq_lowered(token, "high") {
            Some(self.high == 1)
        } else if crate::tokens::eq_lowered(token, "low") {
            Some(self.low == 1)
        } else {
            None
        }
    }
}

} // verus!
