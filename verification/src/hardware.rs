//! The mutually exclusive handle to the GPIO controller.
//!
//! On non-hardware builds the controller is a plain write counter; it
//! exists to keep the interface exercised. `HardwareGate` owns the
//! handle and is only reachable through `&mut`, so writes are
//! serialized by ownership; callers sharing it across threads wrap it
//! in a lock of their own.

use vstd::prelude::*;
use crate::errors::RpWebError;
use crate::tokens::str_eq;

verus! {

/// Convert a pin id to the hardware's addressing width. Values outside
/// `0..=255` are rejected with a range error.
pub fn i32_to_u8(x: i32) -> (r: Result<u8, RpWebError>)
    ensures
        0 <= x <= 255 ==> (r matches Ok(v) && v == x as u8 && v as int == x as int),
        !(0 <= x <= 255) ==> (r matches Err(e) && e matches RpWebError::RangeError(_)),
{
    if 0 <= x && x <= 255 {
        Ok(x as u8)
    } else {
        Err(RpWebError::RangeError(String::from_str("pin id is not representable as u8")))
    }
}

/// One applied write, with the counter wrapping at its maximum.
pub open spec fn bump(c: u64) -> u64 {
    if c == u64::MAX {
        0
    } else {
        (c + 1) as u64
    }
}

/// `n` applied writes in a row.
pub open spec fn bump_n(c: u64, n: nat) -> u64
    decreases n,
{
    if n == 0 {
        c
    } else {
        bump(bump_n(c, (n - 1) as nat))
    }
}

/// The mutually exclusive accessor to the simulated controller: a
/// counter of applied writes.
pub struct HardwareGate {
    counter: u64,
}

impl HardwareGate {
    /// The number of writes applied so far.
    pub closed spec fn count(&self) -> u64 {
        self.counter
    }

    /// Acquire the controller with no writes applied yet.
    pub fn new() -> (g: HardwareGate)
        ensures
            g.count() == 0,
    {
        HardwareGate { counter: 0 }
    }

    /// Read the number of applied writes.
    pub fn writes(&self) -> (n: u64)
        ensures
            n == self.count(),
    {
        self.counter
    }

    /// Apply a level to a pin of the controller.
    ///
    /// The pin id must fit the hardware's addressing width, else a range
    /// error; the level must be exactly `"high"` or `"low"`, else an
    /// internal error — the pipeline guarantees only those two tokens
    /// reach this layer. Exactly the successful writes count.
    pub fn set_level(&mut self, gpio_id: i32, level: &str) -> (r: Result<(), RpWebError>)
        ensures
            !(0 <= gpio_id <= 255) ==> (r matches Err(e) && e matches RpWebError::RangeError(_)
                && final(self).count() == old(self).count()),
            0 <= gpio_id <= 255 && (level@ == "high"@ || level@ == "low"@) ==> (r is Ok
                && final(self).count() == bump(old(self).count())),
            0 <= gpio_id <= 255 && !(level@ == "high"@ || level@ == "low"@) ==> (r matches Err(e)
                && e matches RpWebError::InternalError(_)
                && final(self).count() == old(self).count()),
    {
        let _gpio_id_u8: u8 = match i32_to_u8(gpio_id) {
            Ok(v) => v,
            Err(e) => {
                return Err(e);
            },
        };
        if str_eq(level, "high") || str_eq(level, "low") {
            if self.counter == u64::MAX {
                self.counter = 0;
            } else {
                self.counter = self.counter + 1;
            }
            Ok(())
        } else {
            Err(RpWebError::InternalError(String::from_str("invalid level token at the hardware gate")))
        }
    }
}

} // verus!
