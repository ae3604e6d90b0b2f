//! The per-pin state store.
//!
//! One record is kept for each pin of the fixed known set: GPIO lines
//! 0 through 16 and 21 through 31 (lines 17 through 20 do not exist on
//! the supported board). The store is addressed by GPIO id; every
//! operation reports an error for ids outside the known set, and no
//! operation ever adds or removes a record.

use vstd::prelude::*;
use crate::errors::RpWebError;
use crate::models::{Gpio, GpioView};

verus! {

/// The fixed set of known GPIO ids.
pub open spec fn known_gpio(id: int) -> bool {
    (0 <= id <= 16) || (21 <= id <= 31)
}

/// Position of a known GPIO id in the backing vector.
pub open spec fn gpio_index(id: int) -> int {
    if id <= 16 {
        id
    } else {
        id - 4
    }
}

/// The GPIO id stored at a position of the backing vector.
pub open spec fn index_gpio(i: int) -> int {
    if i <= 16 {
        i
    } else {
        i + 4
    }
}

/// A freshly created record: unmanaged, with no mode, level or
/// timestamp ever written.
pub open spec fn initial_pin(id: int) -> GpioView {
    GpioView { gpio_id: id, in_use: 0, gpio_mode: None, gpio_level: None, last_change: None }
}

/// A record after a reset at time `now`: unmanaged, mode and level
/// cleared to the empty string.
pub open spec fn reset_pin(id: int, now: i64) -> GpioView {
    GpioView {
        gpio_id: id,
        in_use: 0,
        gpio_mode: Some(Seq::empty()),
        gpio_level: Some(Seq::empty()),
        last_change: Some(now),
    }
}

/// The store after `reset_all` at time `now`. The result does not
/// depend on the prior contents.
pub open spec fn spec_reset_all(m: Map<int, GpioView>, now: i64) -> Map<int, GpioView> {
    Map::new(|id: int| known_gpio(id), |id: int| reset_pin(id, now))
}

/// `g` with its managed flag replaced and its timestamp refreshed.
pub open spec fn with_in_use(g: GpioView, state: int, now: i64) -> GpioView {
    GpioView { in_use: state, last_change: Some(now), ..g }
}

/// `g` with its mode replaced and its timestamp refreshed.
pub open spec fn with_mode(g: GpioView, mode: Seq<char>, now: i64) -> GpioView {
    GpioView { gpio_mode: Some(mode), last_change: Some(now), ..g }
}

/// `g` with its level replaced and its timestamp refreshed.
pub open spec fn with_level(g: GpioView, level: Seq<char>, now: i64) -> GpioView {
    GpioView { gpio_level: Some(level), last_change: Some(now), ..g }
}

/// The per-pin state store, one record per known GPIO id.
pub struct StateStore {
    pins: Vec<Gpio>,
}

impl View for StateStore {
    type V = Map<int, GpioView>;

    /// The store as a map from known GPIO id to its record.
    closed spec fn view(&self) -> Map<int, GpioView> {
        Map::new(|id: int| known_gpio(id), |id: int| self.pins@[gpio_index(id)]@)
    }
}

impl StateStore {
    /// Every known id has its record at its place in the backing vector.
    pub closed spec fn wf(&self) -> bool {
        &&& self.pins@.len() == 28
        &&& forall|i: int| 0 <= i < 28 ==> (#[trigger] self.pins@[i]@).gpio_id == index_gpio(i)
    }

    /// The id each record of a well-formed store reports for itself.
    pub proof fn lemma_view_ids(&self)
        requires
            self.wf(),
        ensures
            forall|id: int| known_gpio(id) ==> (#[trigger] self@[id]).gpio_id == id,
    {
    }

    /// The store holds exactly the known ids.
    pub proof fn lemma_dom(&self)
        ensures
            self@.dom() == Set::new(|id: int| known_gpio(id)),
    {
        assert(self@.dom() =~= Set::new(|id: int| known_gpio(id)));
    }

    /// Create the store with one fresh record per known GPIO id.
    pub fn new() -> (s: StateStore)
        ensures
            s.wf(),
            s@ == Map::new(|id: int| known_gpio(id), |id: int| initial_pin(id)),
    {
        let mut pins: Vec<Gpio> = Vec::new();
        let mut i: usize = 0;
        while i < 28
            invariant
                0 <= i <= 28,
                pins@.len() == i,
                forall|j: int| 0 <= j < i ==> #[trigger] pins@[j]@ == initial_pin(index_gpio(j)),
            decreases 28 - i,
        {
            let id: i32 = if i <= 16 {
                i as i32
            } else {
                (i as i32) + 4
            };
            pins.push(
                Gpio { gpio_id: id, in_use: 0, gpio_mode: None, gpio_level: None, last_change: None },
            );
            i = i + 1;
        }
        let s = StateStore { pins };
        proof {
            assert(s@ =~= Map::new(|id: int| known_gpio(id), |id: int| initial_pin(id)));
        }
        s
    }

    /// Whether `gpio_id` belongs to the known set.
    fn known(gpio_id: i32) -> (r: bool)
        ensures
            r == known_gpio(gpio_id as int),
    {
        (0 <= gpio_id && gpio_id <= 16) || (21 <= gpio_id && gpio_id <= 31)
    }

    /// Read one record. Known ids always succeed; any other id is not
    /// found.
    pub fn get(&self, gpio_id: i32) -> (r: Result<Gpio, RpWebError>)
        requires
            self.wf(),
        ensures
            known_gpio(gpio_id as int) ==> (r matches Ok(g) && g@ == self@[gpio_id as int]),
            !known_gpio(gpio_id as int) ==> (r matches Err(e) && e matches RpWebError::NotFound(
                _,
            )),
    {
        if Self::known(gpio_id) {
            let idx: usize = if gpio_id <= 16 {
                gpio_id as usize
            } else {
                (gpio_id - 4) as usize
            };
            Ok(self.pins[idx].clone())
        } else {
            Err(RpWebError::NotFound(String::from_str("GPIO is not configured in the state store")))
        }
    }

    /// Set the managed flag of one record and refresh its timestamp.
    /// An unknown id updates no record and reports an internal error.
    pub fn set_in_use(&mut self, gpio_id: i32, state: i32, now: i64) -> (r: Result<
        (),
        RpWebError,
    >)
        requires
            old(self).wf(),
        ensures
            final(self).wf(),
            known_gpio(gpio_id as int) ==> (r is Ok && final(self)@ == old(self)@.insert(
                gpio_id as int,
                with_in_use(old(self)@[gpio_id as int], state as int, now),
            )),
            !known_gpio(gpio_id as int) ==> (r matches Err(e) && e matches
                RpWebError::InternalError(_) && final(self)@ == old(self)@),
    {
        if Self::known(gpio_id) {
            let idx: usize = if gpio_id <= 16 {
                gpio_id as usize
            } else {
                (gpio_id - 4) as usize
            };
            let p: &mut Gpio = &mut self.pins[idx];
            p.in_use = state;
            p.last_change = Some(now);
            proof {
                assert(self@ =~= old(self)@.insert(
                    gpio_id as int,
                    with_in_use(old(self)@[gpio_id as int], state as int, now),
                ));
            }
            Ok(())
        } else {
            proof {
                assert(self@ =~= old(self)@);
            }
            Err(RpWebError::InternalError(String::from_str("update affected no stored record")))
        }
    }

    /// Set the mode of one record and refresh its timestamp. An unknown
    /// id updates no record and reports an internal error.
    pub fn set_mode(&mut self, gpio_id: i32, mode: &str, now: i64) -> (r: Result<(), RpWebError>)
        requires
            old(self).wf(),
        ensures
            final(self).wf(),
            known_gpio(gpio_id as int) ==> (r is Ok && final(self)@ == old(self)@.insert(
                gpio_id as int,
                with_mode(old(self)@[gpio_id as int], mode@, now),
            )),
            !known_gpio(gpio_id as int) ==> (r matches Err(e) && e matches
                RpWebError::InternalError(_) && final(self)@ == old(self)@),
    {
        if Self::known(gpio_id) {
            let idx: usize = if gpio_id <= 16 {
                gpio_id as usize
            } else {
                (gpio_id - 4) as usize
            };
            let p: &mut Gpio = &mut self.pins[idx];
            p.gpio_mode = Some(mode.to_owned());
            p.last_change = Some(now);
            proof {
                assert(self@ =~= old(self)@.insert(
                    gpio_id as int,
                    with_mode(old(self)@[gpio_id as int], mode@, now),
                ));
            }
            Ok(())
        } else {
            proof {
                assert(self@ =~= old(self)@);
            }
            Err(RpWebError::InternalError(String::from_str("update affected no stored record")))
        }
    }

    /// Set the level of one record and refresh its timestamp. An
    /// unknown id updates no record and reports an internal error.
    pub fn set_level(&mut self, gpio_id: i32, level: &str, now: i64) -> (r: Result<(), RpWebError>)
        requires
            old(self).wf(),
        ensures
            final(self).wf(),
            known_gpio(gpio_id as int) ==> (r is Ok && final(self)@ == old(self)@.insert(
                gpio_id as int,
                with_level(old(self)@[gpio_id as int], level@, now),
            )),
            !known_gpio(gpio_id as int) ==> (r matches Err(e) && e matches
                RpWebError::InternalError(_) && final(self)@ == old(self)@),
    {
        if Self::known(gpio_id) {
            let idx: usize = if gpio_id <= 16 {
                gpio_id as usize
            } else {
                (gpio_id - 4) as usize
            };
            let p: &mut Gpio = &mut self.pins[idx];
            p.gpio_level = Some(level.to_owned());
            p.last_change = Some(now);
            proof {
                assert(self@ =~= old(self)@.insert(
                    gpio_id as int,
                    with_level(old(self)@[gpio_id as int], level@, now),
                ));
            }
            Ok(())
        } else {
            proof {
                assert(self@ =~= old(self)@);
            }
            Err(RpWebError::InternalError(String::from_str("update affected no stored record")))
        }
    }

    /// Reset every known record: unmanaged, mode and level cleared,
    /// timestamp refreshed. The result does not depend on the prior
    /// contents, so a second reset with the same timestamp changes
    /// nothing.
    pub fn reset_all(&mut self, now: i64) -> (r: Result<(), RpWebError>)
        requires
            old(self).wf(),
        ensures
            final(self).wf(),
            r is Ok,
            final(self)@ == spec_reset_all(old(self)@, now),
    {
        let mut i: usize = 0;
        while i < 28
            invariant
                0 <= i <= 28,
                old(self).wf(),
                self.pins@.len() == 28,
                forall|j: int| 0 <= j < i ==> #[trigger] self.pins@[j]@ == reset_pin(
                    index_gpio(j),
                    now,
                ),
                forall|j: int| i <= j < 28 ==> #[trigger] self.pins@[j] == old(self).pins@[j],
            decreases 28 - i,
        {
            let p: &mut Gpio = &mut self.pins[i];
            p.in_use = 0;
            p.gpio_mode = Some(String::new());
            p.gpio_level = Some(String::new());
            p.last_change = Some(now);
            proof {
                assert(old(self).pins@[i as int]@.gpio_id == index_gpio(i as int));
                assert(self.pins@[i as int]@ == reset_pin(index_gpio(i as int), now));
            }
            i = i + 1;
        }
        proof {
            assert(self@ =~= spec_reset_all(old(self)@, now));
        }
        Ok(())
    }
}

/// Resetting the store is idempotent: the state after two consecutive
/// resets equals the state after the latest one alone, so two resets
/// with one and the same timestamp leave exactly the state of a single
/// reset.
pub proof fn lemma_reset_all_idempotent(m: Map<int, GpioView>, t1: i64, t2: i64)
    ensures
        spec_reset_all(spec_reset_all(m, t1), t2) == spec_reset_all(m, t2),
{
    assert(spec_reset_all(spec_reset_all(m, t1), t2) =~= spec_reset_all(m, t2));
}

} // verus!
