//! The level-change request pipeline.
//!
//! Each request runs load, use-check, mode-check and level-legality in
//! that order, then applies the change to the hardware gate and commits
//! the updated record to the store. The ordering is load-bearing: no
//! hardware write is attempted for a pin that is not in use or not
//! configured as output, and token legality is settled before any side
//! effect.

use vstd::prelude::*;
use crate::allowed::{default_rows, spec_find_row, AllowedStatesTable};
use crate::clock::now_timestamp;
use crate::errors::RpWebError;
use crate::hardware::{bump, HardwareGate};
use crate::models::{spec_token_allowed, AllowedStatesView, Gpio, GpioView};
use crate::store::{initial_pin, known_gpio, with_level, StateStore};
use crate::tokens::{eq_lowered, lemma_level_literals_lowered, lowered_eq_seq, str_eq};

verus! {

/// How a level-change request is decided, in the pipeline's fixed check
/// order. The first failing check names the outcome.
pub ghost enum LevelDecision {
    /// The pin id is outside the known set.
    UnknownPin,
    /// The pin is not managed by the service.
    NotInUse,
    /// The pin is not configured as output.
    WrongMode,
    /// No reference row serves the `level` state type.
    MissingReference,
    /// The token is not one the reference row knows.
    UnknownToken,
    /// The token is known and disallowed by policy.
    DisallowedToken,
    /// The token is allowed by policy but is no level the hardware
    /// layer takes; only `high` and `low` may reach it.
    HardwareInvalid,
    /// The change may be applied.
    Permit,
}

/// Decide a request from the store contents, the reference rows, the
/// pin id and the requested level token.
pub open spec fn decide_set_level(
    m: Map<int, GpioView>,
    rows: Seq<AllowedStatesView>,
    id: int,
    level: Seq<char>,
) -> LevelDecision {
    if !known_gpio(id) {
        LevelDecision::UnknownPin
    } else if m[id].in_use != 1 {
        LevelDecision::NotInUse
    } else if m[id].gpio_mode != Some("output"@) {
        LevelDecision::WrongMode
    } else {
        match spec_find_row(rows, "level"@) {
            None => LevelDecision::MissingReference,
            Some(row) => match spec_token_allowed(row, level) {
                None => LevelDecision::UnknownToken,
                Some(false) => LevelDecision::DisallowedToken,
                Some(true) => if lowered_eq_seq(level, "high"@) || lowered_eq_seq(
                    level,
                    "low"@,
                ) {
                    LevelDecision::Permit
                } else {
                    LevelDecision::HardwareInvalid
                },
            },
        }
    }
}

/// The canonical lowercase token of a permitted level request.
pub open spec fn canonical_level(level: Seq<char>) -> Seq<char> {
    if lowered_eq_seq(level, "high"@) {
        "high"@
    } else {
        "low"@
    }
}

/// The pipeline over its three collaborators: the per-pin store, the
/// allowed-states table and the hardware gate.
pub struct RequestPipeline {
    pub store: StateStore,
    pub allowed: AllowedStatesTable,
    pub gate: HardwareGate,
}

impl RequestPipeline {
    /// The pipeline's store is well-formed.
    pub open spec fn wf(&self) -> bool {
        self.store.wf()
    }

    /// A pipeline over a fresh store, the default policy and a fresh
    /// gate.
    pub fn new() -> (p: RequestPipeline)
        ensures
            p.wf(),
            p.store@ == Map::new(|id: int| known_gpio(id), |id: int| initial_pin(id)),
            p.allowed@ == default_rows(),
            p.gate.count() == 0,
    {
        RequestPipeline {
            store: StateStore::new(),
            allowed: AllowedStatesTable::default(),
            gate: HardwareGate::new(),
        }
    }

    /// Report the stored record of a pin; unknown ids are not found.
    pub fn get_status(&self, gpio_id: i32) -> (r: Result<Gpio, RpWebError>)
        requires
            self.wf(),
        ensures
            known_gpio(gpio_id as int) ==> (r matches Ok(g) && g@ == self.store@[gpio_id as int]),
            !known_gpio(gpio_id as int) ==> (r matches Err(e) && e matches RpWebError::NotFound(
                _,
            )),
    {
        self.store.get(gpio_id)
    }

    /// Run the checks of a level-change request without any side
    /// effect: load, use-check, mode-check, then level legality against
    /// the reference row. Returns the record as read when every check
    /// passes.
    pub fn check_set_level(&self, gpio_id: i32, gpio_level: &str) -> (r: Result<Gpio, RpWebError>)
        requires
            self.wf(),
        ensures
            match decide_set_level(self.store@, self.allowed@, gpio_id as int, gpio_level@) {
                LevelDecision::UnknownPin => (r matches Err(e) && e matches RpWebError::NotFound(
                    _,
                )),
                LevelDecision::NotInUse => (r matches Err(e) && e matches RpWebError::Forbidden(
                    _,
                )),
                LevelDecision::WrongMode => (r matches Err(e) && e matches RpWebError::Forbidden(
                    _,
                )),
                LevelDecision::MissingReference => (r matches Err(e) && e matches
                    RpWebError::NotFound(_)),
                LevelDecision::UnknownToken => (r matches Err(e) && e matches RpWebError::NotFound(
                    _,
                )),
                LevelDecision::DisallowedToken => (r matches Err(e) && e matches
                    RpWebError::Forbidden(_)),
                LevelDecision::HardwareInvalid => (r matches Ok(g) && g@ == self.store@[gpio_id
                    as int]),
                LevelDecision::Permit => (r matches Ok(g) && g@ == self.store@[gpio_id as int]),
            },
    {
        let gpio_before = match self.store.get(gpio_id) {
            Ok(g) => g,
            Err(e) => {
                return Err(e);
            },
        };
        if gpio_before.in_use != 1 {
            return Err(RpWebError::Forbidden(String::from_str("GPIO is not in use")));
        }
        let mode_ok: bool = match &gpio_before.gpio_mode {
            Some(m) => str_eq(m.as_str(), "output"),
            None => false,
        };
        if !mode_ok {
            return Err(
                RpWebError::Forbidden(String::from_str("level is not allowed for this mode")),
            );
        }
        let row = match self.allowed.get_allowed("level") {
            Ok(row) => row,
            Err(e) => {
                return Err(e);
            },
        };
        match row.token_allowed(gpio_level) {
            None => Err(
                RpWebError::NotFound(String::from_str("level is not a recognized GPIO state")),
            ),
            Some(false) => Err(RpWebError::Forbidden(String::from_str("state not allowed"))),
            Some(true) => Ok(gpio_before),
        }
    }

    /// Run a full level-change request with an explicit timestamp:
    /// checks, hardware write, commit, and a re-read of the record as
    /// the response. On any failure nothing is persisted and the
    /// hardware is untouched.
    pub fn set_level_at(&mut self, gpio_id: i32, gpio_level: &str, now: i64) -> (r: Result<
        Gpio,
        RpWebError,
    >)
        requires
            old(self).wf(),
        ensures
            final(self).wf(),
            final(self).allowed == old(self).allowed,
            decide_set_level(old(self).store@, old(self).allowed@, gpio_id as int, gpio_level@)
                is Permit ==> (r matches Ok(g)
                && final(self).store@ == old(self).store@.insert(gpio_id as int, with_level(old(self).store@[gpio_id as int], canonical_level(gpio_level@), now))
                && g@ == final(self).store@[gpio_id as int]
                && final(self).gate.count() == bump(old(self).gate.count())),
            !(decide_set_level(old(self).store@, old(self).allowed@, gpio_id as int, gpio_level@)
                is Permit) ==> (final(self).store@ == old(self).store@
                && final(self).gate.count() == old(self).gate.count()),
            match decide_set_level(old(self).store@, old(self).allowed@, gpio_id as int, gpio_level@) {
                LevelDecision::Permit => r is Ok,
                LevelDecision::HardwareInvalid => (r matches Err(e) && e matches RpWebError::InternalError(_)),
                LevelDecision::UnknownPin => (r matches Err(e) && e matches RpWebError::NotFound(_)),
                LevelDecision::NotInUse => (r matches Err(e) && e matches RpWebError::Forbidden(_)),
                LevelDecision::WrongMode => (r matches Err(e) && e matches RpWebError::Forbidden(_)),
                LevelDecision::MissingReference => (r matches Err(e) && e matches RpWebError::NotFound(_)),
                LevelDecision::UnknownToken => (r matches Err(e) && e matches RpWebError::NotFound(_)),
                LevelDecision::DisallowedToken => (r matches Err(e) && e matches RpWebError::Forbidden(_)),
            },
    {
        let gpio_before = match self.store.get(gpio_id) {
            Ok(g) => g,
            Err(e) => {
                return Err(e);
            },
        };
        if gpio_before.in_use != 1 {
            return Err(RpWebError::Forbidden(String::from_str("GPIO is not in use")));
        }
        let mode_ok: bool = match &gpio_before.gpio_mode {
            Some(m) => str_eq(m.as_str(), "output"),
            None => false,
        };
        if !mode_ok {
            return Err(
                RpWebError::Forbidden(String::from_str("level is not allowed for this mode")),
            );
        }
        let row = match self.allowed.get_allowed("level") {
            Ok(row) => row,
            Err(e) => {
                return Err(e);
            },
        };
        let allowed_flag: bool = match row.token_allowed(gpio_level) {
            None => {
                return Err(
                    RpWebError::NotFound(String::from_str("level is not a recognized GPIO state")),
                );
            },
            Some(f) => f,
        };
        if !allowed_flag {
            return Err(RpWebError::Forbidden(String::from_str("state not allowed")));
        }
        let canon: &str = if eq_lowered(gpio_level, "high") {
            "high"
        } else if eq_lowered(gpio_level, "low") {
            "low"
        } else {
            gpio_level
        };
        proof {
            lemma_level_literals_lowered();
        }
        match self.gate.set_level(gpio_id, canon) {
            Ok(_) => (),
            Err(e) => {
                return Err(e);
            },
        };
        match self.store.set_level(gpio_id, canon, now) {
            Ok(_) => (),
            Err(e) => {
                return Err(e);
            },
        };
        self.store.get(gpio_id)
    }

    /// Run a full level-change request, stamping the change with the
    /// current wall-clock time.
    pub fn set_level(&mut self, gpio_id: i32, gpio_level: &str) -> (r: Result<Gpio, RpWebError>)
        requires
            old(self).wf(),
        ensures
            final(self).wf(),
            final(self).allowed == old(self).allowed,
            decide_set_level(old(self).store@, old(self).allowed@, gpio_id as int, gpio_level@)
                is Permit ==> (r matches Ok(g)
                && (exists|now: i64|
                    #![auto]
                    now >= 0 && final(self).store@ == old(self).store@.insert(gpio_id as int, with_level(old(self).store@[gpio_id as int], canonical_level(gpio_level@), now)))
                && g@ == final(self).store@[gpio_id as int]
                && final(self).gate.count() == bump(old(self).gate.count())),
            !(decide_set_level(old(self).store@, old(self).allowed@, gpio_id as int, gpio_level@)
                is Permit) ==> (final(self).store@ == old(self).store@
                && final(self).gate.count() == old(self).gate.count()),
            match decide_set_level(old(self).store@, old(self).allowed@, gpio_id as int, gpio_level@) {
                LevelDecision::Permit => r is Ok,
                LevelDecision::HardwareInvalid => (r matches Err(e) && e matches RpWebError::InternalError(_)),
                LevelDecision::UnknownPin => (r matches Err(e) && e matches RpWebError::NotFound(_)),
                LevelDecision::NotInUse => (r matches Err(e) && e matches RpWebError::Forbidden(_)),
                LevelDecision::WrongMode => (r matches Err(e) && e matches RpWebError::Forbidden(_)),
                LevelDecision::MissingReference => (r matches Err(e) && e matches RpWebError::NotFound(_)),
                LevelDecision::UnknownToken => (r matches Err(e) && e matches RpWebError::NotFound(_)),
                LevelDecision::DisallowedToken => (r matches Err(e) && e matches RpWebError::Forbidden(_)),
            },
    {
        let now = now_timestamp();
        self.set_level_at(gpio_id, gpio_level, now)
    }

    /// Persist a level token for a pin, stamping the change with the
    /// current wall-clock time, and re-read the record as the response.
    /// For callers that drive a physical controller of their own: run
    /// [`Self::check_set_level`] first, apply the hardware write, then
    /// commit. An unknown pin commits nothing and reports an internal
    /// error.
    pub fn commit_level(&mut self, gpio_id: i32, gpio_level: &str) -> (r: Result<Gpio, RpWebError>)
        requires
            old(self).wf(),
        ensures
            final(self).wf(),
            final(self).allowed == old(self).allowed,
            final(self).gate.count() == old(self).gate.count(),
            known_gpio(gpio_id as int) ==> (r matches Ok(g) && g@ == final(self).store@[gpio_id
                as int] && (exists|now: i64|
                #![auto]
                now >= 0 && final(self).store@ == old(self).store@.insert(
                    gpio_id as int,
                    with_level(old(self).store@[gpio_id as int], gpio_level@, now),
                ))),
            !known_gpio(gpio_id as int) ==> (r matches Err(e) && e matches
                RpWebError::InternalError(_) && final(self).store@ == old(self).store@),
    {
        let now = now_timestamp();
        match self.store.set_level(gpio_id, gpio_level, now) {
            Ok(_) => (),
            Err(e) => {
                return Err(e);
            },
        };
        self.store.get(gpio_id)
    }
}

/// A pin that is not in use is refused, whatever the requested token
/// and whatever the reference table holds: the decision is `NotInUse`,
/// which the pipeline reports as forbidden with no side effect.
pub proof fn lemma_not_in_use_always_forbidden(
    m: Map<int, GpioView>,
    rows: Seq<AllowedStatesView>,
    id: int,
    level: Seq<char>,
)
    requires
        known_gpio(id),
        m[id].in_use != 1,
    ensures
        decide_set_level(m, rows, id, level) == LevelDecision::NotInUse,
{
}

/// A token the reference row does not know, requested for an in-use
/// output pin, is reported as not found: the decision is
/// `UnknownToken`.
pub proof fn lemma_unknown_token_not_found(
    m: Map<int, GpioView>,
    rows: Seq<AllowedStatesView>,
    id: int,
    level: Seq<char>,
)
    requires
        known_gpio(id),
        m[id].in_use == 1,
        m[id].gpio_mode == Some("output"@),
        spec_find_row(rows, "level"@) is Some,
        !lowered_eq_seq(level, "input"@),
        !lowered_eq_seq(level, "output"@),
        !lowered_eq_seq(level, "high"@),
        !lowered_eq_seq(level, "low"@),
    ensures
        decide_set_level(m, rows, id, level) == LevelDecision::UnknownToken,
{
}

/// Round trip: a permitted level change leaves the record reporting the
/// canonical form of the requested level, and a timestamp that is not
/// earlier than the pre-change one whenever the clock did not move
/// backwards.
pub proof fn lemma_set_level_round_trip(
    m: Map<int, GpioView>,
    rows: Seq<AllowedStatesView>,
    id: int,
    level: Seq<char>,
    now: i64,
    prev: i64,
)
    requires
        decide_set_level(m, rows, id, level) == LevelDecision::Permit,
        m[id].last_change == Some(prev),
        prev <= now,
    ensures
        with_level(m[id], canonical_level(level), now).gpio_level == Some(canonical_level(level)),
        lowered_eq_seq(level, canonical_level(level)),
        with_level(m[id], canonical_level(level), now).last_change matches Some(t) && prev <= t,
{
}

} // verus!
