//! The allowed-states reference table: which mode and level tokens are
//! legal in principle, independent of any particular pin.

use vstd::prelude::*;
use crate::errors::RpWebError;
use crate::models::{AllowedStates, AllowedStatesView};
use crate::tokens::{eq_lowered, lowered_eq_seq};

verus! {

/// The row serving a state type: the last row whose `state_type` equals
/// the requested type folded to lowercase, or `None` when no row does.
pub open spec fn spec_find_row(
    rows: Seq<AllowedStatesView>,
    desired: Seq<char>,
) -> Option<AllowedStatesView>
    decreases rows.len(),
{
    if rows.len() == 0 {
        None
    } else if lowered_eq_seq(desired, rows.last().state_type) {
        Some(rows.last())
    } else {
        spec_find_row(rows.drop_last(), desired)
    }
}

/// The reference rows seeded by default: mode accepts `input` and
/// `output`; level accepts `high` and `low`.
pub open spec fn default_rows() -> Seq<AllowedStatesView> {
    seq![
        AllowedStatesView {
            state_id: 1,
            state_type: "mode"@,
            input: 1,
            output: 1,
            high: 0,
            low: 0,
        },
        AllowedStatesView {
            state_id: 2,
            state_type: "level"@,
            input: 0,
            output: 0,
            high: 1,
            low: 1,
        },
    ]
}

/// The read-only table of allowed-states rows, seeded once at startup.
pub struct AllowedStatesTable {
    rows: Vec<AllowedStates>,
}

impl View for AllowedStatesTable {
    type V = Seq<AllowedStatesView>;

    closed spec fn view(&self) -> Seq<AllowedStatesView> {
        Seq::new(self.rows@.len(), |i: int| self.rows@[i]@)
    }
}

impl Default for AllowedStatesTable {
    /// The table under the default policy.
    fn default() -> (t: Self)
        ensures
            t@ == default_rows(),
    {
        let mut rows: Vec<AllowedStates> = Vec::new();
        rows.push(
            AllowedStates {
                state_id: 1,
                state_type: String::from_str("mode"),
                input: 1,
                output: 1,
                high: 0,
                low: 0,
            },
        );
        rows.push(
            AllowedStates {
                state_id: 2,
                state_type: String::from_str("level"),
                input: 0,
                output: 0,
                high: 1,
                low: 1,
            },
        );
        let t = AllowedStatesTable { rows };
        proof {
            assert(t@ =~= default_rows());
        }
        t
    }
}

impl AllowedStatesTable {
    /// Build the table from explicit rows.
    pub fn from_rows(rows: Vec<AllowedStates>) -> (t: Self)
        ensures
            t@ == Seq::new(rows@.len(), |i: int| rows@[i]@),
    {
        AllowedStatesTable { rows }
    }

    /// Fetch the reference row for a state type, folded to lowercase.
    /// Fails as not found when no row serves the type.
    pub fn get_allowed(&self, desired_type: &str) -> (r: Result<AllowedStates, RpWebError>)
        ensures
            match spec_find_row(self@, desired_type@) {
                Some(row) => r matches Ok(a) && a@ == row,
                None => r matches Err(e) && e matches RpWebError::NotFound(_),
            },
    {
        let mut i: usize = self.rows.len();
        proof {
            assert(self@.take(i as int) =~= self@);
        }
        while i > 0
            invariant
                0 <= i <= self.rows@.len(),
                spec_find_row(self@.take(i as int), desired_type@) == spec_find_row(
                    self@,
                    desired_type@,
                ),
            decreases i,
        {
            let j: usize = i - 1;
            if eq_lowered(desired_type, self.rows[j].state_type.as_str()) {
                proof {
                    assert(self@.take(i as int).last() == self@[j as int]);
                    assert(spec_find_row(self@.take(i as int), desired_type@) == Some(
                        self@[j as int],
                    ));
                }
                return Ok(self.rows[j].clone());
            }
            proof {
                assert(self@.take(i as int).drop_last() =~= self@.take(j as int));
            }
            i = j;
        }
        Err(RpWebError::NotFound(String::from_str("state_type not found")))
    }

    /// Fetch the reference row for a state type as a token-to-legality
    /// map. Succeeds exactly when a row serves the type.
    pub fn get_allowed_states(&self, desired_type: &str) -> (r: Result<
        std::collections::HashMap<&'static str, bool>,
        RpWebError,
    >)
        ensures
            r is Ok <==> spec_find_row(self@, desired_type@) is Some,
    {
        match self.get_allowed(desired_type) {
            Ok(row) => Ok(row.to_hashmap()),
            Err(e) => Err(e),
        }
    }
}

} // verus!
