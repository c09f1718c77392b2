//! The student's simulation attempts: how many are spent, how many the
//! project allows, and when a new simulation may start.

use vstd::prelude::*;
use vstd::string::*;
use crate::numeral::{dec_int, fmt_i64};
use crate::text::{is_blank, is_blank_str};

verus! {

/// The limit that stands for "no limit".
pub const UNLIMITED: i64 = -1;

/// Attempts spent and the project's limit (`UNLIMITED` for none).
#[derive(Clone, Copy, Debug, PartialEq, Eq, Structural)]
pub struct AttemptsState {
    pub spent: i64,
    pub limit: i64,
}

impl AttemptsState {
    /// No attempt may be added: there is a limit and it has been reached.
    pub open spec fn reached(self) -> bool {
        self.limit != UNLIMITED && self.spent >= self.limit
    }

    /// Whether the limit has been reached.
    pub fn is_limit_reached(&self) -> (b: bool)
        ensures
            b == self.reached(),
    {
        self.limit != UNLIMITED && self.spent >= self.limit
    }

    /// Counts one more spent attempt, once the server has run a simulation.
    pub fn record_attempt(&mut self)
        requires
            old(self).spent < i64::MAX,
        ensures
            final(self).spent == old(self).spent + 1,
            final(self).limit == old(self).limit,
    {
        self.spent = self.spent + 1;
    }

    /// How the limit is shown: `∞` when there is none.
    pub fn limit_label(&self) -> (r: String)
        ensures
            self.limit == UNLIMITED ==> r@ == "∞"@,
            self.limit != UNLIMITED ==> r@ == dec_int(self.limit as int),
    {
        if self.limit == UNLIMITED {
            String::from_str("∞")
        } else {
            fmt_i64(self.limit)
        }
    }
}

/// Once the limit is reached, recording attempts keeps it reached; without a
/// limit it is never reached.
pub proof fn lemma_limit_stays_reached(a: AttemptsState)
    requires
        a.spent < i64::MAX,
    ensures
        a.reached() ==> (AttemptsState { spent: (a.spent + 1) as i64, limit: a.limit }).reached(),
        a.limit == UNLIMITED ==> !a.reached(),
{
}

/// Every field of the measuring form holds something other than white space.
pub fn is_form_complete(fields: &Vec<String>) -> (b: bool)
    ensures
        b == (forall|i: int| 0 <= i < fields@.len() ==> !is_blank(#[trigger] fields@[i]@)),
{
    let mut i: usize = 0;
    while i < fields.len()
        invariant
            i <= fields@.len(),
            forall|k: int| 0 <= k < i ==> !is_blank(#[trigger] fields@[k]@),
        decreases fields@.len() - i,
    {
        if is_blank_str(fields[i].as_str()) {
            return false;
        }
        i = i + 1;
    }
    true
}

/// A simulation cannot start while the form is incomplete, a request is
/// running, or no attempts are left.
pub fn is_simulation_disabled(form_complete: bool, loading: bool, attempts: &AttemptsState) -> (b: bool)
    ensures
        b == (!form_complete || loading || attempts.reached()),
{
    !form_complete || loading || attempts.is_limit_reached()
}

/// The attempt that `Iterator::max_by_key` picks by attempt number: one
/// with the greatest number, the last of them when several share it.
pub open spec fn is_latest(numbers: Seq<i64>, i: int) -> bool {
    &&& 0 <= i < numbers.len()
    &&& forall|k: int| 0 <= k < numbers.len() ==> #[trigger] numbers[k] <= numbers[i]
    &&& forall|k: int| i < k < numbers.len() ==> #[trigger] numbers[k] < numbers[i]
}

/// The position of the latest attempt in the history, given the attempts'
/// numbers in the history's order; `None` for an empty history.
pub fn latest_attempt(numbers: &Vec<i64>) -> (r: Option<usize>)
    ensures
        match r {
            Some(i) => is_latest(numbers@, i as int),
            None => numbers@.len() == 0,
        },
{
    if numbers.len() == 0 {
        return None;
    }
    let mut best: usize = 0;
    let mut i: usize = 1;
    while i < numbers.len()
        invariant
            1 <= i <= numbers@.len(),
            best < i,
            forall|k: int| 0 <= k < i ==> #[trigger] numbers@[k] <= numbers@[best as int],
            forall|k: int| best < k < i ==> #[trigger] numbers@[k] < numbers@[best as int],
        decreases numbers@.len() - i,
    {
        if numbers[i] >= numbers[best] {
            best = i;
        }
        i = i + 1;
    }
    Some(best)
}

/// The number that the attempt just run takes: one more than the history holds.
pub fn next_attempt_number(history_len: usize) -> (n: i64)
    requires
        history_len < i64::MAX,
    ensures
        n == history_len + 1,
{
    let n = history_len as i64;
    n + 1
}

} // verus!
