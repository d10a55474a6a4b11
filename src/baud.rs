//! Choice of a serial baud rate from the replies seen at each candidate rate.
use crate::error::ManagerError;
use std::collections::HashMap;
use vstd::prelude::*;
use vstd::std_specs::hash::*;
use vstd::std_specs::iter::IteratorSpec;

verus! {

broadcast use group_hash_axioms;

/// Requests sent at each candidate rate.
pub const BAUDRATE_CHECK_MESSAGES: usize = 10;

/// The tally of replies at one baud rate.
#[derive(Clone, Copy, Debug, PartialEq, Eq, Structural)]
pub struct BaudrateCheckResult {
    pub messages_received: usize,
    pub parser_errors: usize,
}

/// The candidate rates, tried from the highest down.
pub open spec fn spec_baud_rates() -> Seq<u32> {
    seq![2500000u32, 2000000, 1843200, 921600, 460800, 230400, 115200, 9600]
}

/// The candidate rates, from the highest down.
pub fn baud_rate_candidates() -> (r: Vec<u32>)
    ensures
        r@ == spec_baud_rates(),
{
    let r: Vec<u32> = vec![2500000u32, 2000000, 1843200, 921600, 460800, 230400, 115200, 9600];
    assert(r@ =~= spec_baud_rates());
    r
}

/// `(r1, a)` ranks at least as high as `(r2, b)`: more messages, then fewer
/// errors, then the higher rate.
pub open spec fn spec_ranks_at_least(r1: u32, a: BaudrateCheckResult, r2: u32, b: BaudrateCheckResult) -> bool {
    a.messages_received > b.messages_received || (a.messages_received == b.messages_received && (
    a.parser_errors < b.parser_errors || (a.parser_errors == b.parser_errors && r1 >= r2)))
}

/// `best` is the rate that ranks highest among those of `m` that received
/// at least one message.
pub open spec fn spec_is_best(m: Map<u32, BaudrateCheckResult>, best: u32) -> bool {
    &&& m.contains_key(best)
    &&& m[best].messages_received > 0
    &&& forall|r: u32|
        #[trigger] m.contains_key(r) && m[r].messages_received > 0 ==> spec_ranks_at_least(
            best,
            m[best],
            r,
            m[r],
        )
}

impl BaudrateCheckResult {
    /// A tally with nothing counted.
    pub fn new() -> (r: BaudrateCheckResult)
        ensures
            r.messages_received == 0,
            r.parser_errors == 0,
    {
        BaudrateCheckResult { messages_received: 0, parser_errors: 0 }
    }

    /// Counts one request: a reply, or an error or timeout.
    pub fn record(&mut self, replied: bool)
        requires
            old(self).messages_received < usize::MAX,
            old(self).parser_errors < usize::MAX,
        ensures
            replied ==> *final(self) == (BaudrateCheckResult {
                messages_received: (old(self).messages_received + 1) as usize,
                parser_errors: old(self).parser_errors,
            }),
            !replied ==> *final(self) == (BaudrateCheckResult {
                messages_received: old(self).messages_received,
                parser_errors: (old(self).parser_errors + 1) as usize,
            }),
    {
        if replied {
            self.messages_received = self.messages_received + 1;
        } else {
            self.parser_errors = self.parser_errors + 1;
        }
    }

    /// Every request was answered and none failed: no other rate can do better.
    pub fn is_flawless(&self) -> (r: bool)
        ensures
            r == (self.messages_received == BAUDRATE_CHECK_MESSAGES && self.parser_errors == 0),
    {
        self.messages_received == BAUDRATE_CHECK_MESSAGES && self.parser_errors == 0
    }
}

fn ranks_at_least(r1: u32, a: &BaudrateCheckResult, r2: u32, b: &BaudrateCheckResult) -> (r: bool)
    ensures
        r == spec_ranks_at_least(r1, *a, r2, *b),
{
    if a.messages_received != b.messages_received {
        a.messages_received > b.messages_received
    } else if a.parser_errors != b.parser_errors {
        a.parser_errors < b.parser_errors
    } else {
        r1 >= r2
    }
}

/// Selects the best rate among those that received at least one message:
/// most messages, then fewest errors, then the highest rate. `None` when no
/// rate received any message.
pub fn select_best_baudrate(results: HashMap<u32, BaudrateCheckResult>) -> (r: Option<u32>)
    ensures
        r is None <==> (forall|k: u32| #[trigger]
            results@.contains_key(k) ==> results@[k].messages_received == 0),
        r matches Some(best) ==> spec_is_best(results@, best),
{
    let mut best: Option<(u32, BaudrateCheckResult)> = None;
    for entry in it: results.iter()
        invariant
            it.seq() == spec_hash_map_iter(&results).remaining(),
            best is None <==> (forall|j: int|
                0 <= j < it.index() ==> (*#[trigger] it.seq()[j].1).messages_received == 0),
            best matches Some(b) ==> {
                &&& results@.contains_key(b.0)
                &&& results@[b.0] == b.1
                &&& b.1.messages_received > 0
                &&& forall|j: int|
                    0 <= j < it.index() && (*#[trigger] it.seq()[j].1).messages_received > 0
                        ==> spec_ranks_at_least(b.0, b.1, *it.seq()[j].0, *it.seq()[j].1)
            },
    {
        let (rate, result) = entry;
        if result.messages_received > 0 {
            let replace = match best {
                None => true,
                Some((b_rate, b_result)) => !ranks_at_least(b_rate, &b_result, *rate, result),
            };
            if replace {
                best = Some((*rate, *result));
            }
        }
    }
    proof {
        let v = spec_hash_map_iter(&results).remaining();
        assert forall|k: u32| #[trigger] results@.contains_key(k) implies exists|j: int|
            0 <= j < v.len() && *v[j].0 == k && *v[j].1 == results@[k] by {
            assert(v.contains((&k, &results@[k])));
        }
    }
    match best {
        None => None,
        Some((rate, _)) => Some(rate),
    }
}

/// A check that answered every request without an error.
pub open spec fn spec_is_flawless(outcome: Option<BaudrateCheckResult>) -> bool {
    outcome matches Some(t) && t.messages_received == BAUDRATE_CHECK_MESSAGES && t.parser_errors == 0
}

/// A check that received at least one message.
pub open spec fn spec_is_kept(outcome: Option<BaudrateCheckResult>) -> bool {
    outcome matches Some(t) && t.messages_received > 0
}

/// The state of a baud rate search on one port: the tallies kept so far.
pub struct BaudrateSearch {
    pub results: HashMap<u32, BaudrateCheckResult>,
}

impl BaudrateSearch {
    pub fn new() -> (r: BaudrateSearch)
        ensures
            r.results@ == Map::<u32, BaudrateCheckResult>::empty(),
    {
        BaudrateSearch { results: HashMap::new() }
    }

    /// Takes the tally seen at `rate` (`None` when the check failed or timed
    /// out). Returns `Some(rate)` when the tally is flawless: the search ends
    /// there. Otherwise a tally with at least one message is kept.
    pub fn record(&mut self, rate: u32, outcome: Option<BaudrateCheckResult>) -> (r: Option<u32>)
        ensures
            spec_is_flawless(outcome) ==> r == Some(rate) && final(self).results@ == old(self).results@,
            !spec_is_flawless(outcome) ==> r is None,
            !spec_is_flawless(outcome) && spec_is_kept(outcome) ==> final(self).results@ == old(self).results@.insert(rate, outcome->0),
            !spec_is_flawless(outcome) && !spec_is_kept(outcome) ==> final(self).results@ == old(self).results@,
    {
        match outcome {
            Some(t) => {
                if t.is_flawless() {
                    Some(rate)
                } else {
                    if t.messages_received > 0 {
                        self.results.insert(rate, t);
                    }
                    None
                }
            },
            None => None,
        }
    }

    /// Ends the search after the last candidate: the best kept rate, or an
    /// error when no rate received any message.
    pub fn finish(self) -> (r: Result<u32, ManagerError>)
        ensures
            r is Err <==> (forall|k: u32| #[trigger]
                self.results@.contains_key(k) ==> self.results@[k].messages_received == 0),
            r matches Ok(best) ==> spec_is_best(self.results@, best),
    {
        match select_best_baudrate(self.results) {
            Some(rate) => Ok(rate),
            None => Err(
                ManagerError::Other(
                    String::from_str(
                        "auto_detect_baudrate: Failed to auto-detect baud rate: No successful communication at any baudrate",
                    ),
                ),
            ),
        }
    }
}

} // verus!
