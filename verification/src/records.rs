//! Persistent expedition statistics and the recent-run history log.

use vstd::prelude::*;

verus! {

/// The most recent expeditions kept in the run-history log.
pub const RUN_HISTORY_CAP: usize = 8;

/// A single finished expedition's outcome, for the history log.
#[derive(Debug, Clone)]
pub struct ExpeditionRunSummary {
    pub seed_code: String,
    pub seeded: bool,
    pub legs_cleared: u32,
    pub banked: i64,
    pub won: bool,
}

/// Persistent expedition statistics and recent-run history (Records screen).
#[derive(Debug, Clone)]
pub struct ExpeditionRecords {
    /// Expeditions ever started.
    pub runs_started: u32,
    /// Expeditions run to full completion.
    pub wins: u32,
    /// Most legs cleared in a single run.
    pub best_legs: u32,
    /// Most gold banked from a single run.
    pub best_banked: i64,
    /// Legs cleared across all runs.
    pub total_legs: u32,
    /// Most recent runs, newest first, at most `RUN_HISTORY_CAP` of them.
    pub history: Vec<ExpeditionRunSummary>,
}

impl Default for ExpeditionRecords {
    fn default() -> (r: Self)
        ensures
            r.runs_started == 0,
            r.wins == 0,
            r.best_legs == 0,
            r.best_banked == 0,
            r.total_legs == 0,
            r.history@.len() == 0,
    {
        ExpeditionRecords {
            runs_started: 0,
            wins: 0,
            best_legs: 0,
            best_banked: 0,
            total_legs: 0,
            history: Vec::new(),
        }
    }
}

/// The history after logging `summary`: it goes first, and only the newest
/// `RUN_HISTORY_CAP` entries are kept.
pub open spec fn logged_history(
    history: Seq<ExpeditionRunSummary>,
    summary: ExpeditionRunSummary,
) -> Seq<ExpeditionRunSummary> {
    let all = seq![summary] + history;
    if all.len() > RUN_HISTORY_CAP {
        all.subrange(0, RUN_HISTORY_CAP as int)
    } else {
        all
    }
}

impl ExpeditionRunSummary {
    /// A copy of this summary.
    pub(crate) fn duplicate(&self) -> (r: Self)
        ensures
            r == *self,
    {
        ExpeditionRunSummary {
            seed_code: self.seed_code.clone(),
            seeded: self.seeded,
            legs_cleared: self.legs_cleared,
            banked: self.banked,
            won: self.won,
        }
    }
}

impl ExpeditionRecords {
    /// The two hold the same statistics and the same history.
    pub open spec fn same_contents(&self, other: &ExpeditionRecords) -> bool {
        &&& self.runs_started == other.runs_started
        &&& self.wins == other.wins
        &&& self.best_legs == other.best_legs
        &&& self.best_banked == other.best_banked
        &&& self.total_legs == other.total_legs
        &&& self.history@ == other.history@
    }

    /// A copy of these records.
    pub(crate) fn duplicate(&self) -> (r: Self)
        ensures
            r.same_contents(self),
    {
        let mut history: Vec<ExpeditionRunSummary> = Vec::new();
        let mut i: usize = 0;
        while i < self.history.len()
            invariant
                i <= self.history@.len(),
                history@ == self.history@.subrange(0, i as int),
            decreases self.history@.len() - i,
        {
            history.push(self.history[i].duplicate());
            i = i + 1;
        }
        assert(history@ =~= self.history@);
        ExpeditionRecords {
            runs_started: self.runs_started,
            wins: self.wins,
            best_legs: self.best_legs,
            best_banked: self.best_banked,
            total_legs: self.total_legs,
            history,
        }
    }
}

impl ExpeditionRecords {
    /// Folds a finished run into the records: bests, totals, wins and history.
    pub fn record(&mut self, summary: ExpeditionRunSummary)
        requires
            old(self).total_legs + summary.legs_cleared <= u32::MAX,
            summary.won ==> old(self).wins < u32::MAX,
        ensures
            final(self).runs_started == old(self).runs_started,
            final(self).best_legs == (if summary.legs_cleared > old(self).best_legs {
                summary.legs_cleared
            } else {
                old(self).best_legs
            }),
            final(self).best_banked == (if summary.banked > old(self).best_banked {
                summary.banked
            } else {
                old(self).best_banked
            }),
            final(self).total_legs == old(self).total_legs + summary.legs_cleared,
            final(self).wins == old(self).wins + (if summary.won { 1int } else { 0int }),
            final(self).history@ == logged_history(old(self).history@, summary),
    {
        if summary.legs_cleared > self.best_legs {
            self.best_legs = summary.legs_cleared;
        }
        if summary.banked > self.best_banked {
            self.best_banked = summary.banked;
        }
        self.total_legs = self.total_legs + summary.legs_cleared;
        if summary.won {
            self.wins = self.wins + 1;
        }
        let ghost h = self.history@;
        self.history.insert(0, summary);
        assert(self.history@ =~= seq![summary] + h);
        self.history.truncate(RUN_HISTORY_CAP);
    }
}

/// Recording a run never lets the history grow past the cap, keeps the new run
/// first, and keeps the previous runs after it in their order.
pub proof fn lemma_history_is_capped_newest_first(
    history: Seq<ExpeditionRunSummary>,
    summary: ExpeditionRunSummary,
)
    ensures
        logged_history(history, summary).len() <= RUN_HISTORY_CAP,
        logged_history(history, summary).len() >= 1,
        logged_history(history, summary)[0] == summary,
        forall|i: int|
            1 <= i < logged_history(history, summary).len() ==> #[trigger] logged_history(
                history,
                summary,
            )[i] == history[i - 1],
{
}

} // verus!
