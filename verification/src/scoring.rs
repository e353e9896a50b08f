//! ICPC-style contest scoring.
//!
//! A participant's standing in a contest is recomputed from scratch out of
//! their full judged submission history: for every contest problem the
//! ordered submission list is walked, every terminal non-accepted submission
//! before the first accepted one counts as a wrong attempt, and the walk
//! stops at the first accepted submission. A solved problem contributes one
//! to the solved count and `minutes to the accepting submission + 20 per
//! wrong attempt` to the penalty; an unsolved problem contributes nothing.
//!
//! A submission whose stored timestamp parses in no accepted encoding is
//! skipped: it contributes neither a solve nor a wrong attempt, the walk
//! continues past it, and the recomputation never fails on its account.
//! (Reporting such a skip is the caller's concern.)

use vstd::prelude::*;

use crate::status::Status;
use crate::timestamp::{
    minutes_late, parse_db_datetime, spec_minutes_late, spec_parse_db_datetime,
};

verus! {

/// One submission as the scoring walk sees it: its status and the stored
/// text of its creation timestamp.
pub struct SubmissionAttempt {
    pub status: Status,
    pub created_at: String,
}

/// What one problem contributes for one participant.
pub struct ProblemOutcome {
    pub solved: bool,
    pub wrong_attempts: i64,
    pub solve_minutes: i64,
}

/// A participant's recomputed totals for one contest.
pub struct StandingsTotals {
    pub total_solved: i64,
    pub total_penalty: i64,
}

/// A participant's view of their attempts at one problem.
pub struct ProblemStatus {
    pub solved: bool,
    pub attempts: i32,
    pub time_minutes: i32,
}

/// A status counts as a wrong attempt: terminal, but not accepted. Pending
/// and in-flight submissions are not attempts yet.
pub open spec fn counts_as_wrong(st: Status) -> bool {
    st.spec_is_terminal() && st != Status::Accepted
}

/// The scoring walk over one problem's ordered submissions: whether it was
/// solved, the wrong attempts before the first accepted submission (all
/// wrong attempts when never solved), and the solve time in minutes.
///
/// A submission whose timestamp parses in no accepted encoding is skipped:
/// it contributes nothing and the walk continues. The walk stops at the
/// first accepted submission with a readable timestamp.
pub open spec fn spec_problem_outcome(subs: Seq<SubmissionAttempt>, start: int) -> (
    bool,
    int,
    int,
)
    decreases subs.len(),
{
    if subs.len() == 0 {
        (false, 0int, 0int)
    } else {
        let rest = spec_problem_outcome(subs.drop_first(), start);
        match spec_parse_db_datetime(subs[0].created_at@) {
            None => rest,
            Some(t) => {
                if subs[0].status == Status::Accepted {
                    (true, 0int, spec_minutes_late(start, t))
                } else {
                    let w: int = if counts_as_wrong(subs[0].status) {
                        1
                    } else {
                        0
                    };
                    (rest.0, w + rest.1, rest.2)
                }
            },
        }
    }
}

/// A solved problem's penalty: solve minutes plus twenty per wrong attempt.
/// An unsolved problem contributes none.
pub open spec fn spec_problem_penalty(subs: Seq<SubmissionAttempt>, start: int) -> int {
    let o = spec_problem_outcome(subs, start);
    if o.0 {
        o.2 + 20 * o.1
    } else {
        0
    }
}

/// One when the problem was solved, else zero.
pub open spec fn spec_problem_solved(subs: Seq<SubmissionAttempt>, start: int) -> int {
    if spec_problem_outcome(subs, start).0 {
        1
    } else {
        0
    }
}

/// Totals over all contest problems: solved count and penalty sum.
pub open spec fn spec_totals(problems: Seq<Seq<SubmissionAttempt>>, start: int) -> (int, int)
    decreases problems.len(),
{
    if problems.len() == 0 {
        (0int, 0int)
    } else {
        let rest = spec_totals(problems.drop_first(), start);
        (
            spec_problem_solved(problems[0], start) + rest.0,
            spec_problem_penalty(problems[0], start) + rest.1,
        )
    }
}

/// The wrong-attempt count never exceeds the number of submissions.
pub proof fn lemma_outcome_wrongs_bound(subs: Seq<SubmissionAttempt>, start: int)
    ensures
        0 <= spec_problem_outcome(subs, start).1 <= subs.len(),
    decreases subs.len(),
{
    if subs.len() > 0 {
        lemma_outcome_wrongs_bound(subs.drop_first(), start);
    }
}

/// Every timestamp a parse can yield lies within the four-digit-year range.
pub proof fn lemma_epoch_bounds(s: Seq<char>)
    ensures
        spec_parse_db_datetime(s) matches Some(t) ==> -100_000_000_000 <= t
            <= 300_000_000_000,
{
}

/// With a sane contest start, solve minutes are non-negative and bounded.
pub proof fn lemma_outcome_minutes_bound(subs: Seq<SubmissionAttempt>, start: int)
    requires
        -1_000_000_000_000 <= start,
    ensures
        0 <= spec_problem_outcome(subs, start).2 <= 22_000_000_000,
    decreases subs.len(),
{
    if subs.len() > 0 {
        lemma_outcome_minutes_bound(subs.drop_first(), start);
        lemma_epoch_bounds(subs[0].created_at@);
    }
}

/// Computes the scoring walk for one problem.
pub fn score_problem(attempts: &Vec<SubmissionAttempt>, contest_start: i64) -> (r:
    ProblemOutcome)
    requires
        attempts@.len() <= 1_000_000,
        -1_000_000_000_000 <= contest_start <= 1_000_000_000_000,
    ensures
        (r.solved, r.wrong_attempts as int, r.solve_minutes as int) == spec_problem_outcome(
            attempts@,
            contest_start as int,
        ),
{
    let ghost subs = attempts@;
    let ghost start = contest_start as int;
    let mut i: usize = 0;
    let mut wrongs: i64 = 0;
    proof {
        assert(subs.skip(0) =~= subs);
    }
    while i < attempts.len()
        invariant
            subs == attempts@,
            start == contest_start as int,
            -1_000_000_000_000 <= contest_start <= 1_000_000_000_000,
            subs.len() <= 1_000_000,
            i <= subs.len(),
            0 <= wrongs <= i,
            spec_problem_outcome(subs, start).0 == spec_problem_outcome(
                subs.skip(i as int),
                start,
            ).0,
            spec_problem_outcome(subs, start).1 == wrongs + spec_problem_outcome(
                subs.skip(i as int),
                start,
            ).1,
            spec_problem_outcome(subs, start).2 == spec_problem_outcome(
                subs.skip(i as int),
                start,
            ).2,
        decreases subs.len() - i,
    {
        let a = &attempts[i];
        proof {
            assert(subs.skip(i as int)[0] == subs[i as int]);
            assert(subs.skip(i as int).drop_first() =~= subs.skip(i as int + 1));
        }
        match parse_db_datetime(a.created_at.as_str()) {
            None => {
                // An unreadable timestamp: this submission contributes
                // nothing; the walk goes on.
            },
            Some(t) => {
                if a.status == Status::Accepted {
                    proof {
                        lemma_epoch_bounds(a.created_at@);
                    }
                    return ProblemOutcome {
                        solved: true,
                        wrong_attempts: wrongs,
                        solve_minutes: minutes_late(contest_start, t),
                    };
                }
                if a.status.is_terminal() {
                    wrongs = wrongs + 1;
                }
            },
        }
        i += 1;
    }
    proof {
        assert(subs.skip(subs.len() as int) =~= Seq::<SubmissionAttempt>::empty());
    }
    ProblemOutcome { solved: false, wrong_attempts: wrongs, solve_minutes: 0 }
}

/// Recomputes one participant's totals for one contest from their full
/// submission history: one ordered attempt list per contest problem, walked
/// with the scoring rules above and summed.
pub fn recompute_standings(problems: &Vec<Vec<SubmissionAttempt>>, contest_start: i64) -> (r:
    StandingsTotals)
    requires
        problems@.len() <= 1_000_000,
        forall|i: int| 0 <= i < problems@.len() ==> #[trigger] problems@[i]@.len() <= 1_000_000,
        -1_000_000_000_000 <= contest_start <= 1_000_000_000_000,
    ensures
        (r.total_solved as int, r.total_penalty as int) == spec_totals(
            problems@.map_values(|v: Vec<SubmissionAttempt>| v@),
            contest_start as int,
        ),
        0 <= r.total_solved <= problems@.len(),
{
    let ghost pss = problems@.map_values(|v: Vec<SubmissionAttempt>| v@);
    let ghost start = contest_start as int;
    let mut total_solved: i64 = 0;
    let mut total_penalty: i64 = 0;
    let mut i: usize = 0;
    proof {
        assert(pss.skip(0) =~= pss);
    }
    while i < problems.len()
        invariant
            pss == problems@.map_values(|v: Vec<SubmissionAttempt>| v@),
            start == contest_start as int,
            -1_000_000_000_000 <= contest_start <= 1_000_000_000_000,
            pss.len() <= 1_000_000,
            forall|j: int| 0 <= j < pss.len() ==> #[trigger] pss[j].len() <= 1_000_000,
            i <= pss.len(),
            0 <= total_solved <= i,
            0 <= total_penalty <= i * 22_020_000_000,
            spec_totals(pss, start).0 == total_solved + spec_totals(
                pss.skip(i as int),
                start,
            ).0,
            spec_totals(pss, start).1 == total_penalty + spec_totals(
                pss.skip(i as int),
                start,
            ).1,
        decreases pss.len() - i,
    {
        let outcome = score_problem(&problems[i], contest_start);
        proof {
            assert(pss.skip(i as int)[0] == pss[i as int]);
            assert(pss.skip(i as int).drop_first() =~= pss.skip(i as int + 1));
            lemma_outcome_wrongs_bound(pss[i as int], start);
            lemma_outcome_minutes_bound(pss[i as int], start);
        }
        if outcome.solved {
            total_solved = total_solved + 1;
            total_penalty = total_penalty + (outcome.solve_minutes + 20 * outcome.wrong_attempts);
        }
        i += 1;
    }
    proof {
        assert(pss.skip(pss.len() as int) =~= Seq::<Seq<SubmissionAttempt>>::empty());
    }
    StandingsTotals { total_solved, total_penalty }
}

/// Standings recomputation is idempotent: it is a pure function of the
/// stored history, so two recomputations over the same submissions and the
/// same contest start yield identical totals.
pub proof fn lemma_recompute_idempotent(
    r1: StandingsTotals,
    r2: StandingsTotals,
    problems: Seq<Seq<SubmissionAttempt>>,
    start: int,
)
    requires
        (r1.total_solved as int, r1.total_penalty as int) == spec_totals(problems, start),
        (r2.total_solved as int, r2.total_penalty as int) == spec_totals(problems, start),
    ensures
        r1.total_solved == r2.total_solved,
        r1.total_penalty == r2.total_penalty,
{
}

/// Once a problem is solved, later submissions to it are irrelevant: the
/// walk stops at the first accepted submission it can read, so appending
/// any further attempts changes neither the outcome nor the penalty.
pub proof fn lemma_post_solve_attempts_ignored(
    subs: Seq<SubmissionAttempt>,
    extra: Seq<SubmissionAttempt>,
    start: int,
)
    requires
        spec_problem_outcome(subs, start).0,
    ensures
        spec_problem_outcome(subs + extra, start) == spec_problem_outcome(subs, start),
    decreases subs.len(),
{
    if subs.len() > 0 {
        assert((subs + extra)[0] == subs[0]);
        assert((subs + extra).drop_first() =~= subs.drop_first() + extra);
        if !(spec_parse_db_datetime(subs[0].created_at@) is Some && subs[0].status
            == Status::Accepted) {
            lemma_post_solve_attempts_ignored(subs.drop_first(), extra, start);
        }
    }
}

/// Standings monotonicity: once the totals are recomputed, further attempts
/// on already-solved problems change nothing — if each problem's history is
/// either unchanged or a solved history extended by more attempts, the
/// totals are unchanged.
pub proof fn lemma_standings_monotone(
    pss1: Seq<Seq<SubmissionAttempt>>,
    pss2: Seq<Seq<SubmissionAttempt>>,
    start: int,
)
    requires
        pss1.len() == pss2.len(),
        forall|i: int|
            0 <= i < pss1.len() ==> (#[trigger] pss2[i] == pss1[i] || (spec_problem_outcome(
                pss1[i],
                start,
            ).0 && pss1[i].is_prefix_of(pss2[i]))),
    ensures
        spec_totals(pss2, start) == spec_totals(pss1, start),
    decreases pss1.len(),
{
    if pss1.len() > 0 {
        assert(pss2[0] == pss1[0] || (spec_problem_outcome(pss1[0], start).0
            && pss1[0].is_prefix_of(pss2[0])));
        if pss2[0] != pss1[0] {
            assert(pss2[0] =~= pss1[0] + pss2[0].skip(pss1[0].len() as int));
            lemma_post_solve_attempts_ignored(
                pss1[0],
                pss2[0].skip(pss1[0].len() as int),
                start,
            );
        }
        assert(forall|i: int|
            0 <= i < pss1.drop_first().len() ==> (#[trigger] pss2.drop_first()[i]
                == pss1.drop_first()[i] || (spec_problem_outcome(pss1.drop_first()[i], start).0
                && pss1.drop_first()[i].is_prefix_of(pss2.drop_first()[i]))));
        lemma_standings_monotone(pss1.drop_first(), pss2.drop_first(), start);
    }
}

/// A participant's status line for one problem: whether an accepted
/// submission appears, and how many wrong attempts came before the first
/// one. This is the display walk: it reads statuses only, so timestamps —
/// readable or not — play no part. The minutes field is presentational and
/// stays zero here.
pub fn get_problem_status(attempts: &Vec<SubmissionAttempt>) -> (r: ProblemStatus)
    requires
        attempts@.len() <= 1_000_000,
    ensures
        r.solved == crate::standings::spec_statuses_solved(
            attempts@.map_values(|a: SubmissionAttempt| a.status),
        ),
        r.attempts as int == crate::standings::spec_statuses_attempts(
            attempts@.map_values(|a: SubmissionAttempt| a.status),
        ),
        r.time_minutes == 0,
{
    let ghost sts = attempts@.map_values(|a: SubmissionAttempt| a.status);
    let mut i: usize = 0;
    let mut attempts_count: i32 = 0;
    proof {
        assert(sts.skip(0) =~= sts);
    }
    while i < attempts.len()
        invariant
            sts == attempts@.map_values(|a: SubmissionAttempt| a.status),
            sts.len() <= 1_000_000,
            i <= sts.len(),
            0 <= attempts_count <= i,
            crate::standings::spec_statuses_solved(sts)
                == crate::standings::spec_statuses_solved(sts.skip(i as int)),
            crate::standings::spec_statuses_attempts(sts) == attempts_count
                + crate::standings::spec_statuses_attempts(sts.skip(i as int)),
        decreases sts.len() - i,
    {
        proof {
            assert(sts.skip(i as int)[0] == sts[i as int]);
            assert(sts.skip(i as int).drop_first() =~= sts.skip(i as int + 1));
        }
        if attempts[i].status == Status::Accepted {
            return ProblemStatus { solved: true, attempts: attempts_count, time_minutes: 0 };
        }
        if attempts[i].status.is_terminal() {
            attempts_count = attempts_count + 1;
        }
        i += 1;
    }
    proof {
        assert(sts.skip(sts.len() as int) =~= Seq::<Status>::empty());
    }
    ProblemStatus { solved: false, attempts: attempts_count, time_minutes: 0 }
}

} // verus!
