//! Contest models and the contest-time decisions: in which phase a contest
//! stands relative to a clock reading, and a participant's per-problem
//! status line for the standings table.

use vstd::multiset::Multiset;
use vstd::prelude::*;

use crate::status::Status;
use crate::text::{lemma_lex_total, lemma_lex_trans, lex_leq, str_lex_leq};

verus! {

/// A contest as persisted.
pub struct Contest {
    pub id: i64,
    pub title: String,
    pub description: Option<String>,
    pub start_time: String,
    pub end_time: String,
    pub contest_type: String,
    pub is_public: bool,
    pub max_participants: Option<i32>,
    pub status: String,
    pub requires_approval: bool,
    pub created_by: i64,
    pub approved_by: Option<i64>,
    pub approved_at: Option<String>,
    pub created_at: String,
}

/// A contest as shown on its detail page.
pub struct ContestDetail {
    pub id: i64,
    pub title: String,
    pub description: Option<String>,
    pub start_time: String,
    pub end_time: String,
    pub contest_type: String,
    pub is_public: bool,
    pub max_participants: Option<i32>,
    pub status: String,
    pub requires_approval: bool,
    pub created_by: i64,
    pub creator_username: String,
    pub created_at: String,
}

/// One problem attached to a contest.
pub struct ContestProblem {
    pub id: i64,
    pub problem_id: i64,
    pub problem_title: String,
    pub points: i32,
    pub problem_order: i32,
}

/// One participant's persisted contest row.
pub struct ContestParticipant {
    pub id: i64,
    pub contest_id: i64,
    pub user_id: i64,
    pub username: String,
    pub total_score: i32,
    pub penalty_time: i32,
    pub joined_at: String,
}

/// One line of the basic standings table.
pub struct StandingsEntry {
    pub rank: i64,
    pub user_id: i64,
    pub username: String,
    pub solved: i32,
    pub penalty: i32,
    pub total_score: i32,
}

/// One participant's standing on one problem.
pub struct ProblemSubmissionStatus {
    pub problem_id: i64,
    pub solved: bool,
    pub attempts: i32,
    pub time_minutes: i32,
}

/// One line of the detailed standings table.
pub struct DetailedStandingsEntry {
    pub rank: i64,
    pub user_id: i64,
    pub username: String,
    pub solved: i32,
    pub penalty: i32,
    pub total_score: i32,
    pub problem_statuses: Vec<ProblemSubmissionStatus>,
}

/// The whole standings page: contest, problems, ranked participants.
pub struct ContestStandings {
    pub contest: ContestDetail,
    pub problems: Vec<ContestProblem>,
    pub standings: Vec<DetailedStandingsEntry>,
}

/// Where a contest stands relative to a clock reading.
#[derive(Clone, Copy, Debug, PartialEq, Eq, Structural)]
pub enum ContestPhase {
    Upcoming,
    Active,
    Ended,
}

/// The phase a clock reading falls in: before the start, between start and
/// end inclusive, or after the end.
pub open spec fn spec_contest_phase(now: int, start: int, end: int) -> ContestPhase {
    if now < start {
        ContestPhase::Upcoming
    } else if now <= end {
        ContestPhase::Active
    } else {
        ContestPhase::Ended
    }
}

/// Decides a contest's phase from epoch seconds.
pub fn contest_phase(now: i64, start: i64, end: i64) -> (r: ContestPhase)
    ensures
        r == spec_contest_phase(now as int, start as int, end as int),
{
    if now < start {
        ContestPhase::Upcoming
    } else if now <= end {
        ContestPhase::Active
    } else {
        ContestPhase::Ended
    }
}

impl ContestPhase {
    /// The phase's name as the pages show it.
    pub open spec fn spec_name(self) -> Seq<char> {
        match self {
            ContestPhase::Upcoming => "upcoming"@,
            ContestPhase::Active => "active"@,
            ContestPhase::Ended => "ended"@,
        }
    }

    /// The phase's display name.
    pub fn name(&self) -> (r: &'static str)
        ensures
            r@ == self.spec_name(),
    {
        match self {
            ContestPhase::Upcoming => "upcoming",
            ContestPhase::Active => "active",
            ContestPhase::Ended => "ended",
        }
    }
}

/// A submission to a contest problem is accepted only while the contest is
/// active.
pub fn submission_window_open(now: i64, start: i64, end: i64) -> (r: bool)
    ensures
        r == (spec_contest_phase(now as int, start as int, end as int)
            == ContestPhase::Active),
{
    !(now < start || now > end)
}

/// The display order of the standings table: more problems solved first,
/// ties broken by lower penalty, then by user name in code-point order for
/// determinism.
pub open spec fn entry_leq(x: StandingsEntry, y: StandingsEntry) -> bool {
    if x.solved != y.solved {
        x.solved > y.solved
    } else if x.penalty != y.penalty {
        x.penalty < y.penalty
    } else {
        lex_leq(x.username@, y.username@)
    }
}

/// The display order is total.
pub proof fn lemma_entry_leq_total(x: StandingsEntry, y: StandingsEntry)
    ensures
        entry_leq(x, y) || entry_leq(y, x),
{
    lemma_lex_total(x.username@, y.username@);
}

/// The display order is transitive.
pub proof fn lemma_entry_leq_trans(x: StandingsEntry, y: StandingsEntry, z: StandingsEntry)
    requires
        entry_leq(x, y),
        entry_leq(y, z),
    ensures
        entry_leq(x, z),
{
    if x.solved == y.solved && y.solved == z.solved && x.penalty == y.penalty && y.penalty
        == z.penalty {
        lemma_lex_trans(x.username@, y.username@, z.username@);
    }
}

fn entry_leq_exec(x: &StandingsEntry, y: &StandingsEntry) -> (r: bool)
    ensures
        r == entry_leq(*x, *y),
{
    if x.solved != y.solved {
        x.solved > y.solved
    } else if x.penalty != y.penalty {
        x.penalty < y.penalty
    } else {
        str_lex_leq(x.username.as_str(), y.username.as_str())
    }
}

/// The sequence stands in display order.
pub open spec fn standings_sorted(s: Seq<StandingsEntry>) -> bool {
    forall|i: int, j: int| 0 <= i < j < s.len() ==> entry_leq(s[i], s[j])
}

/// Sorts standings entries into display order. The result holds exactly the
/// entries given, in an order where every pair respects `entry_leq`.
pub fn sort_standings(entries: Vec<StandingsEntry>) -> (r: Vec<StandingsEntry>)
    ensures
        r@.len() == entries@.len(),
        r@.to_multiset() == entries@.to_multiset(),
        standings_sorted(r@),
{
    broadcast use vstd::seq_lib::group_to_multiset_ensures;
    broadcast use vstd::multiset::group_multiset_axioms;

    let ghost orig = entries@;
    let mut rest = entries;
    let mut out: Vec<StandingsEntry> = Vec::new();
    proof {
        assert(out@.to_multiset().add(rest@.to_multiset()) =~= orig.to_multiset());
    }
    while rest.len() > 0
        invariant
            out@.to_multiset().add(rest@.to_multiset()) == orig.to_multiset(),
            out@.len() + rest@.len() == orig.len(),
            standings_sorted(out@),
        decreases rest@.len(),
    {
        let ghost rest_before = rest@;
        let x = rest.remove(0);
        let mut pos: usize = 0;
        while pos < out.len() && entry_leq_exec(&out[pos], &x)
            invariant
                pos <= out@.len(),
                forall|k: int| 0 <= k < pos ==> entry_leq(out@[k], x),
            decreases out@.len() - pos,
        {
            pos += 1;
        }
        let ghost prev = out@;
        out.insert(pos, x);
        proof {
            assert(rest_before.contains(x)) by {
                assert(rest_before[0] == x);
            }
            vstd::seq_lib::to_multiset_insert(prev, pos as int, x);
            vstd::seq_lib::to_multiset_remove(rest_before, 0);
            vstd::seq_lib::to_multiset_contains(rest_before, x);
            assert(out@.to_multiset().add(rest@.to_multiset()) =~= orig.to_multiset());
            assert(forall|k: int| 0 <= k < pos ==> out@[k] == prev[k]);
            assert(out@[pos as int] == x);
            assert(forall|k: int| pos < k < out@.len() ==> out@[k] == prev[k - 1]);
            if (pos as int) < prev.len() {
                lemma_entry_leq_total(prev[pos as int], x);
            }
            assert forall|i: int, j: int|
                0 <= i < j < out@.len() implies entry_leq(out@[i], out@[j]) by {
                if i == pos && j > pos + 1 {
                    lemma_entry_leq_trans(x, prev[pos as int], prev[j - 1]);
                }
            }
        }
    }
    proof {
        assert(rest@.to_multiset() =~= Multiset::<StandingsEntry>::empty());
        assert(out@.to_multiset() =~= out@.to_multiset().add(rest@.to_multiset()));
    }
    out
}

/// Writes the display ranks onto entries already in display order: the rank
/// is the position, counted from one; every other field is untouched.
pub fn assign_ranks(entries: Vec<StandingsEntry>) -> (r: Vec<StandingsEntry>)
    requires
        entries@.len() <= 1_000_000,
    ensures
        r@.len() == entries@.len(),
        forall|i: int|
            0 <= i < r@.len() ==> {
                &&& (#[trigger] r@[i]).rank == i + 1
                &&& r@[i].user_id == entries@[i].user_id
                &&& r@[i].username == entries@[i].username
                &&& r@[i].solved == entries@[i].solved
                &&& r@[i].penalty == entries@[i].penalty
                &&& r@[i].total_score == entries@[i].total_score
            },
{
    let ghost orig = entries@;
    let mut rest = entries;
    let mut out: Vec<StandingsEntry> = Vec::new();
    proof {
        assert(rest@ =~= orig.skip(0));
    }
    while rest.len() > 0
        invariant
            orig.len() <= 1_000_000,
            out@.len() + rest@.len() == orig.len(),
            rest@ == orig.skip(out@.len() as int),
            forall|i: int|
                0 <= i < out@.len() ==> {
                    &&& (#[trigger] out@[i]).rank == i + 1
                    &&& out@[i].user_id == orig[i].user_id
                    &&& out@[i].username == orig[i].username
                    &&& out@[i].solved == orig[i].solved
                    &&& out@[i].penalty == orig[i].penalty
                    &&& out@[i].total_score == orig[i].total_score
                },
        decreases rest@.len(),
    {
        let ghost k = out@.len() as int;
        let e = rest.remove(0);
        proof {
            assert(orig.skip(k)[0] == orig[k]);
            assert(orig.skip(k).remove(0) =~= orig.skip(k + 1));
        }
        let StandingsEntry { rank: _, user_id, username, solved, penalty, total_score } = e;
        let rank = (out.len() + 1) as i64;
        out.push(StandingsEntry { rank, user_id, username, solved, penalty, total_score });
    }
    out
}

/// Whether the walk over a problem's ordered statuses reaches an accepted
/// submission.
pub open spec fn spec_statuses_solved(sts: Seq<Status>) -> bool
    decreases sts.len(),
{
    if sts.len() == 0 {
        false
    } else if sts[0] == Status::Accepted {
        true
    } else {
        spec_statuses_solved(sts.drop_first())
    }
}

/// Wrong attempts before the first accepted submission (all of them when
/// never accepted): terminal statuses other than accepted.
pub open spec fn spec_statuses_attempts(sts: Seq<Status>) -> int
    decreases sts.len(),
{
    if sts.len() == 0 {
        0
    } else if sts[0] == Status::Accepted {
        0
    } else {
        (if sts[0].spec_is_terminal() {
            1int
        } else {
            0int
        }) + spec_statuses_attempts(sts.drop_first())
    }
}

/// A participant's status line for one problem on the standings page, from
/// the problem's ordered submission statuses. The minutes column is
/// presentational and stays zero here.
pub fn problem_submission_status(problem_id: i64, statuses: &Vec<Status>) -> (r:
    ProblemSubmissionStatus)
    requires
        statuses@.len() <= 1_000_000,
    ensures
        r.problem_id == problem_id,
        r.solved == spec_statuses_solved(statuses@),
        r.attempts as int == spec_statuses_attempts(statuses@),
        r.time_minutes == 0,
{
    let ghost sts = statuses@;
    let mut i: usize = 0;
    let mut attempts: i32 = 0;
    proof {
        assert(sts.skip(0) =~= sts);
    }
    while i < statuses.len()
        invariant
            sts == statuses@,
            sts.len() <= 1_000_000,
            i <= sts.len(),
            0 <= attempts <= i,
            spec_statuses_solved(sts) == spec_statuses_solved(sts.skip(i as int)),
            spec_statuses_attempts(sts) == attempts + spec_statuses_attempts(
                sts.skip(i as int),
            ),
        decreases sts.len() - i,
    {
        proof {
            assert(sts.skip(i as int)[0] == sts[i as int]);
            assert(sts.skip(i as int).drop_first() =~= sts.skip(i as int + 1));
        }
        if statuses[i] == Status::Accepted {
            return ProblemSubmissionStatus { problem_id, solved: true, attempts, time_minutes: 0 };
        }
        if statuses[i].is_terminal() {
            attempts = attempts + 1;
        }
        i += 1;
    }
    proof {
        assert(sts.skip(sts.len() as int) =~= Seq::<Status>::empty());
    }
    ProblemSubmissionStatus { problem_id, solved: false, attempts, time_minutes: 0 }
}

} // verus!
