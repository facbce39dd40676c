use vstd::prelude::*;

use crate::errors::Web3Error;
use crate::types::{Log, LogView};

verus! {

/// A caller-supplied log acceptance test: one pure predicate, evaluated
/// synchronously by the wait engines, never making remote calls itself.
pub trait LogMatcher: Sized {
    /// What the predicate accepts, as a function of the log's contents.
    spec fn spec_matches(&self, log: LogView) -> bool;

    fn matches(&self, log: &Log) -> (r: bool)
        ensures
            r == self.spec_matches(log@),
    ;
}

/// Accepts every log.
pub struct MatchAny {}

impl LogMatcher for MatchAny {
    open spec fn spec_matches(&self, log: LogView) -> bool {
        true
    }

    fn matches(&self, log: &Log) -> (r: bool) {
        true
    }
}

/// A verified byte-wise comparison of two byte vectors.
pub fn bytes_eq(a: &Vec<u8>, b: &Vec<u8>) -> (r: bool)
    ensures
        r == (a@ == b@),
{
    if a.len() != b.len() {
        return false;
    }
    let mut i: usize = 0;
    while i < a.len()
        invariant
            i <= a@.len(),
            a@.len() == b@.len(),
            forall|j: int| 0 <= j < i ==> a@[j] == b@[j],
        decreases a@.len() - i,
    {
        if a[i] != b[i] {
            return false;
        }
        i = i + 1;
    }
    proof {
        assert(a@ =~= b@);
    }
    true
}

/// Accepts a log whose topic list contains one fixed 32-byte value.
pub struct TopicMatcher {
    pub topic: Vec<u8>,
}

impl LogMatcher for TopicMatcher {
    open spec fn spec_matches(&self, log: LogView) -> bool {
        exists|i: int| 0 <= i < log.topics.len() && log.topics[i] == self.topic@
    }

    fn matches(&self, log: &Log) -> (r: bool) {
        let mut i: usize = 0;
        while i < log.topics.len()
            invariant
                i <= log.topics@.len(),
                forall|j: int| 0 <= j < i ==> log.topics@[j]@ != self.topic@,
            decreases log.topics@.len() - i,
        {
            if bytes_eq(&log.topics[i], &self.topic) {
                proof {
                    assert(log@.topics[i as int] == self.topic@);
                }
                return true;
            }
            i = i + 1;
        }
        proof {
            assert forall|k: int| 0 <= k < log@.topics.len() implies log@.topics[k] != self.topic@
            by {
                assert(log@.topics[k] == log.topics@[k]@);
            }
        }
        false
    }
}

/// The contents of a list of logs.
pub open spec fn views_of(logs: Seq<Log>) -> Seq<LogView> {
    logs.map_values(|l: Log| l@)
}

/// The first log in the list that the predicate accepts, in arrival order.
pub open spec fn first_match<M: LogMatcher>(m: &M, logs: Seq<LogView>) -> Option<LogView>
    decreases logs.len(),
{
    if logs.len() == 0 {
        None
    } else if m.spec_matches(logs.first()) {
        Some(logs.first())
    } else {
        first_match(m, logs.drop_first())
    }
}

pub proof fn lemma_first_match_at<M: LogMatcher>(m: &M, logs: Seq<LogView>, i: int)
    requires
        0 <= i < logs.len(),
        forall|j: int| 0 <= j < i ==> !m.spec_matches(logs[j]),
        m.spec_matches(logs[i]),
    ensures
        first_match(m, logs) == Some(logs[i]),
    decreases i,
{
    if i == 0 {
    } else {
        assert(!m.spec_matches(logs.first()));
        lemma_first_match_at(m, logs.drop_first(), i - 1);
    }
}

pub proof fn lemma_first_match_none<M: LogMatcher>(m: &M, logs: Seq<LogView>)
    requires
        forall|j: int| 0 <= j < logs.len() ==> !m.spec_matches(logs[j]),
    ensures
        first_match(m, logs) is None,
    decreases logs.len(),
{
    if logs.len() > 0 {
        lemma_first_match_none(m, logs.drop_first());
    }
}

/// The contents of an optional found log.
pub open spec fn found_view(o: Option<Log>) -> Option<LogView> {
    match o {
        Some(l) => Some(l@),
        None => None,
    }
}

/// Scans logs in arrival order and hands back the first accepted one,
/// consuming the list.
pub fn scan_logs<M: LogMatcher>(m: &M, logs: Vec<Log>) -> (r: Option<Log>)
    ensures
        found_view(r) == first_match(m, views_of(logs@)),
{
    let mut i: usize = 0;
    while i < logs.len()
        invariant
            i <= logs@.len(),
            forall|j: int| 0 <= j < i ==> !m.spec_matches(views_of(logs@)[j]),
        decreases logs@.len() - i,
    {
        let hit = m.matches(&logs[i]);
        proof {
            assert(views_of(logs@)[i as int] == logs@[i as int]@);
        }
        if hit {
            proof {
                lemma_first_match_at(m, views_of(logs@), i as int);
            }
            let mut logs = logs;
            let found = logs.remove(i);
            return Some(found);
        }
        i = i + 1;
    }
    proof {
        lemma_first_match_none(m, views_of(logs@));
    }
    None
}

/// The final report of one stateful wait: the primary result, and whether
/// the guaranteed teardown of the server-side filter failed. A teardown
/// failure never suppresses a delivered log.
pub struct WaitOutcome {
    pub result: Result<Log, Web3Error>,
    pub teardown_failed: bool,
}

/// The polling state of one stateful event wait: poll once per second
/// while time remains and nothing has been found, then always tear the
/// remote filter down. The remote calls themselves happen outside; this
/// machine makes every decision.
pub struct EventWait {
    pub budget_secs: u64,
    pub elapsed_secs: u64,
    pub found: Option<Log>,
    pub poll_error: Option<Web3Error>,
}

impl EventWait {
    /// Enters the polling state, with the whole budget ahead.
    pub fn start(budget_secs: u64) -> (r: Self)
        ensures
            r.budget_secs == budget_secs,
            r.elapsed_secs == 0,
            r.found is None,
            r.poll_error is None,
    {
        EventWait { budget_secs, elapsed_secs: 0, found: None, poll_error: None }
    }

    /// Whether another sleep-and-poll round is due: time remains and no
    /// match or failure has been recorded.
    pub fn should_poll(&self) -> (r: bool)
        ensures
            r == (self.elapsed_secs < self.budget_secs && self.found is None && self.poll_error
                is None),
    {
        self.elapsed_secs < self.budget_secs && self.found.is_none() && self.poll_error.is_none()
    }

    /// Accounts for one second of inter-poll delay.
    pub fn on_tick(&mut self)
        requires
            old(self).elapsed_secs < old(self).budget_secs,
        ensures
            final(self).elapsed_secs == old(self).elapsed_secs + 1,
            final(self).budget_secs == old(self).budget_secs,
            final(self).found == old(self).found,
            final(self).poll_error == old(self).poll_error,
    {
        self.elapsed_secs = self.elapsed_secs + 1;
    }

    /// Records the outcome of one poll: the first accepted log of this
    /// batch, if any, in arrival order.
    pub fn on_poll<M: LogMatcher>(&mut self, logs: Vec<Log>, m: &M)
        requires
            old(self).found is None,
        ensures
            found_view(final(self).found) == first_match(m, views_of(logs@)),
            final(self).budget_secs == old(self).budget_secs,
            final(self).elapsed_secs == old(self).elapsed_secs,
            final(self).poll_error == old(self).poll_error,
    {
        self.found = scan_logs(m, logs);
    }

    /// Records a failed poll call; the error is kept, and teardown still
    /// runs before it is surfaced.
    pub fn on_poll_error(&mut self, e: Web3Error)
        ensures
            final(self).poll_error == Some(e),
            final(self).budget_secs == old(self).budget_secs,
            final(self).elapsed_secs == old(self).elapsed_secs,
            final(self).found == old(self).found,
    {
        self.poll_error = Some(e);
    }

    /// Closes the wait after the unconditional uninstall call, folding in
    /// its reply. A found log always wins; a recorded poll failure is
    /// surfaced next; otherwise the wait timed out, and a teardown failure
    /// is reported in place of the plain not-found outcome.
    pub fn finish(self, uninstall_reply: Result<bool, Web3Error>, event: &str) -> (r: WaitOutcome)
        ensures
            r.teardown_failed == !(uninstall_reply matches Ok(true)),
            self.found is Some ==> r.result == Ok::<Log, Web3Error>(self.found->Some_0),
            (self.found is None && self.poll_error is Some) ==> r.result == Err::<
                Log,
                Web3Error,
            >(self.poll_error->Some_0),
            (self.found is None && self.poll_error is None && uninstall_reply matches Ok(true))
                ==> (r.result matches Err(err) && (err matches Web3Error::EventNotFound(s) && s@
                == event@)),
            (self.found is None && self.poll_error is None && !(uninstall_reply matches Ok(
                true,
            ))) ==> r.result == Err::<Log, Web3Error>(Web3Error::FilterTeardownFailed),
    {
        let teardown_failed = match uninstall_reply {
            Ok(true) => false,
            _ => true,
        };
        match self.found {
            Some(log) => WaitOutcome { result: Ok(log), teardown_failed },
            None => match self.poll_error {
                Some(e) => WaitOutcome { result: Err(e), teardown_failed },
                None => if teardown_failed {
                    WaitOutcome { result: Err(Web3Error::FilterTeardownFailed), teardown_failed }
                } else {
                    WaitOutcome {
                        result: Err(Web3Error::EventNotFound(event.to_owned())),
                        teardown_failed,
                    }
                },
            },
        }
    }
}

/// How one full stateful wait comes out, as a function of the poll replies
/// alone: the index of the first decisive poll and what it decided.
pub enum RunVerdict {
    Matched(int, LogView),
    Failed(int),
    Exhausted,
}

/// Walks the poll replies from round `i`: the first reply holding an
/// accepted log settles the wait, a failed reply settles it too, and a
/// full budget of quiet replies exhausts it.
pub open spec fn verdict_from<M: LogMatcher>(
    m: &M,
    polls: Seq<Result<Vec<Log>, Web3Error>>,
    budget: int,
    i: int,
) -> RunVerdict
    decreases budget - i,
{
    if i >= budget || i >= polls.len() {
        RunVerdict::Exhausted
    } else {
        match polls[i] {
            Result::Err(_) => RunVerdict::Failed(i),
            Result::Ok(logs) => match first_match(m, views_of(logs@)) {
                Some(l) => RunVerdict::Matched(i, l),
                None => verdict_from(m, polls, budget, i + 1),
            },
        }
    }
}

/// One whole stateful wait against a recorded transcript of poll replies:
/// `polls[k]` answers the poll of round `k`, and `uninstall_reply` answers
/// the single teardown call, which is issued on every path. Returns the
/// outcome, the number of uninstall calls issued, and the seconds spent.
pub fn run_stateful_wait<M: LogMatcher>(
    budget_secs: u64,
    polls: Vec<Result<Vec<Log>, Web3Error>>,
    m: &M,
    uninstall_reply: Result<bool, Web3Error>,
    event: &str,
) -> (r: (WaitOutcome, usize, u64))
    requires
        polls@.len() >= budget_secs,
    ensures
        r.1 == 1,
        r.2 <= budget_secs,
        r.0.teardown_failed == !(uninstall_reply matches Ok(true)),
        (match verdict_from(m, polls@, budget_secs as int, 0) {
            RunVerdict::Matched(n, lv) => {
                &&& r.0.result matches Ok(log) && log@ == lv
                &&& r.2 == n + 1
            },
            RunVerdict::Failed(n) => {
                &&& r.0.result matches Err(e) && (polls@[n] matches Err(pe) && e == pe)
                &&& r.2 == n + 1
            },
            RunVerdict::Exhausted => {
                &&& r.2 == budget_secs
                &&& (uninstall_reply matches Ok(true)) ==> (r.0.result matches Err(err)
                    && err matches Web3Error::EventNotFound(s) && s@ == event@)
                &&& !(uninstall_reply matches Ok(true)) ==> r.0.result == Err::<Log, Web3Error>(
                    Web3Error::FilterTeardownFailed,
                )
            },
        }),
{
    let ghost orig = polls@;
    let mut polls = polls;
    let mut w = EventWait::start(budget_secs);
    let mut i: u64 = 0;
    while w.should_poll()
        invariant
            w.budget_secs == budget_secs,
            w.elapsed_secs == i,
            i <= budget_secs,
            orig.len() >= budget_secs,
            polls@ == orig.skip(i as int),
            w.found is None && w.poll_error is None ==> verdict_from(m, orig, budget_secs as int, 0)
                == verdict_from(m, orig, budget_secs as int, i as int),
            w.found matches Some(l) ==> verdict_from(m, orig, budget_secs as int, 0)
                == RunVerdict::Matched(i - 1, l@),
            w.poll_error matches Some(e) ==> (verdict_from(m, orig, budget_secs as int, 0)
                == RunVerdict::Failed(i - 1) && (orig[i - 1] matches Err(pe) && e == pe)),
        decreases budget_secs - i,
    {
        w.on_tick();
        let reply = polls.remove(0);
        proof {
            assert(orig.skip(i as int).first() == orig[i as int]);
            assert(orig.skip(i as int).drop_first() =~= orig.skip(i + 1));
        }
        match reply {
            Ok(logs) => {
                let ghost lv = views_of(logs@);
                w.on_poll(logs, m);
                proof {
                    if w.found is None {
                        assert(verdict_from(m, orig, budget_secs as int, i as int)
                            == verdict_from(m, orig, budget_secs as int, i + 1));
                    } else {
                        assert(verdict_from(m, orig, budget_secs as int, i as int)
                            == RunVerdict::Matched(i as int, first_match(m, lv)->Some_0));
                    }
                }
            },
            Err(e) => {
                w.on_poll_error(e);
                proof {
                    assert(verdict_from(m, orig, budget_secs as int, i as int)
                        == RunVerdict::Failed(i as int));
                }
            },
        }
        i = i + 1;
    }
    proof {
        if w.found is None && w.poll_error is None {
            assert(i == budget_secs);
            assert(verdict_from(m, orig, budget_secs as int, i as int) == RunVerdict::Exhausted);
        }
    }
    let outcome = w.finish(uninstall_reply, event);
    (outcome, 1, i)
}

/// A wait whose transcript holds only quiet, successful polls up to the
/// decisive round settles exactly at that round: the accepted log of round
/// `n` is delivered whenever `n` lies within the budget, no matter how
/// late it comes.
pub proof fn lemma_wait_delivers_match<M: LogMatcher>(
    m: &M,
    polls: Seq<Result<Vec<Log>, Web3Error>>,
    budget: int,
    n: int,
)
    requires
        0 <= n < budget,
        n < polls.len(),
        forall|k: int|
            0 <= k < n ==> (#[trigger] polls[k] matches Ok(v) && first_match(m, views_of(v@))
                is None),
        polls[n] matches Ok(v) && first_match(m, views_of(v@)) is Some,
    ensures
        verdict_from(m, polls, budget, 0) == RunVerdict::Matched(
            n,
            first_match(m, views_of(polls[n]->Ok_0@))->Some_0,
        ),
{
    lemma_verdict_skips_quiet(m, polls, budget, 0, n);
}

proof fn lemma_verdict_skips_quiet<M: LogMatcher>(
    m: &M,
    polls: Seq<Result<Vec<Log>, Web3Error>>,
    budget: int,
    i: int,
    n: int,
)
    requires
        0 <= i <= n < budget,
        n < polls.len(),
        forall|k: int|
            0 <= k < n ==> (#[trigger] polls[k] matches Ok(v) && first_match(m, views_of(v@))
                is None),
    ensures
        verdict_from(m, polls, budget, i) == verdict_from(m, polls, budget, n),
    decreases n - i,
{
    if i < n {
        lemma_verdict_skips_quiet(m, polls, budget, i + 1, n);
    }
}

/// A wait whose transcript holds a full budget of quiet, successful polls
/// is exhausted: it ends in the not-found outcome after the whole budget,
/// and the teardown call is still issued.
pub proof fn lemma_wait_exhausts<M: LogMatcher>(
    m: &M,
    polls: Seq<Result<Vec<Log>, Web3Error>>,
    budget: int,
)
    requires
        budget >= 0,
        forall|k: int|
            0 <= k < budget && k < polls.len() ==> (#[trigger] polls[k] matches Ok(v)
                && first_match(m, views_of(v@)) is None),
    ensures
        verdict_from(m, polls, budget, 0) == RunVerdict::Exhausted,
{
    lemma_verdict_exhausts_from(m, polls, budget, 0);
}

proof fn lemma_verdict_exhausts_from<M: LogMatcher>(
    m: &M,
    polls: Seq<Result<Vec<Log>, Web3Error>>,
    budget: int,
    i: int,
)
    requires
        0 <= i <= budget,
        forall|k: int|
            0 <= k < budget && k < polls.len() ==> (#[trigger] polls[k] matches Ok(v)
                && first_match(m, views_of(v@)) is None),
    ensures
        verdict_from(m, polls, budget, i) == RunVerdict::Exhausted,
    decreases budget - i,
{
    if i < budget && i < polls.len() {
        lemma_verdict_exhausts_from(m, polls, budget, i + 1);
    }
}

/// The stateless wait: sleep the full configured delay unconditionally,
/// then query the whole log history once and scan it. The floor is a
/// contract, not an optimization: the sleep always comes first, and the
/// single query cannot be issued before it.
pub struct StatelessWait {
    pub wait_secs: u64,
    pub slept: bool,
}

/// What the stateless wait asks its driver to do next.
#[derive(PartialEq, Eq, Structural, Debug)]
pub enum StatelessAction {
    Sleep(u64),
    Query,
}

impl StatelessWait {
    pub fn start(wait_secs: u64) -> (r: Self)
        ensures
            r.wait_secs == wait_secs,
            !r.slept,
    {
        StatelessWait { wait_secs, slept: false }
    }

    /// The first action is always the full configured sleep, whatever is
    /// already present on chain; only then comes the single query.
    pub fn next_action(&self) -> (r: StatelessAction)
        ensures
            !self.slept ==> r == StatelessAction::Sleep(self.wait_secs),
            self.slept ==> r == StatelessAction::Query,
    {
        if self.slept {
            StatelessAction::Query
        } else {
            StatelessAction::Sleep(self.wait_secs)
        }
    }

    pub fn on_slept(&mut self)
        ensures
            final(self).slept,
            final(self).wait_secs == old(self).wait_secs,
    {
        self.slept = true;
    }

    /// Folds in the single query's reply: the first accepted log in
    /// arrival order, the not-found outcome for a quiet history, or the
    /// query's own failure. Cannot run before the sleep.
    pub fn finish<M: LogMatcher>(
        self,
        logs_reply: Result<Vec<Log>, Web3Error>,
        m: &M,
        event: &str,
    ) -> (r: Result<Log, Web3Error>)
        requires
            self.slept,
        ensures
            logs_reply matches Ok(logs) ==> (match first_match(m, views_of(logs@)) {
                Some(lv) => r matches Ok(log) && log@ == lv,
                None => r matches Err(err) && err matches Web3Error::EventNotFound(s) && s@
                    == event@,
            }),
            logs_reply matches Err(e) ==> r == Err::<Log, Web3Error>(e),
    {
        match logs_reply {
            Ok(logs) => match scan_logs(m, logs) {
                Some(log) => Ok(log),
                None => Err(Web3Error::EventNotFound(event.to_owned())),
            },
            Err(e) => Err(e),
        }
    }
}

/// One whole stateless wait against a recorded query reply. Returns the
/// result and the seconds slept before the query: always the full
/// configured delay, even when a matching event was already present.
pub fn run_stateless_wait<M: LogMatcher>(
    wait_secs: u64,
    logs_reply: Result<Vec<Log>, Web3Error>,
    m: &M,
    event: &str,
) -> (r: (Result<Log, Web3Error>, u64))
    ensures
        r.1 == wait_secs,
        logs_reply matches Ok(logs) ==> (match first_match(m, views_of(logs@)) {
            Some(lv) => r.0 matches Ok(log) && log@ == lv,
            None => r.0 matches Err(err) && err matches Web3Error::EventNotFound(s) && s@
                == event@,
        }),
        logs_reply matches Err(e) ==> r.0 == Err::<Log, Web3Error>(e),
{
    let mut w = StatelessWait::start(wait_secs);
    let slept: u64 = match w.next_action() {
        StatelessAction::Sleep(d) => d,
        StatelessAction::Query => 0,
    };
    w.on_slept();
    (w.finish(logs_reply, m, event), slept)
}

/// The newest log, taken from the head of a query reply; what a one-shot
/// presence check returns.
pub fn first_log(logs: Vec<Log>) -> (r: Option<Log>)
    ensures
        r is Some <==> logs@.len() > 0,
        r matches Some(l) ==> l@ == views_of(logs@)[0],
{
    let mut logs = logs;
    if logs.len() == 0 {
        None
    } else {
        Some(logs.remove(0))
    }
}

} // verus!
