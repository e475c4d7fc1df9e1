//! The audit run: walks the catalog in order, announces each check before
//! and after it runs, and gathers one result per dispatched entry.
//!
//! The run is a state machine. Its driver asks `start_next` for the next
//! entry, evaluates it, and hands the outcome to `complete`; each call
//! returns the progress event to publish, if any.

use vstd::prelude::*;
use crate::catalog::{CheckKind, code_of, distinct_kinds, is_entry_result, item_of, lemma_code_injective};
use crate::model::{CheckResult, CheckStatus, FailureClass, failure_text, failure_detail};

verus! {

/// A progress notice: entry `current` of `total`, before it runs (no
/// result) or after it ran (with its result).
#[derive(Clone, Debug, PartialEq, Eq)]
pub struct ProgressEvent {
    pub current: usize,
    pub total: usize,
    pub message: String,
    pub current_check: Option<CheckResult>,
}

/// Phase of an event: before the check runs.
pub open spec fn start_phase() -> int {
    0
}

/// Phase of an event: after the check ran.
pub open spec fn end_phase() -> int {
    1
}

/// (current, phase) of `a` comes strictly before that of `b`.
pub open spec fn key_lt(a: (int, int, int), b: (int, int, int)) -> bool {
    a.0 < b.0 || (a.0 == b.0 && a.1 < b.1)
}

pub open spec fn key_le(a: (int, int, int), b: (int, int, int)) -> bool {
    a.0 < b.0 || (a.0 == b.0 && a.1 <= b.1)
}

/// What an event announces before entry `k` runs.
pub open spec fn start_message(k: CheckKind) -> Seq<char> {
    "["@ + code_of(k) + "] "@ + item_of(k) + " 점검 중"@
}

/// What an event announces after entry `k` ran.
pub open spec fn end_message(k: CheckKind) -> Seq<char> {
    "["@ + code_of(k) + "] "@ + item_of(k) + " 점검 완료"@
}

/// The detail of the result that stands for an evaluator that failed.
pub open spec fn evaluator_failed_text(message: Seq<char>) -> Seq<char> {
    failure_text(FailureClass::ToolFailure, "점검을 수행할 수 없습니다: "@ + message)
}

/// The result recorded for entry `k` after an outcome of its evaluator:
/// the entry's own metadata, with the verdict and detail of the outcome, or
/// a failed verdict when the evaluator failed.
pub open spec fn recorded(r: CheckResult, k: CheckKind, outcome: Result<CheckResult, String>) -> bool {
    &&& is_entry_result(r, k)
    &&& match outcome {
        Ok(c) => r.status == c.status && r.detail == c.detail,
        Err(m) => r.status == CheckStatus::CheckFailed && r.detail@ == evaluator_failed_text(m@),
    }
}

/// State of an audit run.
pub struct AuditRun {
    catalog: Vec<CheckKind>,
    results: Vec<CheckResult>,
    in_flight: bool,
    stopped: bool,
    /// (current, phase, total) of each event handed out so far.
    log: Ghost<Seq<(int, int, int)>>,
    /// The outcome of each evaluator, in the order of the results.
    outcomes: Ghost<Seq<Result<CheckResult, String>>>,
}

fn message(k: CheckKind, done: bool) -> (r: String)
    ensures
        r@ == if done {
            end_message(k)
        } else {
            start_message(k)
        },
{
    let mut s = String::from_str("[");
    s.append(k.code());
    s.append("] ");
    s.append(k.item());
    s.append(if done {
        " 점검 완료"
    } else {
        " 점검 중"
    });
    s
}

impl AuditRun {
    pub closed spec fn catalog_view(&self) -> Seq<CheckKind> {
        self.catalog@
    }

    pub closed spec fn results_view(&self) -> Seq<CheckResult> {
        self.results@
    }

    /// The (current, phase, total) of every event handed out, in order.
    pub closed spec fn log(&self) -> Seq<(int, int, int)> {
        self.log@
    }

    /// The outcome that each entry's evaluator gave, in catalog order.
    pub closed spec fn outcomes(&self) -> Seq<Result<CheckResult, String>> {
        self.outcomes@
    }

    /// Nothing is left to start: the run was cancelled or every entry ran,
    /// and no outcome is awaited.
    pub closed spec fn finished(&self) -> bool {
        !self.in_flight && (self.stopped || self.results@.len() == self.catalog@.len())
    }

    /// A check was announced and its outcome is awaited.
    pub closed spec fn awaiting(&self) -> bool {
        self.in_flight
    }

    /// The run was cancelled.
    pub closed spec fn cancelled(&self) -> bool {
        self.stopped
    }

    /// The latest (current, phase) that the log may hold.
    closed spec fn bound(&self) -> (int, int, int) {
        if self.in_flight {
            (self.results@.len() + 1 as int, start_phase(), 0)
        } else {
            (self.results@.len() as int, end_phase(), 0)
        }
    }

    pub closed spec fn wf(&self) -> bool {
        &&& self.catalog@.len() < usize::MAX
        &&& self.results@.len() <= self.catalog@.len()
        &&& self.in_flight ==> self.results@.len() < self.catalog@.len()
        &&& self.outcomes@.len() == self.results@.len()
        &&& forall|i: int|
            0 <= i < self.results@.len() ==> recorded(
                #[trigger] self.results@[i],
                self.catalog@[i],
                self.outcomes@[i],
            )
        &&& forall|i: int, j: int|
            0 <= i < j < self.log@.len() ==> key_lt(#[trigger] self.log@[i], #[trigger] self.log@[j])
        &&& forall|i: int|
            0 <= i < self.log@.len() ==> {
                let e = #[trigger] self.log@[i];
                &&& 1 <= e.0 <= self.catalog@.len()
                &&& e.2 == self.catalog@.len()
                &&& e.1 == start_phase() || e.1 == end_phase()
                &&& key_le(e, self.bound())
            }
    }

    /// A run over `catalog` that has not started.
    pub fn new(catalog: Vec<CheckKind>) -> (r: AuditRun)
        requires
            catalog@.len() < usize::MAX,
        ensures
            r.wf(),
            r.catalog_view() == catalog@,
            r.results_view().len() == 0,
            r.log().len() == 0,
            !r.awaiting(),
            !r.cancelled(),
    {
        AuditRun {
            catalog,
            results: Vec::new(),
            in_flight: false,
            stopped: false,
            log: Ghost(Seq::empty()),
            outcomes: Ghost(Seq::empty()),
        }
    }

    /// Whether a check was announced and its outcome is awaited.
    pub fn is_awaiting(&self) -> (r: bool)
        ensures
            r == self.awaiting(),
    {
        self.in_flight
    }

    /// Announces the next entry, unless the run is cancelled (now or
    /// before) or every entry has run.
    pub fn start_next(&mut self, cancel: bool) -> (r: Option<(CheckKind, ProgressEvent)>)
        requires
            old(self).wf(),
            !old(self).awaiting(),
        ensures
            final(self).wf(),
            final(self).catalog_view() == old(self).catalog_view(),
            final(self).results_view() == old(self).results_view(),
            final(self).outcomes() == old(self).outcomes(),
            final(self).cancelled() == (old(self).cancelled() || cancel),
            r is None <==> final(self).finished(),
            ({
                let n = old(self).results_view().len();
                let total = old(self).catalog_view().len();
                if old(self).cancelled() || cancel || n == total {
                    &&& r is None
                    &&& !final(self).awaiting()
                    &&& final(self).log() == old(self).log()
                } else {
                    &&& r matches Some((k, ev)) && {
                        &&& k == old(self).catalog_view()[n as int]
                        &&& ev.current == n + 1
                        &&& ev.total == total
                        &&& ev.message@ == start_message(k)
                        &&& ev.current_check is None
                        &&& final(self).log() == old(self).log().push(
                            (n + 1 as int, start_phase(), total as int),
                        )
                    }
                    &&& final(self).awaiting()
                }
            }),
    {
        if cancel {
            self.stopped = true;
        }
        let n = self.results.len();
        if self.stopped || n == self.catalog.len() {
            return None;
        }
        let k = self.catalog[n];
        let total = self.catalog.len();
        let ev = ProgressEvent {
            current: n + 1,
            total,
            message: message(k, false),
            current_check: None,
        };
        let ghost entry = ((n + 1) as int, start_phase(), total as int);
        proof {
            self.log@ = self.log@.push(entry);
        }
        self.in_flight = true;
        Some((k, ev))
    }

    /// Records the outcome of the announced entry. A result carries the
    /// entry's own code, category, item and importance. When the evaluator
    /// failed, a failed result stands in for it and no event follows;
    /// otherwise the completion event carries the result.
    pub fn complete(&mut self, outcome: Result<CheckResult, String>) -> (r: Option<ProgressEvent>)
        requires
            old(self).wf(),
            old(self).awaiting(),
        ensures
            final(self).wf(),
            !final(self).awaiting(),
            final(self).cancelled() == old(self).cancelled(),
            final(self).catalog_view() == old(self).catalog_view(),
            ({
                let n = old(self).results_view().len();
                let k = old(self).catalog_view()[n as int];
                let total = old(self).catalog_view().len();
                &&& final(self).results_view().len() == n + 1
                &&& final(self).results_view().take(n as int) == old(self).results_view()
                &&& final(self).outcomes() == old(self).outcomes().push(outcome)
                &&& recorded(final(self).results_view()[n as int], k, outcome)
                &&& match outcome {
                    Ok(_) => r matches Some(ev) && {
                        &&& ev.current == n + 1
                        &&& ev.total == total
                        &&& ev.message@ == end_message(k)
                        &&& ev.current_check == Some(final(self).results_view()[n as int])
                        &&& final(self).log() == old(self).log().push(
                            (n + 1 as int, end_phase(), total as int),
                        )
                    },
                    Err(_) => r is None && final(self).log() == old(self).log(),
                }
            }),
    {
        let n = self.results.len();
        let k = self.catalog[n];
        let total = self.catalog.len();
        let ghost old_results = self.results@;
        let ghost old_log = self.log@;
        let ghost given = outcome;
        proof {
            self.outcomes@ = self.outcomes@.push(given);
        }
        match outcome {
            Ok(c) => {
                let res = k.result(c.status, c.detail);
                let ev = ProgressEvent {
                    current: n + 1,
                    total,
                    message: message(k, true),
                    current_check: Some(res.duplicate()),
                };
                self.results.push(res);
                let ghost entry = ((n + 1) as int, end_phase(), total as int);
                proof {
                    self.log@ = self.log@.push(entry);
                }
                self.in_flight = false;
                assert(self.results@.take(n as int) =~= old_results);
                Some(ev)
            },
            Err(m) => {
                let mut msg = String::from_str("점검을 수행할 수 없습니다: ");
                msg.append(m.as_str());
                let res = k.result(
                    CheckStatus::CheckFailed,
                    failure_detail(FailureClass::ToolFailure, msg.as_str()),
                );
                self.results.push(res);
                self.in_flight = false;
                assert(self.results@.take(n as int) =~= old_results);
                None
            },
        }
    }

    /// The results gathered so far.
    pub fn results(&self) -> (r: &Vec<CheckResult>)
        ensures
            r@ == self.results_view(),
    {
        &self.results
    }

    /// Ends the run and hands over its results.
    pub fn into_results(self) -> (r: Vec<CheckResult>)
        ensures
            r@ == self.results_view(),
    {
        self.results
    }
}

/// Every result of a run carries the code of a catalog entry; when the
/// catalog lists no entry twice, no code appears in two results.
pub proof fn lemma_result_codes(run: &AuditRun)
    requires
        run.wf(),
    ensures
        forall|i: int|
            0 <= i < run.results_view().len() ==> exists|j: int|
                0 <= j < run.catalog_view().len() && (#[trigger] run.results_view()[i]).code@
                    == code_of(#[trigger] run.catalog_view()[j]),
        distinct_kinds(run.catalog_view()) ==> forall|i: int, j: int|
            0 <= i < run.results_view().len() && 0 <= j < run.results_view().len() && i != j
                ==> #[trigger] run.results_view()[i].code@ != #[trigger] run.results_view()[j].code@,
{
    assert forall|i: int| 0 <= i < run.results_view().len() implies exists|j: int|
        0 <= j < run.catalog_view().len() && (#[trigger] run.results_view()[i]).code@ == code_of(
            #[trigger] run.catalog_view()[j],
        ) by {
        assert(is_entry_result(run.results@[i], run.catalog@[i]));
        assert(run.results_view()[i].code@ == code_of(run.catalog_view()[i]));
    }
    if distinct_kinds(run.catalog_view()) {
        assert forall|i: int, j: int|
            0 <= i < run.results_view().len() && 0 <= j < run.results_view().len() && i
                != j implies #[trigger] run.results_view()[i].code@
            != #[trigger] run.results_view()[j].code@ by {
            assert(is_entry_result(run.results@[i], run.catalog@[i]));
            assert(is_entry_result(run.results@[j], run.catalog@[j]));
            lemma_code_injective(run.catalog@[i], run.catalog@[j]);
        }
    }
}

/// The results of a run follow the catalog: there are no more results than
/// entries, and result `i` carries the metadata of entry `i`. (A run that
/// `start_next` ends without a cancellation holds one result per entry.)
pub proof fn lemma_results_follow_catalog(run: &AuditRun)
    requires
        run.wf(),
    ensures
        run.results_view().len() <= run.catalog_view().len(),
        run.outcomes().len() == run.results_view().len(),
        forall|i: int|
            0 <= i < run.results_view().len() ==> recorded(
                #[trigger] run.results_view()[i],
                run.catalog_view()[i],
                run.outcomes()[i],
            ),
{
}

/// A run that finished without being cancelled holds exactly one result per
/// catalog entry, in catalog order, each with its entry's metadata; the
/// result of an evaluator that failed is a failed verdict.
pub proof fn lemma_complete_run(run: &AuditRun)
    requires
        run.wf(),
        run.finished(),
        !run.cancelled(),
    ensures
        run.results_view().len() == run.catalog_view().len(),
        forall|i: int|
            0 <= i < run.results_view().len() ==> {
                &&& is_entry_result(#[trigger] run.results_view()[i], run.catalog_view()[i])
                &&& run.outcomes()[i] is Err ==> run.results_view()[i].status
                    == CheckStatus::CheckFailed
            },
{
    assert forall|i: int| 0 <= i < run.results_view().len() implies {
        &&& is_entry_result(#[trigger] run.results_view()[i], run.catalog_view()[i])
        &&& run.outcomes()[i] is Err ==> run.results_view()[i].status == CheckStatus::CheckFailed
    } by {
        assert(recorded(run.results@[i], run.catalog@[i], run.outcomes@[i]));
    }
}

/// The events of a run come in strictly increasing (current, phase) order,
/// with `1 <= current <= total` and `total` the catalog's length
/// throughout.
pub proof fn lemma_progress_order(run: &AuditRun)
    requires
        run.wf(),
    ensures
        forall|i: int, j: int|
            0 <= i < j < run.log().len() ==> key_lt(#[trigger] run.log()[i], #[trigger] run.log()[j]),
        forall|i: int|
            0 <= i < run.log().len() ==> {
                let e = #[trigger] run.log()[i];
                &&& 1 <= e.0 <= e.2
                &&& e.2 == run.catalog_view().len()
                &&& e.1 == start_phase() || e.1 == end_phase()
            },
{
}

} // verus!
