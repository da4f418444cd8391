//! The ingestion pipeline: one line in, at most one point out.
//!
//! A line is parsed, classified, normalized, throttled if it is of
//! the status kind, and stamped with the emission-time clock. No
//! input can stop the pipeline: every line yields an outcome, and
//! only an emitted point or a decode diagnostic asks the caller to
//! act.

use vstd::prelude::*;

use crate::clock::now_unix_ms;
use crate::emit::{error_point, spec_error_fields, spec_point, spec_status_fields,
    spec_summary_fields, status_point, summary_point};
use crate::json::{json_of, parse_json};
use crate::normalize::{classify, normalize_error, normalize_status, normalize_summary,
    spec_classify, spec_error_of, spec_status_of, spec_summary_of};
use crate::record::{MetricPoint, MsgKind, PointView};
use crate::sampler::Sampler;

verus! {

/// What one line led to. Only `Emit` carries a point for the sink;
/// `DecodeFailed` asks for a diagnostic to the operator; the rest are
/// silent.
pub enum Outcome {
    /// A point to write to the sink.
    Emit(MetricPoint),
    /// The line was not valid JSON; expected noise, dropped silently.
    BadLine,
    /// Valid JSON without a usable, recognized `message_type`.
    Unclassified,
    /// A well-formed status record inside the sampling window.
    Throttled,
    /// A recognized kind whose required fields did not decode; the
    /// operator is told which kind failed.
    DecodeFailed(MsgKind),
}

#[verifier::ext_equal]
pub enum OutcomeView {
    Emit(PointView),
    BadLine,
    Unclassified,
    Throttled,
    DecodeFailed(MsgKind),
}

impl View for Outcome {
    type V = OutcomeView;

    open spec fn view(&self) -> OutcomeView {
        match self {
            Outcome::Emit(p) => OutcomeView::Emit(p@),
            Outcome::BadLine => OutcomeView::BadLine,
            Outcome::Unclassified => OutcomeView::Unclassified,
            Outcome::Throttled => OutcomeView::Throttled,
            Outcome::DecodeFailed(k) => OutcomeView::DecodeFailed(*k),
        }
    }
}

/// The pipeline's only state: the sampler that throttles the status
/// kind.
pub struct Pipeline {
    pub sampler: Sampler,
}

impl Pipeline {
    /// A fresh pipeline. The sampler is seeded so that the first
    /// status record is always admitted; the bounds only keep the
    /// millisecond arithmetic inside `i64`.
    pub fn new(interval_s: u64, start_ms: i64) -> (r: Pipeline)
        requires
            2000 * (interval_s as int) <= i64::MAX as int,
            start_ms as int - 2000 * (interval_s as int) >= i64::MIN as int,
        ensures
            r.sampler.interval_ms == 1000 * (interval_s as int),
            r.sampler.last_emit_ms == start_ms as int - 2000 * (interval_s as int),
    {
        Pipeline { sampler: Sampler::new(interval_s, start_ms) }
    }

    /// What one line does to the pipeline, and what comes out of it,
    /// at a given emission-time clock reading.
    pub open spec fn spec_step(self, line: Seq<char>, now_ms: i64) -> (Pipeline, OutcomeView) {
        match json_of(line) {
            None => (self, OutcomeView::BadLine),
            Some(v) => match spec_classify(v) {
                None => (self, OutcomeView::Unclassified),
                Some(MsgKind::Status) => match spec_status_of(v) {
                    None => (self, OutcomeView::DecodeFailed(MsgKind::Status)),
                    Some(rec) => if self.sampler.spec_eligible(now_ms) {
                        (
                            Pipeline {
                                sampler: Sampler {
                                    interval_ms: self.sampler.interval_ms,
                                    last_emit_ms: now_ms,
                                },
                            },
                            OutcomeView::Emit(
                                spec_point(MsgKind::Status, spec_status_fields(rec), now_ms),
                            ),
                        )
                    } else {
                        (self, OutcomeView::Throttled)
                    },
                },
                Some(MsgKind::Summary) => match spec_summary_of(v) {
                    None => (self, OutcomeView::DecodeFailed(MsgKind::Summary)),
                    Some(rec) => (
                        self,
                        OutcomeView::Emit(
                            spec_point(MsgKind::Summary, spec_summary_fields(rec), now_ms),
                        ),
                    ),
                },
                Some(MsgKind::Error) => match spec_error_of(v) {
                    None => (self, OutcomeView::DecodeFailed(MsgKind::Error)),
                    Some(rec) => (
                        self,
                        OutcomeView::Emit(
                            spec_point(MsgKind::Error, spec_error_fields(rec), now_ms),
                        ),
                    ),
                },
            },
        }
    }

    /// Processes one line against the given emission-time clock
    /// reading. Beyond the exact step relation, the clauses state:
    /// a malformed line and an unclassifiable line emit nothing and
    /// leave the state alone; a summary or error line that decodes is
    /// always emitted; a decode failure is reported and leaves the
    /// state alone; an emitted point is stamped with `now_ms`, never
    /// with anything from the payload.
    pub fn handle_line(&mut self, line: &str, now_ms: i64) -> (r: Outcome)
        ensures
            (*final(self), r@) == old(self).spec_step(line@, now_ms),
            json_of(line@) is None ==> r is BadLine && *final(self) == *old(self),
            (json_of(line@) matches Some(v) && spec_classify(v) is None) ==> r is Unclassified
                && *final(self) == *old(self),
            (json_of(line@) matches Some(v) && spec_classify(v) == Some(MsgKind::Summary)
                && spec_summary_of(v) is Some) ==> r is Emit && *final(self) == *old(self),
            (json_of(line@) matches Some(v) && spec_classify(v) == Some(MsgKind::Error)
                && spec_error_of(v) is Some) ==> r is Emit && *final(self) == *old(self),
            json_of(line@) matches Some(v) ==> spec_classify(v) matches Some(k) ==> ((
            k == MsgKind::Summary && spec_summary_of(v) is None || k == MsgKind::Error
                && spec_error_of(v) is None || k == MsgKind::Status && spec_status_of(v) is None)
                ==> r == Outcome::DecodeFailed(k) && *final(self) == *old(self)),
            r matches Outcome::Emit(p) ==> p@.timestamp_ms == now_ms,
    {
        let v = match parse_json(line) {
            Some(v) => v,
            None => { return Outcome::BadLine; },
        };
        let kind = match classify(&v) {
            Some(k) => k,
            None => { return Outcome::Unclassified; },
        };
        match kind {
            MsgKind::Status => {
                let rec = match normalize_status(&v) {
                    Some(rec) => rec,
                    None => { return Outcome::DecodeFailed(MsgKind::Status); },
                };
                if self.sampler.eligible(now_ms) {
                    self.sampler.mark_emitted(now_ms);
                    Outcome::Emit(status_point(&rec, now_ms))
                } else {
                    Outcome::Throttled
                }
            },
            MsgKind::Summary => match normalize_summary(&v) {
                Some(rec) => Outcome::Emit(summary_point(&rec, now_ms)),
                None => Outcome::DecodeFailed(MsgKind::Summary),
            },
            MsgKind::Error => match normalize_error(&v) {
                Some(rec) => Outcome::Emit(error_point(&rec, now_ms)),
                None => Outcome::DecodeFailed(MsgKind::Error),
            },
        }
    }

    /// Processes one line against the wall clock: the step relation
    /// holds for whatever reading the clock gave.
    pub fn handle_line_now(&mut self, line: &str) -> (r: Outcome)
        ensures
            exists|now_ms: i64| (*final(self), r@) == old(self).spec_step(line@, now_ms),
    {
        let now_ms = now_unix_ms();
        let r = self.handle_line(line, now_ms);
        proof {
            assert((*final(self), r@) == old(self).spec_step(line@, now_ms));
        }
        r
    }
}

/// Law: the first status line a fresh pipeline receives is emitted,
/// whatever interval was configured, as long as it decodes and the
/// clock has not gone backwards past the process start.
pub proof fn lemma_first_status_emitted(
    p: Pipeline,
    interval_s: u64,
    start_ms: i64,
    now_ms: i64,
    line: Seq<char>,
)
    requires
        p.sampler.interval_ms == 1000 * (interval_s as int),
        p.sampler.last_emit_ms == start_ms as int - 2000 * (interval_s as int),
        now_ms >= start_ms,
        json_of(line) matches Some(v) && spec_classify(v) == Some(MsgKind::Status)
            && spec_status_of(v) is Some,
    ensures
        p.spec_step(line, now_ms).1 is Emit,
{
    crate::sampler::lemma_first_always_eligible(p.sampler, interval_s, start_ms, now_ms);
}

/// Law: once a status point is emitted, every status line that
/// arrives before the interval has passed again is throttled, not
/// emitted, whatever it carries.
pub proof fn lemma_status_points_spaced(
    p: Pipeline,
    line1: Seq<char>,
    now1: i64,
    line2: Seq<char>,
    now2: i64,
)
    requires
        json_of(line1) matches Some(v) && spec_classify(v) == Some(MsgKind::Status),
        p.spec_step(line1, now1).1 is Emit,
        json_of(line2) matches Some(w) && spec_classify(w) == Some(MsgKind::Status)
            && spec_status_of(w) is Some,
        (now2 as int) < now1 as int + p.sampler.interval_ms as int,
    ensures
        p.spec_step(line1, now1).0.spec_step(line2, now2).1 is Throttled,
{
}

/// Law: the sampler state moves only when a status point is actually
/// emitted, and then to the emission time, with the interval kept.
pub proof fn lemma_state_moves_only_on_status_emission(p: Pipeline, line: Seq<char>, now_ms: i64)
    ensures
        p.spec_step(line, now_ms).0 != p ==> (p.spec_step(line, now_ms).1 matches
            OutcomeView::Emit(q) && q.measurement == MsgKind::Status.spec_measurement()
            && p.spec_step(line, now_ms).0.sampler.last_emit_ms == now_ms
            && p.spec_step(line, now_ms).0.sampler.interval_ms == p.sampler.interval_ms),
{
}

/// Law: an emitted point is stamped with the emission-time clock
/// reading handed to the step, whatever the line carried.
pub proof fn lemma_timestamp_is_emission_time(
    p: Pipeline,
    line: Seq<char>,
    now_ms: i64,
    q: PointView,
)
    requires
        p.spec_step(line, now_ms).1 == OutcomeView::Emit(q),
    ensures
        q.timestamp_ms == now_ms,
{
}

} // verus!
