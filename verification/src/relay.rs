//! The report relay: a single slot holding the most recent synthesized
//! report.
//!
//! The decoder overwrites the slot on every successful decode step, and the
//! transmission loop reads whatever is current whenever the transport is
//! ready. There is no history and no queue: the slot always exposes exactly
//! the last complete report written. The caller that shares the slot across
//! tasks guards it with its own mutual exclusion, so a reader sees either
//! the prior or the new complete snapshot, never a torn one.

use vstd::prelude::*;

use crate::report::{report_is_zero, KeyboardReport};

verus! {

/// The single shared slot for the latest report. Its view is the report it
/// holds.
pub struct ReportSlot {
    report: KeyboardReport,
}

impl View for ReportSlot {
    type V = KeyboardReport;

    closed spec fn view(&self) -> KeyboardReport {
        self.report
    }
}

impl ReportSlot {
    /// A slot holding the all-zero report, the value observable before the
    /// first decode step of a session.
    pub fn new() -> (r: ReportSlot)
        ensures
            report_is_zero(r@),
    {
        ReportSlot { report: KeyboardReport::default() }
    }

    /// Overwrites the slot with a fresh snapshot; the prior one is gone.
    pub fn publish(&mut self, report: KeyboardReport)
        ensures
            final(self)@ == report,
    {
        self.report = report;
    }

    /// The most recent snapshot published, whole.
    pub fn current(&self) -> (r: KeyboardReport)
        ensures
            r == self@,
    {
        self.report
    }
}

} // verus!
