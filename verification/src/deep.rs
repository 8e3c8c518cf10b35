//! Deep Mode: an audit trail of analysis events.

use vstd::prelude::*;
use std::collections::HashMap;

verus! {

/// One entry of the audit trail.
#[derive(Debug, Clone)]
pub enum AuditEvent {
    /// Analysis of a file or project began.
    AnalysisStarted { source: String, timestamp: u64 },
    /// Analysis ended and found this many symbols.
    AnalysisCompleted { source: String, symbols_found: usize, timestamp: u64 },
    /// Analysis ended with an error.
    AnalysisFailed { source: String, error: String, timestamp: u64 },
    /// A Deep Mode feature was used.
    DeepModeAccessed { feature: String, timestamp: u64 },
}

/// Deep Mode's state: whether it is on, and what has been recorded.
#[derive(Debug)]
pub struct DeepMode {
    enabled: bool,
    audit_trail: Vec<AuditEvent>,
    config: HashMap<String, String>,
}

impl DeepMode {
    /// Whether Deep Mode is on.
    pub closed spec fn enabled(&self) -> bool {
        self.enabled
    }

    /// The events recorded so far, oldest first.
    pub closed spec fn trail(&self) -> Seq<AuditEvent> {
        self.audit_trail@
    }

    /// Deep Mode switched on, with nothing recorded.
    pub fn new() -> (r: DeepMode)
        ensures
            r.enabled(),
            r.trail() == Seq::<AuditEvent>::empty(),
    {
        DeepMode { enabled: true, audit_trail: Vec::new(), config: HashMap::new() }
    }

    /// Records an event after those already recorded.
    pub fn record_event(&mut self, event: AuditEvent)
        ensures
            final(self).trail() == old(self).trail().push(event),
            final(self).enabled() == old(self).enabled(),
    {
        self.audit_trail.push(event);
    }

    /// The events recorded so far, oldest first.
    pub fn get_audit_trail(&self) -> (r: &[AuditEvent])
        ensures
            r@ == self.trail(),
    {
        self.audit_trail.as_slice()
    }

    /// Whether Deep Mode is on.
    pub fn is_enabled(&self) -> (r: bool)
        ensures
            r == self.enabled(),
    {
        self.enabled
    }

    /// Analyses a code fragment at the time `timestamp`, in seconds since the
    /// epoch. The analysis itself is yet to come: the call records that the
    /// feature `deep_analysis` was used.
    pub fn analyze_deep(&mut self, _source: &str, timestamp: u64)
        ensures
            final(self).enabled() == old(self).enabled(),
            final(self).trail().len() == old(self).trail().len() + 1,
            final(self).trail().drop_last() == old(self).trail(),
            final(self).trail().last() matches AuditEvent::DeepModeAccessed { feature, timestamp: t }
                && feature@ == "deep_analysis"@ && t == timestamp,
    {
        let event = AuditEvent::DeepModeAccessed {
            feature: "deep_analysis".to_owned(),
            timestamp,
        };
        self.record_event(event);
    }
}

impl Default for DeepMode {
    fn default() -> (r: DeepMode)
        ensures
            r.enabled(),
            r.trail() == Seq::<AuditEvent>::empty(),
    {
        DeepMode::new()
    }
}

/// Whether Deep Mode is part of this build.
pub fn is_deep_mode_available() -> (r: bool)
    ensures
        r,
{
    true
}

} // verus!
