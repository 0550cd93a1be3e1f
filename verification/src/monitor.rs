//! The transfer monitor: every tick it reads the two outbound byte counters,
//! may emit a rate report, fails the session when a whole stall window
//! passes with no bytes moved in one of the directions, and surfaces
//! externally requested actions.

use vstd::prelude::*;

use crate::config::Action;

verus! {

/// Milliseconds between two monitor ticks.
pub const TICK_MS: u64 = 100;

/// A rate report: the totals and the bytes moved since the last report.
#[derive(Clone, Copy, PartialEq, Eq, Structural, Debug)]
pub struct RateReport {
    pub usb_total: u64,
    pub tcp_total: u64,
    pub usb_delta: u64,
    pub tcp_delta: u64,
    pub window_ms: u64,
}

/// How a tick ends.
#[derive(Clone, Copy, PartialEq, Eq, Structural, Debug)]
pub enum MonitorOutcome {
    /// Keep going.
    Continue,
    /// A stall window passed with no bytes in one direction: fail the
    /// session.
    FailStall,
    /// An external action was requested: fail the session, carrying the
    /// action; `cleared` says the action slot should be emptied (only a
    /// reconnect clears itself).
    FailAction { action: Action, cleared: bool },
}

/// Everything one tick produced.
pub struct TickResult {
    pub report: Option<RateReport>,
    pub outcome: MonitorOutcome,
}

/// The monitor's state between ticks.
pub struct TransferMonitor {
    /// Statistics window, `None` when reporting is off.
    pub stats_interval_ms: Option<u64>,
    /// Stall window.
    pub stall_timeout_ms: u64,
    pub usb_at_report: u64,
    pub tcp_at_report: u64,
    pub usb_at_stall: u64,
    pub tcp_at_stall: u64,
    pub report_elapsed_ms: u64,
    pub stall_elapsed_ms: u64,
}

/// Addition that stops at the top of `u64`.
pub open spec fn spec_sat_add(a: u64, b: u64) -> u64 {
    if a + b <= u64::MAX {
        (a + b) as u64
    } else {
        u64::MAX
    }
}

fn sat_add(a: u64, b: u64) -> (r: u64)
    ensures
        r == spec_sat_add(a, b),
{
    if a <= u64::MAX - b {
        a + b
    } else {
        u64::MAX
    }
}

/// Whether this tick closes the statistics window.
pub open spec fn spec_report_due(m: TransferMonitor) -> bool {
    match m.stats_interval_ms {
        Some(iv) => spec_sat_add(m.report_elapsed_ms, TICK_MS) > iv,
        None => false,
    }
}

/// Whether this tick closes the stall window.
pub open spec fn spec_stall_due(m: TransferMonitor) -> bool {
    spec_sat_add(m.stall_elapsed_ms, TICK_MS) > m.stall_timeout_ms
}

/// Whether the stall check fails: the window closed and one direction moved
/// no bytes since the window opened.
pub open spec fn spec_stall_fails(m: TransferMonitor, usb_total: u64, tcp_total: u64) -> bool {
    spec_stall_due(m) && (usb_total == m.usb_at_stall || tcp_total == m.tcp_at_stall)
}

impl TransferMonitor {
    /// A fresh monitor for a session that has moved no bytes yet.
    pub fn new(stats_interval_ms: Option<u64>, stall_timeout_ms: u64) -> (r: TransferMonitor)
        ensures
            r == (TransferMonitor {
                stats_interval_ms,
                stall_timeout_ms,
                usb_at_report: 0u64,
                tcp_at_report: 0u64,
                usb_at_stall: 0u64,
                tcp_at_stall: 0u64,
                report_elapsed_ms: 0u64,
                stall_elapsed_ms: 0u64,
            }),
    {
        TransferMonitor {
            stats_interval_ms,
            stall_timeout_ms,
            usb_at_report: 0,
            tcp_at_report: 0,
            usb_at_stall: 0,
            tcp_at_stall: 0,
            report_elapsed_ms: 0,
            stall_elapsed_ms: 0,
        }
    }

    /// One monitor tick, `TICK_MS` after the last: reads the byte counters,
    /// emits the rate report when its window closed, fails on a closed stall
    /// window without progress, and surfaces a requested action.  The
    /// counters are the session's outbound totals and never go backwards.
    pub fn tick(&mut self, usb_total: u64, tcp_total: u64, action: Option<Action>) -> (r:
        TickResult)
        requires
            usb_total >= old(self).usb_at_report,
            tcp_total >= old(self).tcp_at_report,
            usb_total >= old(self).usb_at_stall,
            tcp_total >= old(self).tcp_at_stall,
        ensures
            final(self).stats_interval_ms == old(self).stats_interval_ms,
            final(self).stall_timeout_ms == old(self).stall_timeout_ms,
            match r.report {
                Some(rep) => {
                    &&& spec_report_due(*old(self))
                    &&& rep.usb_total == usb_total
                    &&& rep.tcp_total == tcp_total
                    &&& rep.usb_delta == usb_total - old(self).usb_at_report
                    &&& rep.tcp_delta == tcp_total - old(self).tcp_at_report
                    &&& rep.window_ms == spec_sat_add(old(self).report_elapsed_ms, TICK_MS)
                    &&& final(self).usb_at_report == usb_total
                    &&& final(self).tcp_at_report == tcp_total
                    &&& final(self).report_elapsed_ms == 0
                },
                None => {
                    &&& !spec_report_due(*old(self))
                    &&& final(self).usb_at_report == old(self).usb_at_report
                    &&& final(self).tcp_at_report == old(self).tcp_at_report
                    &&& final(self).report_elapsed_ms == spec_sat_add(
                        old(self).report_elapsed_ms,
                        TICK_MS,
                    )
                },
            },
            r.outcome == MonitorOutcome::FailStall <==> spec_stall_fails(
                *old(self),
                usb_total,
                tcp_total,
            ),
            spec_stall_fails(*old(self), usb_total, tcp_total) ==> final(self).stall_elapsed_ms
                == old(self).stall_elapsed_ms,
            !spec_stall_fails(*old(self), usb_total, tcp_total) && spec_stall_due(*old(self)) ==> {
                &&& final(self).stall_elapsed_ms == 0
                &&& final(self).usb_at_stall == usb_total
                &&& final(self).tcp_at_stall == tcp_total
            },
            !spec_stall_due(*old(self)) ==> {
                &&& final(self).stall_elapsed_ms == spec_sat_add(
                    old(self).stall_elapsed_ms,
                    TICK_MS,
                )
                &&& final(self).usb_at_stall == old(self).usb_at_stall
                &&& final(self).tcp_at_stall == old(self).tcp_at_stall
            },
            r.outcome != MonitorOutcome::FailStall ==> r.outcome == match action {
                Some(a) => MonitorOutcome::FailAction {
                    action: a,
                    cleared: a == Action::Reconnect,
                },
                None => MonitorOutcome::Continue,
            },
    {
        // Statistics window.
        let report_due = match self.stats_interval_ms {
            Some(iv) => sat_add(self.report_elapsed_ms, TICK_MS) > iv,
            None => false,
        };
        let report: Option<RateReport> = if report_due {
            let rep = RateReport {
                usb_total,
                tcp_total,
                usb_delta: usb_total - self.usb_at_report,
                tcp_delta: tcp_total - self.tcp_at_report,
                window_ms: sat_add(self.report_elapsed_ms, TICK_MS),
            };
            self.usb_at_report = usb_total;
            self.tcp_at_report = tcp_total;
            self.report_elapsed_ms = 0;
            Some(rep)
        } else {
            self.report_elapsed_ms = sat_add(self.report_elapsed_ms, TICK_MS);
            None
        };

        // Stall window.
        let stall_due = sat_add(self.stall_elapsed_ms, TICK_MS) > self.stall_timeout_ms;
        if stall_due {
            if usb_total == self.usb_at_stall || tcp_total == self.tcp_at_stall {
                return TickResult { report, outcome: MonitorOutcome::FailStall };
            }
            self.stall_elapsed_ms = 0;
            self.usb_at_stall = usb_total;
            self.tcp_at_stall = tcp_total;
        } else {
            self.stall_elapsed_ms = sat_add(self.stall_elapsed_ms, TICK_MS);
        }

        // External actions.
        match action {
            Some(a) => TickResult {
                report,
                outcome: MonitorOutcome::FailAction { action: a, cleared: a == Action::Reconnect },
            },
            None => TickResult { report, outcome: MonitorOutcome::Continue },
        }
    }
}

/// Stall detection, failing side: once a stall window has closed with one
/// direction's counter exactly where it was when the window opened, the tick
/// reports a stall.
pub proof fn lemma_stall_fires(m: TransferMonitor, usb_total: u64, tcp_total: u64)
    requires
        spec_stall_due(m),
        usb_total == m.usb_at_stall || tcp_total == m.tcp_at_stall,
    ensures
        spec_stall_fails(m, usb_total, tcp_total),
{
}

/// Stall detection, passing side: while both counters have advanced since
/// the stall window opened, no tick reports a stall.
pub proof fn lemma_stall_quiet(m: TransferMonitor, usb_total: u64, tcp_total: u64)
    requires
        usb_total != m.usb_at_stall,
        tcp_total != m.tcp_at_stall,
    ensures
        !spec_stall_fails(m, usb_total, tcp_total),
{
}

} // verus!
