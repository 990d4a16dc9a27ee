//! The order monitor: a loop that refreshes the order list for as long as
//! its liveness flag is set.
//!
//! The shell runs the loop. At the top of each round it asks
//! [`BiliTicket::monitor_tick`]; on [`MonitorAction::Poll`] it lists the
//! orders, hands the outcome to [`BiliTicket::orders_listed`] and sleeps for
//! as long as the action says; on [`MonitorAction::Stop`] it leaves. Stopping
//! is cooperative: clearing the flag ends the loop at the top of its next
//! round, not sooner.

use vstd::prelude::*;
use crate::client::{BiliTicket, BiliTicketView};
use crate::config::ConfigView;
use crate::error::PlatformError;
use crate::model::Order;

verus! {

/// How long the loop sleeps after each poll, in milliseconds.
pub const ORDER_POLL_INTERVAL_MS: u64 = 1500;

/// What the loop does at the top of a round.
#[derive(Clone, Copy, Debug, PartialEq, Eq, Structural)]
pub enum MonitorAction {
    /// List the orders, store them, then sleep for this many milliseconds.
    Poll { then_sleep_ms: u64 },
    /// Leave the loop.
    Stop,
}

/// One run of the monitor loop. It remembers whether it has seen the
/// liveness flag cleared: from then on it never polls again.
#[derive(Debug)]
pub struct OrderMonitor {
    stopped: bool,
}

impl OrderMonitor {
    /// Whether this run has seen the liveness flag cleared.
    pub closed spec fn spec_stopped(&self) -> bool {
        self.stopped
    }

    /// Whether this run has seen the liveness flag cleared.
    #[verifier::when_used_as_spec(spec_stopped)]
    pub fn stopped(&self) -> (stopped: bool)
        ensures
            stopped == self.spec_stopped(),
    {
        self.stopped
    }
}

/// Whether a run polls at the top of a round: it must not have stopped, and
/// the flag must be seen set.
pub open spec fn polls(stopped: bool, alive: bool) -> bool {
    !stopped && alive
}

/// Whether a run has stopped after the rounds whose tops saw the flag as
/// `seen` says, one entry a round.
pub open spec fn stopped_after(stopped: bool, seen: Seq<bool>) -> bool
    decreases seen.len(),
{
    if seen.len() == 0 {
        stopped
    } else {
        !polls(stopped_after(stopped, seen.drop_last()), seen.last())
    }
}

/// Whether a run that starts as `stopped` says polls in round `round` of
/// the rounds `seen`.
pub open spec fn polls_in_round(stopped: bool, seen: Seq<bool>, round: int) -> bool {
    polls(stopped_after(stopped, seen.take(round)), seen[round])
}

/// No poll starts once the flag was seen cleared: from the round that sees
/// it cleared on, every round stops, whatever the flag shows later.
pub proof fn lemma_no_poll_after_stop(stopped: bool, seen: Seq<bool>, cleared: int, round: int)
    requires
        0 <= cleared <= round < seen.len(),
        !seen[cleared],
    ensures
        !polls_in_round(stopped, seen, round),
        stopped_after(stopped, seen.take(round + 1)),
    decreases round - cleared,
{
    assert(seen.take(round + 1).drop_last() =~= seen.take(round));
    assert(seen.take(round + 1).last() == seen[round]);
    if cleared < round {
        lemma_no_poll_after_stop(stopped, seen, cleared, round - 1);
        assert(seen.take(round - 1 + 1) =~= seen.take(round));
    }
}

/// A run that has not stopped polls in every round up to the first that
/// sees the flag cleared.
pub proof fn lemma_polls_while_alive(seen: Seq<bool>, round: int)
    requires
        0 <= round < seen.len(),
        forall|i: int| 0 <= i <= round ==> seen[i],
    ensures
        polls_in_round(false, seen, round),
        !stopped_after(false, seen.take(round + 1)),
    decreases round,
{
    assert(seen.take(round + 1).drop_last() =~= seen.take(round));
    assert(seen.take(round + 1).last() == seen[round]);
    if round > 0 {
        lemma_polls_while_alive(seen, round - 1);
        assert(seen.take(round - 1 + 1) =~= seen.take(round));
    } else {
        assert(seen.take(0).len() == 0);
    }
}

impl BiliTicket {
    /// Whether the monitor is to be started: somebody is logged in and the
    /// liveness flag is not set.
    pub fn monitor_due(&self) -> (due: bool)
        ensures
            due == (self.config.is_login && !self.handler_order),
    {
        self.config.is_login && !self.handler_order
    }

    /// Starts a run of the monitor: a line says that the orders are being
    /// loaded and the liveness flag is set.
    pub fn handler_orders(&mut self) -> (monitor: OrderMonitor)
        ensures
            final(self)@ == (BiliTicketView { handler_order: true, ..old(self)@ }).printed(
                "加载订单数据...\n"@,
            ),
            !monitor.spec_stopped(),
    {
        self.print_terminal("加载订单数据...\n");
        self.handler_order = true;
        OrderMonitor { stopped: false }
    }

    /// Clears the liveness flag. The loop sees it at the top of its next
    /// round; a poll that is under way still completes.
    pub fn stop_monitor(&mut self)
        ensures
            final(self)@ == (BiliTicketView { handler_order: false, ..old(self)@ }),
    {
        self.handler_order = false;
    }

    /// The top of a round: the run polls if it has not stopped and the
    /// liveness flag is set, and stops for good otherwise.
    pub fn monitor_tick(&self, monitor: &mut OrderMonitor) -> (action: MonitorAction)
        ensures
            action == if polls(old(monitor).spec_stopped(), self.handler_order) {
                MonitorAction::Poll { then_sleep_ms: ORDER_POLL_INTERVAL_MS }
            } else {
                MonitorAction::Stop
            },
            final(monitor).spec_stopped() == !polls(
                old(monitor).spec_stopped(),
                self.handler_order,
            ),
    {
        if !monitor.stopped && self.handler_order {
            MonitorAction::Poll { then_sleep_ms: ORDER_POLL_INTERVAL_MS }
        } else {
            monitor.stopped = true;
            MonitorAction::Stop
        }
    }

    /// Takes what a poll came back with. The orders of a completed poll
    /// replace the snapshot as a whole, so that a reader sees the list of
    /// one poll and never a mix of two. A poll that failed leaves the
    /// snapshot as it was: the next round simply tries again.
    pub fn orders_listed(&mut self, listed: Result<Vec<Order>, PlatformError>)
        ensures
            final(self)@ == (match listed {
                Ok(orders) => BiliTicketView {
                    config: ConfigView { orders: orders@, ..old(self)@.config },
                    ..old(self)@
                },
                Err(_) => old(self)@,
            }),
    {
        match listed {
            Ok(orders) => {
                self.config.orders = orders;
            },
            Err(_) => {},
        }
    }
}

} // verus!
