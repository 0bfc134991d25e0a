//! Operation and performance counters, and the read-only reports built
//! from them.

use vstd::prelude::*;
use crate::effects::{Event, OperationKind};
use crate::state::{BountyEscrowContract, Metrics, PerformanceCounter};
use crate::types::Address;

verus! {

broadcast use vstd::std_specs::hash::group_hash_axioms;

/// The result of a health check.
pub struct HealthStatus {
    pub is_healthy: bool,
    pub last_operation: u64,
    pub total_operations: u64,
    /// Always "1.0.0".
    pub contract_version: &'static str,
}

/// Operation counters with the error rate in basis points.
#[derive(Copy, Clone, Debug, PartialEq, Eq, Structural)]
pub struct Analytics {
    pub operation_count: u64,
    pub unique_users: u64,
    pub error_count: u64,
    /// Errors per 10 000 operations (0 when nothing was counted).
    pub error_rate: u32,
}

/// The counters at a point in time.
#[derive(Copy, Clone, Debug, PartialEq, Eq, Structural)]
pub struct StateSnapshot {
    pub timestamp: u64,
    pub total_operations: u64,
    pub total_users: u64,
    pub total_errors: u64,
}

/// The performance counters of one function.
#[derive(Copy, Clone, Debug, PartialEq, Eq, Structural)]
pub struct PerformanceStats {
    pub function_name: u64,
    pub call_count: u64,
    pub total_time: u64,
    /// The mean duration, rounded down (0 when never called).
    pub avg_time: u64,
    pub last_called: u64,
}

/// The error rate in basis points: `errors * 10 000 / ops`, rounded down and
/// truncated to 32 bits, or 0 when no operation was counted.
pub open spec fn error_rate_of(ops: u64, errors: u64) -> u32 {
    if ops > 0 { ((errors as int * 10000) / ops as int) as u32 } else { 0 }
}

impl Metrics {
    /// The recorded counter of `function`, zero when it was never called.
    pub open spec fn counter(&self, function: u64) -> PerformanceCounter {
        if self.performance@.contains_key(function) {
            self.performance@[function]
        } else {
            PerformanceCounter { call_count: 0, total_time: 0 }
        }
    }

    /// Counts an operation, and an error when it failed, and returns the
    /// metric event to emit.
    pub fn track_operation(&mut self, now: u64, operation: OperationKind, caller: Option<Address>, success: bool) -> (e: Event)
        requires
            old(self).operation_count < u64::MAX,
            !success ==> old(self).error_count < u64::MAX,
        ensures
            final(self).operation_count == old(self).operation_count + 1,
            final(self).error_count == (if success { old(self).error_count as int } else { old(self).error_count + 1 }),
            final(self).user_count == old(self).user_count,
            final(self).performance == old(self).performance,
            e == (Event::OperationMetric { operation, caller, timestamp: now, success }),
    {
        self.operation_count = self.operation_count + 1;
        if !success {
            self.error_count = self.error_count + 1;
        }
        Event::OperationMetric { operation, caller, timestamp: now, success }
    }

    /// Records one call of `function` that took `duration`, and returns the
    /// performance event to emit.
    pub fn emit_performance(&mut self, now: u64, function: u64, duration: u64) -> (e: Event)
        requires
            old(self).counter(function).call_count < u64::MAX,
            old(self).counter(function).total_time + duration <= u64::MAX,
        ensures
            final(self).performance@ == old(self).performance@.insert(function, PerformanceCounter {
                call_count: (old(self).counter(function).call_count + 1) as u64,
                total_time: (old(self).counter(function).total_time + duration) as u64,
            }),
            final(self).operation_count == old(self).operation_count,
            final(self).error_count == old(self).error_count,
            final(self).user_count == old(self).user_count,
            e == (Event::PerformanceMetric { function, duration, timestamp: now }),
    {
        let c = match self.performance.get(&function) {
            Some(c) => *c,
            None => PerformanceCounter { call_count: 0, total_time: 0 },
        };
        self.performance.insert(function, PerformanceCounter {
            call_count: c.call_count + 1,
            total_time: c.total_time + duration,
        });
        Event::PerformanceMetric { function, duration, timestamp: now }
    }

    /// A health report: always healthy, stamped with the ledger time `now`.
    pub fn health_check(&self, now: u64) -> (h: HealthStatus)
        ensures
            h.is_healthy,
            h.last_operation == now,
            h.total_operations == self.operation_count,
            h.contract_version@ == "1.0.0"@,
    {
        HealthStatus {
            is_healthy: true,
            last_operation: now,
            total_operations: self.operation_count,
            contract_version: "1.0.0",
        }
    }

    /// The counters with the error rate.
    pub fn get_analytics(&self) -> (a: Analytics)
        ensures
            a.operation_count == self.operation_count,
            a.unique_users == self.user_count,
            a.error_count == self.error_count,
            a.error_rate == error_rate_of(self.operation_count, self.error_count),
    {
        let ops = self.operation_count;
        let errors = self.error_count;
        let error_rate: u32 = if ops > 0 {
            let scaled: u128 = errors as u128 * 10000;
            (scaled / ops as u128) as u32
        } else {
            0
        };
        Analytics { operation_count: ops, unique_users: self.user_count, error_count: errors, error_rate }
    }

    /// The counters, stamped with the ledger time `now`.
    pub fn get_state_snapshot(&self, now: u64) -> (s: StateSnapshot)
        ensures
            s == (StateSnapshot {
                timestamp: now,
                total_operations: self.operation_count,
                total_users: self.user_count,
                total_errors: self.error_count,
            }),
    {
        StateSnapshot {
            timestamp: now,
            total_operations: self.operation_count,
            total_users: self.user_count,
            total_errors: self.error_count,
        }
    }

    /// The performance counters of `function_name`. No call time is ever
    /// recorded, so `last_called` is 0.
    pub fn get_performance_stats(&self, function_name: u64) -> (p: PerformanceStats)
        ensures
            p.function_name == function_name,
            p.call_count == self.counter(function_name).call_count,
            p.total_time == self.counter(function_name).total_time,
            p.avg_time == (if p.call_count > 0 { p.total_time / p.call_count } else { 0 }),
            p.last_called == 0,
    {
        let c = match self.performance.get(&function_name) {
            Some(c) => *c,
            None => PerformanceCounter { call_count: 0, total_time: 0 },
        };
        let avg = if c.call_count > 0 { c.total_time / c.call_count } else { 0 };
        PerformanceStats {
            function_name,
            call_count: c.call_count,
            total_time: c.total_time,
            avg_time: avg,
            last_called: 0,
        }
    }
}

} // verus!

verus! {

impl BountyEscrowContract {
    /// The operation counters with the error rate.
    pub fn get_analytics(&self) -> (a: Analytics)
        ensures
            a.operation_count == self.metrics.operation_count,
            a.unique_users == self.metrics.user_count,
            a.error_count == self.metrics.error_count,
            a.error_rate == error_rate_of(self.metrics.operation_count, self.metrics.error_count),
    {
        self.metrics.get_analytics()
    }

    /// A health report stamped with the ledger time `now`.
    pub fn health_check(&self, now: u64) -> (h: HealthStatus)
        ensures
            h.is_healthy,
            h.last_operation == now,
            h.total_operations == self.metrics.operation_count,
            h.contract_version@ == "1.0.0"@,
    {
        self.metrics.health_check(now)
    }

    /// The operation counters stamped with the ledger time `now`.
    pub fn get_state_snapshot(&self, now: u64) -> (s: StateSnapshot)
        ensures
            s == (StateSnapshot {
                timestamp: now,
                total_operations: self.metrics.operation_count,
                total_users: self.metrics.user_count,
                total_errors: self.metrics.error_count,
            }),
    {
        self.metrics.get_state_snapshot(now)
    }

    /// The performance counters of the function with symbol code `function_name`.
    pub fn get_performance_stats(&self, function_name: u64) -> (p: PerformanceStats)
        ensures
            p.function_name == function_name,
            p.call_count == self.metrics.counter(function_name).call_count,
            p.total_time == self.metrics.counter(function_name).total_time,
            p.avg_time == (if p.call_count > 0 { p.total_time / p.call_count } else { 0 }),
            p.last_called == 0,
    {
        self.metrics.get_performance_stats(function_name)
    }
}

} // verus!
