use vstd::prelude::*;
use crate::bytes::le_u32_at;
use crate::messages::{TimerMigrationMsg, TIMER_MIGRATION_MSG_SIZE};

verus! {

/// A timer that fired on another CPU than the one it was pinned to: the
/// measurements can no longer be trusted and the collector must stop.
#[derive(Debug, Clone, Copy, PartialEq, Eq, Structural)]
pub struct TimerMigration {
    pub expected_cpu: u32,
    pub actual_cpu: u32,
}

/// Handles the producer's error reports: timer migrations and lost records.
pub struct BpfErrorHandler {
    lost_notifications: u64,
}

impl BpfErrorHandler {
    pub closed spec fn spec_lost(&self) -> u64 {
        self.lost_notifications
    }

    pub fn new() -> (r: Self)
        ensures
            r.spec_lost() == 0,
    {
        BpfErrorHandler { lost_notifications: 0 }
    }

    /// Decodes a timer migration sample. A decoded migration is fatal: the
    /// caller reports both CPUs and terminates. A sample too short to decode
    /// gives `None`.
    pub fn handle_timer_migration(&self, ring_index: usize, data: &[u8]) -> (r: Option<
        TimerMigration,
    >)
        ensures
            r is None <==> data@.len() < TIMER_MIGRATION_MSG_SIZE,
            r matches Some(m) ==> m.expected_cpu == le_u32_at(data@, 16) && m.actual_cpu
                == le_u32_at(data@, 20),
    {
        match TimerMigrationMsg::parse(data) {
            Some(event) => Some(
                TimerMigration { expected_cpu: event.expected_cpu, actual_cpu: event.actual_cpu },
            ),
            None => None,
        }
    }

    /// Counts a lost-records notification from ring `ring_index`.
    pub fn handle_lost_events(&mut self, ring_index: usize, data: &[u8])
        ensures
            final(self).spec_lost() == if old(self).spec_lost() < u64::MAX {
                (old(self).spec_lost() + 1) as u64
            } else {
                u64::MAX
            },
    {
        if self.lost_notifications < u64::MAX {
            self.lost_notifications = self.lost_notifications + 1;
        }
    }

    /// Number of lost-records notifications seen.
    pub fn lost_notifications(&self) -> (r: u64)
        ensures
            r == self.spec_lost(),
    {
        self.lost_notifications
    }
}

} // verus!
