//! Plain counters for connections and messages.
//!
//! The surrounding program owns their export; the library only counts.
//! The counters saturate instead of wrapping: at the top of the range
//! a further event leaves them unchanged.

use vstd::prelude::*;

verus! {

/// Connection and message counters.
pub struct Metrics {
    pub active_connections: usize,
    pub messages_processed: usize,
}

impl Metrics {
    /// Fresh counters, both at zero.
    pub fn new() -> (r: Self)
        ensures
            r.active_connections == 0,
            r.messages_processed == 0,
    {
        Metrics { active_connections: 0, messages_processed: 0 }
    }

    /// Counts one more connection.
    pub fn record_connection(&mut self)
        ensures
            old(self).active_connections < usize::MAX ==> final(self).active_connections == old(
                self,
            ).active_connections + 1,
            old(self).active_connections == usize::MAX ==> final(self).active_connections
                == usize::MAX,
            final(self).messages_processed == old(self).messages_processed,
    {
        if self.active_connections < usize::MAX {
            self.active_connections = self.active_connections + 1;
        }
    }

    /// Counts one more processed message.
    pub fn record_message(&mut self)
        ensures
            old(self).messages_processed < usize::MAX ==> final(self).messages_processed == old(
                self,
            ).messages_processed + 1,
            old(self).messages_processed == usize::MAX ==> final(self).messages_processed
                == usize::MAX,
            final(self).active_connections == old(self).active_connections,
    {
        if self.messages_processed < usize::MAX {
            self.messages_processed = self.messages_processed + 1;
        }
    }
}

} // verus!
