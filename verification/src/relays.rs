//! Connectivity as the relays report it: counting what each relay says, and
//! classifying the session from the counts.

use crate::connection::SignerConnection;
use crate::error::Error;
use vstd::prelude::*;

verus! {

/// What one relay says of its connection.
#[derive(Clone, Copy, Debug, PartialEq, Eq)]
pub enum RelayStatus {
    Initialized,
    Connected,
    Connecting,
    Disconnected,
    Terminated,
}

/// Whether the session is connected, as far as the relays tell.
#[derive(Clone, Copy, Debug, PartialEq, Eq)]
pub enum ConnectionStatus {
    NotConnected,
    Connecting,
    Connected,
}

/// How many of the relays are connected.
pub open spec fn connected_count(statuses: Seq<RelayStatus>) -> nat
    decreases statuses.len(),
{
    if statuses.len() == 0 {
        0
    } else {
        connected_count(statuses.drop_last()) + if statuses.last() is Connected {
            1nat
        } else {
            0nat
        }
    }
}

/// How many of the relays are connecting.
pub open spec fn connecting_count(statuses: Seq<RelayStatus>) -> nat
    decreases statuses.len(),
{
    if statuses.len() == 0 {
        0
    } else {
        connecting_count(statuses.drop_last()) + if statuses.last() is Connecting {
            1nat
        } else {
            0nat
        }
    }
}

/// The status of a session from the counts of connected and of connecting
/// relays: connected if at least one relay is, else connecting if at least
/// one relay is, else not connected. Without counts it is not connected.
pub open spec fn status_from(counts: Option<(u32, u32)>) -> ConnectionStatus {
    match counts {
        None => ConnectionStatus::NotConnected,
        Some((connected, connecting)) => if connected > 0 {
            ConnectionStatus::Connected
        } else if connecting > 0 {
            ConnectionStatus::Connecting
        } else {
            ConnectionStatus::NotConnected
        },
    }
}

/// The counts that a query gave, if it gave any.
pub open spec fn counts_of(queried: Result<(u32, u32), Error>) -> Option<(u32, u32)> {
    match queried {
        Ok(counts) => Some(counts),
        Err(_) => None,
    }
}

/// Neither count exceeds the number of relays.
proof fn lemma_counts_bounded(statuses: Seq<RelayStatus>)
    ensures
        connected_count(statuses) <= statuses.len(),
        connecting_count(statuses) <= statuses.len(),
    decreases statuses.len(),
{
    if statuses.len() > 0 {
        lemma_counts_bounded(statuses.drop_last());
    }
}

/// Whether some relay is connected.
pub open spec fn some_connected(statuses: Seq<RelayStatus>) -> bool {
    exists|i: int| 0 <= i < statuses.len() && statuses[i] is Connected
}

/// Whether some relay is connecting.
pub open spec fn some_connecting(statuses: Seq<RelayStatus>) -> bool {
    exists|i: int| 0 <= i < statuses.len() && statuses[i] is Connecting
}

/// A count is positive exactly when some relay is in that state.
proof fn lemma_count_tells_presence(statuses: Seq<RelayStatus>)
    ensures
        connected_count(statuses) > 0 <==> some_connected(statuses),
        connecting_count(statuses) > 0 <==> some_connecting(statuses),
    decreases statuses.len(),
{
    if statuses.len() > 0 {
        let front = statuses.drop_last();
        let last = statuses.len() - 1;
        lemma_count_tells_presence(front);
        if some_connected(statuses) {
            let i = choose|i: int| 0 <= i < statuses.len() && statuses[i] is Connected;
            if i < last {
                assert(front[i] is Connected);
            }
        }
        if some_connecting(statuses) {
            let i = choose|i: int| 0 <= i < statuses.len() && statuses[i] is Connecting;
            if i < last {
                assert(front[i] is Connecting);
            }
        }
    }
}

/// The status that the counts of a session's relays give follows the relays:
/// connected exactly when some relay is connected, connecting exactly when
/// none is connected and some relay is connecting, and not connected
/// otherwise.
pub proof fn lemma_status_follows_relays(statuses: Seq<RelayStatus>, counts: (u32, u32))
    requires
        counts.0 == connected_count(statuses),
        counts.1 == connecting_count(statuses),
    ensures
        status_from(Some(counts)) == ConnectionStatus::Connected <==> some_connected(statuses),
        status_from(Some(counts)) == ConnectionStatus::Connecting <==> !some_connected(statuses)
            && some_connecting(statuses),
        status_from(Some(counts)) == ConnectionStatus::NotConnected <==> !some_connected(statuses)
            && !some_connecting(statuses),
{
    lemma_count_tells_presence(statuses);
}

/// Classifies a session from what a query of its relays gave; a query that
/// failed counts as not connected.
pub fn classify(queried: &Result<(u32, u32), Error>) -> (res: ConnectionStatus)
    ensures
        res == status_from(counts_of(*queried)),
{
    match queried {
        Err(_) => ConnectionStatus::NotConnected,
        Ok((connected, connecting)) => {
            if *connected > 0 {
                ConnectionStatus::Connected
            } else if *connecting > 0 {
                ConnectionStatus::Connecting
            } else {
                ConnectionStatus::NotConnected
            }
        },
    }
}

impl SignerConnection {
    /// Counts the relays that are connected and those that are connecting,
    /// from what each relay says.
    pub fn get_connected_count_bg(statuses: &Vec<RelayStatus>) -> (res: (u32, u32))
        requires
            statuses@.len() <= u32::MAX,
        ensures
            res.0 == connected_count(statuses@),
            res.1 == connecting_count(statuses@),
    {
        let mut connected: u32 = 0;
        let mut connecting: u32 = 0;
        let mut i: usize = 0;
        while i < statuses.len()
            invariant
                i <= statuses@.len() <= u32::MAX,
                connected == connected_count(statuses@.take(i as int)),
                connecting == connecting_count(statuses@.take(i as int)),
            decreases statuses@.len() - i,
        {
            proof {
                lemma_counts_bounded(statuses@.take(i as int));
                assert(statuses@.take(i + 1).drop_last() =~= statuses@.take(i as int));
            }
            match statuses[i] {
                RelayStatus::Connected => {
                    connected = connected + 1;
                },
                RelayStatus::Connecting => {
                    connecting = connecting + 1;
                },
                _ => {},
            }
            i = i + 1;
        }
        assert(statuses@.take(i as int) =~= statuses@);
        (connected, connecting)
    }

    /// Takes the counts that the background query handed over, or reports
    /// that the hand-over failed: `received` is `None` where the channel
    /// broke before the counts arrived.
    pub fn get_connected_count(received: Option<(u32, u32)>) -> (res: Result<(u32, u32), Error>)
        ensures
            res == match received {
                Some(counts) => Ok::<(u32, u32), Error>(counts),
                None => Err(Error::InternalEventQueueReceive),
            },
    {
        match received {
            Some(counts) => Ok(counts),
            None => Err(Error::InternalEventQueueReceive),
        }
    }
}

} // verus!
