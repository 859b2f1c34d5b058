use vstd::prelude::*;

verus! {

/// The count of WebSocket connections made so far, and how many players
/// may join; each new connection gets the current count as its player number.
pub struct ConnectionCounter {
    pub player_count: u8,
    pub max_player_count: u8,
}

/// What a connection knows of itself: its player number and the limit.
pub struct ConnectionSlot {
    pub player_count: u8,
    pub max_player_count: u8,
}

/// The counter after a connection was made.
pub open spec fn after_connection_made(c: ConnectionCounter) -> ConnectionCounter {
    ConnectionCounter { player_count: (c.player_count + 1) as u8, max_player_count: c.max_player_count }
}

/// The counter after a connection was lost.
pub open spec fn after_connection_lost(c: ConnectionCounter) -> ConnectionCounter {
    ConnectionCounter { player_count: (c.player_count - 1) as u8, max_player_count: c.max_player_count }
}

impl ConnectionCounter {
    pub fn new(player_count: u8, max_player_count: u8) -> (r: ConnectionCounter)
        ensures
            r.player_count == player_count,
            r.max_player_count == max_player_count,
    {
        ConnectionCounter { player_count, max_player_count }
    }

    /// A connection was made: it gets the current count as its player number,
    /// and the count goes up by one.
    pub fn connection_made(&mut self) -> (slot: ConnectionSlot)
        requires
            old(self).player_count < u8::MAX,
        ensures
            slot.player_count == old(self).player_count,
            slot.max_player_count == old(self).max_player_count,
            *final(self) == after_connection_made(*old(self)),
    {
        let slot = ConnectionSlot { player_count: self.player_count, max_player_count: self.max_player_count };
        self.player_count = self.player_count + 1;
        slot
    }

    /// A connection was lost: the count goes down by one.
    pub fn connection_lost(&mut self)
        requires
            old(self).player_count > 0,
        ensures
            *final(self) == after_connection_lost(*old(self)),
    {
        self.player_count = self.player_count - 1;
    }
}

impl ConnectionSlot {
    /// Whether a newly opened connection is to be closed: when its player
    /// number is past the limit.
    pub fn on_open(&self) -> (close: bool)
        ensures
            close == (self.player_count > self.max_player_count),
    {
        self.player_count > self.max_player_count
    }
}

/// A connection made and then lost leaves the counter as it was.
pub proof fn lemma_made_then_lost(c: ConnectionCounter)
    requires
        c.player_count < u8::MAX,
    ensures
        after_connection_lost(after_connection_made(c)) == c,
{
}

/// Of the connections made in turn on a counter that starts at `start`, the
/// one made after `k` others is closed on opening exactly when `start + k`
/// passes the limit: the count after `k` connections is `start + k`.
pub proof fn lemma_kth_connection(c: ConnectionCounter, k: nat)
    requires
        c.player_count + k <= u8::MAX,
    ensures
        made_n_times(c, k).player_count == c.player_count + k,
        made_n_times(c, k).max_player_count == c.max_player_count,
        (made_n_times(c, k).player_count > made_n_times(c, k).max_player_count) <==> (c.player_count + k
            > c.max_player_count),
    decreases k,
{
    if k > 0 {
        lemma_kth_connection(c, (k - 1) as nat);
    }
}

/// The counter after `k` connections were made.
pub open spec fn made_n_times(c: ConnectionCounter, k: nat) -> ConnectionCounter
    decreases k,
{
    if k == 0 {
        c
    } else {
        after_connection_made(made_n_times(c, (k - 1) as nat))
    }
}

/// The counter after a history of connections made (`true`) and lost (`false`).
pub open spec fn after_events(c: ConnectionCounter, events: Seq<bool>) -> ConnectionCounter
    decreases events.len(),
{
    if events.len() == 0 {
        c
    } else {
        let before = after_events(c, events.drop_last());
        if events.last() {
            after_connection_made(before)
        } else {
            after_connection_lost(before)
        }
    }
}

/// Connections made minus connections lost in a history.
pub open spec fn net_connections(events: Seq<bool>) -> int
    decreases events.len(),
{
    if events.len() == 0 {
        0
    } else {
        net_connections(events.drop_last()) + (if events.last() { 1int } else { -1int })
    }
}

/// A history where every step is allowed: no connection is made at count
/// 255 and none is lost at count 0.
pub open spec fn events_allowed(c: ConnectionCounter, events: Seq<bool>) -> bool {
    forall|k: int|
        0 <= k < events.len() ==> 0 <= c.player_count + #[trigger] net_connections(events.take(k + 1))
            <= u8::MAX
}

/// After any allowed history of connections made and lost, the count is the
/// starting count plus those made minus those lost, and the limit is unchanged.
pub proof fn lemma_history(c: ConnectionCounter, events: Seq<bool>)
    requires
        events_allowed(c, events),
    ensures
        after_events(c, events).player_count == c.player_count + net_connections(events),
        after_events(c, events).max_player_count == c.max_player_count,
    decreases events.len(),
{
    if events.len() > 0 {
        let prev = events.drop_last();
        assert forall|k: int| 0 <= k < prev.len() implies 0 <= c.player_count + #[trigger] net_connections(
            prev.take(k + 1),
        ) <= u8::MAX by {
            assert(prev.take(k + 1) =~= events.take(k + 1));
        }
        lemma_history(c, prev);
        let k = events.len() - 1;
        assert(0 <= c.player_count + net_connections(events.take(k + 1)) <= u8::MAX);
        assert(events.take(k + 1) =~= events);
    }
}

} // verus!
