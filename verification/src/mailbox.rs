//! The agent/relay command mailbox: two FIFO queues of opaque messages, one
//! for each direction across the agent/relay boundary. The agent enqueues
//! egress commands and drains ingress ones; an external bridging task does
//! the opposite. Insertion order equals delivery order within each queue.

use std::collections::VecDeque;
use vstd::prelude::*;
use crate::endpoint::SocketEndpoint;

verus! {

/// Upper bound on the STUN payload a relayed-response command can carry.
pub const MAX_STUN_DATA: usize = 1500;

/// A unit of work crossing the agent/relay boundary. Created by whichever
/// side originates the action; consumed exactly once by the other side.
#[derive(Debug)]
pub enum IceCommands {
    StunRequest { data: String, from: SocketEndpoint, to: SocketEndpoint },
    StunResponse { data: [u8; MAX_STUN_DATA], len: usize, from: SocketEndpoint },
    OpenSocket { addr: SocketEndpoint },
}

/// The command mailbox itself. The caller that shares it across tasks wraps
/// it in its own lock; one critical section covers both queues.
pub struct AgentExternal {
    pub egress_msg: VecDeque<String>,
    pub ingress_msg: VecDeque<String>,
}

impl AgentExternal {
    /// A mailbox with both queues empty.
    pub fn new() -> (r: AgentExternal)
        ensures
            r.egress_msg@ == Seq::<String>::empty(),
            r.ingress_msg@ == Seq::<String>::empty(),
    {
        AgentExternal { egress_msg: VecDeque::new(), ingress_msg: VecDeque::new() }
    }

    /// Agent side: append one command to the back of the egress queue.
    pub fn send_message(&mut self, message: String)
        ensures
            final(self).egress_msg@ == old(self).egress_msg@.push(message),
            final(self).ingress_msg@ == old(self).ingress_msg@,
    {
        self.egress_msg.push_back(message);
    }

    /// Agent side: pop the front of the ingress queue if non-empty. An empty
    /// queue is a normal empty result, not an error.
    pub fn get_message(&mut self) -> (r: Option<String>)
        ensures
            old(self).ingress_msg@.len() == 0 ==> r is None
                && final(self).ingress_msg@ == old(self).ingress_msg@,
            old(self).ingress_msg@.len() > 0 ==> r == Some(old(self).ingress_msg@[0])
                && final(self).ingress_msg@
                    == old(self).ingress_msg@.subrange(1, old(self).ingress_msg@.len() as int),
            final(self).egress_msg@ == old(self).egress_msg@,
    {
        self.ingress_msg.pop_front()
    }

    /// Bridging side: deliver one inbound relay message to the back of the
    /// ingress queue.
    pub fn push_ingress(&mut self, message: String)
        ensures
            final(self).ingress_msg@ == old(self).ingress_msg@.push(message),
            final(self).egress_msg@ == old(self).egress_msg@,
    {
        self.ingress_msg.push_back(message);
    }

    /// Bridging side: take the oldest pending egress command, if any.
    pub fn pop_egress(&mut self) -> (r: Option<String>)
        ensures
            old(self).egress_msg@.len() == 0 ==> r is None
                && final(self).egress_msg@ == old(self).egress_msg@,
            old(self).egress_msg@.len() > 0 ==> r == Some(old(self).egress_msg@[0])
                && final(self).egress_msg@
                    == old(self).egress_msg@.subrange(1, old(self).egress_msg@.len() as int),
            final(self).ingress_msg@ == old(self).ingress_msg@,
    {
        self.egress_msg.pop_front()
    }
}

/// FIFO law, enqueue side: appending the messages of `xs` one by one onto a
/// queue holding `q` leaves the queue holding `q` followed by `xs`, in order.
pub proof fn lemma_sends_append_in_order(q: Seq<String>, xs: Seq<String>)
    ensures
        xs.fold_left(q, |acc: Seq<String>, m: String| acc.push(m)) == q + xs,
    decreases xs.len(),
{
    let f = |acc: Seq<String>, m: String| acc.push(m);
    if xs.len() == 0 {
        assert(xs.fold_left(q, f) == q);
        assert(q + xs =~= q);
    } else {
        lemma_sends_append_in_order(q, xs.drop_last());
        assert(xs.fold_left(q, f) == f(xs.drop_last().fold_left(q, f), xs.last()));
        assert((q + xs.drop_last()).push(xs.last()) =~= q + xs);
    }
}

/// FIFO law, dequeue side: when a queue holds `s` and `k` messages have
/// already been popped off its front, the next pop returns `s[k]` and leaves
/// the messages after it; delivery order equals insertion order.
pub proof fn lemma_receive_in_order(s: Seq<String>, k: int)
    requires
        0 <= k < s.len(),
    ensures
        s.subrange(k, s.len() as int)[0] == s[k],
        s.subrange(k, s.len() as int).subrange(1, s.len() - k) == s.subrange(k + 1, s.len() as int),
{
    assert(s.subrange(k, s.len() as int).subrange(1, s.len() - k) =~= s.subrange(
        k + 1,
        s.len() as int,
    ));
}

} // verus!
