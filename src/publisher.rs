use vstd::prelude::*;

use crate::codec::Event;
use crate::service::ServiceName;

verus! {

/// The id that the event at `position` in a publisher's buffer carries: ids count up from zero
/// and wrap after `u32::MAX`.
pub open spec fn id_at(position: int) -> u32 {
    (position % 0x1_0000_0000) as u32
}

/// The entries of `subs` whose flag equals `want`, in order.
pub open spec fn kept(subs: Seq<u64>, flags: Seq<bool>, want: bool) -> Seq<u64>
    decreases subs.len(),
{
    if subs.len() == 0 || flags.len() == 0 {
        Seq::empty()
    } else {
        let rest = kept(subs.drop_last(), flags.drop_last(), want);
        if flags.last() == want {
            rest.push(subs.last())
        } else {
            rest
        }
    }
}

proof fn lemma_kept(subs: Seq<u64>, flags: Seq<bool>, want: bool)
    requires
        subs.len() == flags.len(),
    ensures
        forall|x: u64| #[trigger]
            kept(subs, flags, want).contains(x) ==> exists|i: int|
                0 <= i < subs.len() && subs[i] == x && flags[i] == want,
        subs.no_duplicates() ==> kept(subs, flags, want).no_duplicates(),
    decreases subs.len(),
{
    if subs.len() > 0 {
        let rest = kept(subs.drop_last(), flags.drop_last(), want);
        lemma_kept(subs.drop_last(), flags.drop_last(), want);
        assert forall|x: u64| #[trigger] kept(subs, flags, want).contains(x) implies exists|i: int|
            0 <= i < subs.len() && subs[i] == x && flags[i] == want by {
            if rest.contains(x) {
                let i = choose|i: int|
                    0 <= i < subs.drop_last().len() && subs.drop_last()[i] == x
                        && flags.drop_last()[i] == want;
                assert(subs[i] == x && flags[i] == want);
            } else {
                assert(subs[subs.len() - 1] == x);
            }
        }
        if subs.no_duplicates() && flags.last() == want {
            if rest.contains(subs.last()) {
                let i = choose|i: int|
                    0 <= i < subs.drop_last().len() && subs.drop_last()[i] == subs.last()
                        && flags.drop_last()[i] == want;
                assert(subs[i] == subs[subs.len() - 1]);
            }
            assert(subs.drop_last().no_duplicates());
            let k = rest.push(subs.last());
            assert forall|a: int, b: int| 0 <= a < b < k.len() implies k[a] != k[b] by {
                if b == k.len() - 1 {
                    assert(rest.contains(k[a]));
                }
            }
        } else if subs.no_duplicates() {
            assert(subs.drop_last().no_duplicates());
        }
    }
}

proof fn lemma_kept_contains(subs: Seq<u64>, flags: Seq<bool>, i: int)
    requires
        subs.len() == flags.len(),
        0 <= i < subs.len(),
        flags[i],
    ensures
        kept(subs, flags, true).contains(subs[i]),
    decreases subs.len(),
{
    let rest = kept(subs.drop_last(), flags.drop_last(), true);
    if i == subs.len() - 1 {
        assert(kept(subs, flags, true) == rest.push(subs.last()));
        assert(kept(subs, flags, true)[rest.len() as int] == subs[i]);
    } else {
        lemma_kept_contains(subs.drop_last(), flags.drop_last(), i);
        let k = choose|k: int| 0 <= k < rest.len() && rest[k] == subs[i];
        if flags.last() {
            assert(kept(subs, flags, true)[k] == subs[i]);
        } else {
            assert(kept(subs, flags, true)[k] == subs[i]);
        }
    }
}

/// The publishing side of one service: the replay buffer of every event published so far, and
/// the subscribers that have received all of it.
///
/// Socket work stays with the caller: it writes the events that this state names, and reports
/// back which writes succeeded. Each peer is known by an id that this state hands out.
pub struct ServicePublisher {
    service_name: ServiceName,
    subscribers: Vec<u64>,
    buffer: Vec<Event<Vec<u8>>>,
    next_id: u32,
    next_peer: u64,
    received: Ghost<Map<u64, Seq<Event<Vec<u8>>>>>,
}

impl ServicePublisher {
    /// Every event published so far, in publish order.
    pub closed spec fn buffer_view(&self) -> Seq<Event<Vec<u8>>> {
        self.buffer@
    }

    /// The ids of the attached subscribers, in order of attachment.
    pub closed spec fn subscribers_view(&self) -> Seq<u64> {
        self.subscribers@
    }

    /// For each peer ever accepted, the events written to it successfully, in order.
    pub closed spec fn received_view(&self) -> Map<u64, Seq<Event<Vec<u8>>>> {
        self.received@
    }

    /// How many peer ids have been handed out; the next peer gets this one.
    pub closed spec fn peers_issued(&self) -> nat {
        self.next_peer as nat
    }

    /// The service this publisher serves.
    pub closed spec fn service_view(&self) -> ServiceName {
        self.service_name
    }

    /// The publisher's invariant.
    pub closed spec fn wf(&self) -> bool {
        &&& forall|i: int| 0 <= i < self.buffer@.len() ==> #[trigger] self.buffer@[i].id == id_at(i)
        &&& self.next_id == id_at(self.buffer@.len() as int)
        &&& self.subscribers@.no_duplicates()
        &&& forall|i: int|
            0 <= i < self.subscribers@.len() ==> #[trigger] self.received@.dom().contains(
                self.subscribers@[i],
            ) && self.received@[self.subscribers@[i]] == self.buffer@
        &&& forall|p: u64| #[trigger]
            self.received@.dom().contains(p) ==> p < self.next_peer
                && self.received@[p].len() <= self.buffer@.len()
                && self.received@[p] == self.buffer@.subrange(0, self.received@[p].len() as int)
    }

    /// What any peer has received is a contiguous prefix of the buffer, starting at its first
    /// event: no gaps, no duplicates, no reordering.
    pub proof fn lemma_received_prefix(&self, p: u64)
        requires
            self.wf(),
            self.received_view().dom().contains(p),
        ensures
            self.received_view()[p].len() <= self.buffer_view().len(),
            self.received_view()[p] == self.buffer_view().subrange(
                0,
                self.received_view()[p].len() as int,
            ),
    {
    }

    /// No subscriber is attached twice.
    pub proof fn lemma_subscribers_distinct(&self)
        requires
            self.wf(),
        ensures
            self.subscribers_view().no_duplicates(),
    {
    }

    /// An attached subscriber has received every event published so far, each once, in
    /// publish order.
    pub proof fn lemma_subscriber_current(&self, i: int)
        requires
            self.wf(),
            0 <= i < self.subscribers_view().len(),
        ensures
            self.received_view().dom().contains(self.subscribers_view()[i]),
            self.received_view()[self.subscribers_view()[i]] == self.buffer_view(),
    {
        assert(self.received@.dom().contains(self.subscribers@[i]));
    }

    /// Event ids count publish positions modulo 2^32: the id after `u32::MAX` is 0, and the
    /// order of events is their buffer order, whatever their ids.
    pub proof fn lemma_ids_wrap(&self, i: int)
        requires
            self.wf(),
            0 <= i < self.buffer_view().len(),
        ensures
            self.buffer_view()[i].id == id_at(i),
            i + 1 < self.buffer_view().len() ==> self.buffer_view()[i + 1].id == if self.buffer_view()[i].id
                == u32::MAX {
                0
            } else {
                (self.buffer_view()[i].id + 1) as u32
            },
    {
        assert((i + 1) % 0x1_0000_0000 == if i % 0x1_0000_0000 == 0xFFFF_FFFF {
            0
        } else {
            i % 0x1_0000_0000 + 1
        }) by (nonlinear_arith)
            requires
                i >= 0,
        ;
        if i + 1 < self.buffer_view().len() {
            assert(self.buffer@[i + 1].id == id_at(i + 1));
        }
    }

    /// A publisher for `service_name` with an empty buffer and no subscribers.
    pub fn new(service_name: ServiceName) -> (r: ServicePublisher)
        ensures
            r.wf(),
            r.service_view() == service_name,
            r.buffer_view() == Seq::<Event<Vec<u8>>>::empty(),
            r.subscribers_view() == Seq::<u64>::empty(),
            r.received_view() == Map::<u64, Seq<Event<Vec<u8>>>>::empty(),
            r.peers_issued() == 0,
    {
        ServicePublisher {
            service_name,
            subscribers: Vec::new(),
            buffer: Vec::new(),
            next_id: 0,
            next_peer: 0,
            received: Ghost(Map::empty()),
        }
    }

    /// The service this publisher serves.
    pub fn service_name(&self) -> (r: ServiceName)
        ensures
            r == self.service_view(),
    {
        self.service_name
    }

    /// The number of events published so far.
    pub fn buffer_len(&self) -> (r: usize)
        ensures
            r == self.buffer_view().len(),
    {
        self.buffer.len()
    }

    /// The event at `i` in publish order.
    pub fn event_at(&self, i: usize) -> (r: &Event<Vec<u8>>)
        requires
            i < self.buffer_view().len(),
        ensures
            *r == self.buffer_view()[i as int],
    {
        &self.buffer[i]
    }

    /// The ids of the attached subscribers, in order of attachment.
    pub fn subscriber_ids(&self) -> (r: Vec<u64>)
        ensures
            r@ == self.subscribers_view(),
    {
        let mut out: Vec<u64> = Vec::new();
        let mut i: usize = 0;
        while i < self.subscribers.len()
            invariant
                i <= self.subscribers@.len(),
                out@ == self.subscribers@.subrange(0, i as int),
            decreases self.subscribers@.len() - i,
        {
            out.push(self.subscribers[i]);
            i = i + 1;
            assert(out@ =~= self.subscribers@.subrange(0, i as int));
        }
        assert(out@ =~= self.subscribers@);
        out
    }

    /// The id the next published event must carry.
    pub fn next_event_id(&self) -> (r: u32)
        requires
            self.wf(),
        ensures
            r == id_at(self.buffer_view().len() as int),
    {
        self.next_id
    }

    /// Records that `event` was published: the caller wrote it to each attached subscriber, in
    /// order, and `delivered[i]` says whether the write to the i-th one succeeded. The event
    /// joins the buffer; each subscriber whose write succeeded has now received it, once and
    /// after all earlier events; the others are pruned, receive nothing more, and are returned.
    pub fn publish(&mut self, event: Event<Vec<u8>>, delivered: &Vec<bool>) -> (pruned: Vec<u64>)
        requires
            old(self).wf(),
            delivered@.len() == old(self).subscribers_view().len(),
            event.id == id_at(old(self).buffer_view().len() as int),
        ensures
            final(self).wf(),
            final(self).service_view() == old(self).service_view(),
            final(self).peers_issued() == old(self).peers_issued(),
            final(self).buffer_view() == old(self).buffer_view().push(event),
            final(self).subscribers_view() == kept(old(self).subscribers_view(), delivered@, true),
            forall|i: int|
                0 <= i < old(self).subscribers_view().len() ==> (final(self).subscribers_view().contains(
                    #[trigger] old(self).subscribers_view()[i],
                ) <==> delivered@[i]),
            pruned@ == kept(old(self).subscribers_view(), delivered@, false),
            final(self).received_view().dom() == old(self).received_view().dom(),
            forall|i: int|
                0 <= i < old(self).subscribers_view().len() ==> #[trigger] final(self).received_view()[old(self).subscribers_view()[i]] == if delivered@[i] {
                    old(self).received_view()[old(self).subscribers_view()[i]].push(event)
                } else {
                    old(self).received_view()[old(self).subscribers_view()[i]]
                },
            forall|p: u64|
                #![trigger final(self).received_view()[p]]
                old(self).received_view().dom().contains(p) && !old(self).subscribers_view().contains(p) ==> final(self).received_view()[p] == old(self).received_view()[p],
    {
        let ghost subs = self.subscribers@;
        let ghost flags = delivered@;
        let ghost old_received = self.received@;
        let ghost old_buffer = self.buffer@;
        let mut kept_ids: Vec<u64> = Vec::new();
        let mut pruned_ids: Vec<u64> = Vec::new();
        let n = self.subscribers.len();
        let mut i: usize = 0;
        while i < n
            invariant
                n == subs.len(),
                flags.len() == n,
                self.subscribers@ == subs,
                self.buffer@ == old_buffer,
                self.next_id == old(self).next_id,
                self.next_peer == old(self).next_peer,
                self.service_name == old(self).service_name,
                delivered@ == flags,
                subs.no_duplicates(),
                forall|j: int|
                    0 <= j < n ==> #[trigger] old_received.dom().contains(subs[j])
                        && old_received[subs[j]] == old_buffer,
                i <= n,
                kept_ids@ == kept(subs.subrange(0, i as int), flags.subrange(0, i as int), true),
                pruned_ids@ == kept(subs.subrange(0, i as int), flags.subrange(0, i as int), false),
                self.received@.dom() == old_received.dom(),
                forall|j: int|
                    0 <= j < i ==> #[trigger] self.received@[subs[j]] == if flags[j] {
                        old_received[subs[j]].push(event)
                    } else {
                        old_received[subs[j]]
                    },
                forall|j: int| i <= j < n ==> #[trigger] self.received@[subs[j]] == old_received[subs[j]],
                forall|p: u64|
                    #![trigger self.received@[p]]
                    old_received.dom().contains(p) && !subs.contains(p) ==> self.received@[p]
                        == old_received[p],
            decreases n - i,
        {
            let peer = self.subscribers[i];
            assert(subs.subrange(0, i + 1).drop_last() =~= subs.subrange(0, i as int));
            assert(flags.subrange(0, i + 1).drop_last() =~= flags.subrange(0, i as int));
            if delivered[i] {
                kept_ids.push(peer);
                self.received = Ghost(
                    self.received@.insert(peer, old_received[peer].push(event)),
                );
            } else {
                pruned_ids.push(peer);
            }
            proof {
                assert(old_received.dom().contains(peer));
                assert forall|j: int| 0 <= j < n && j != i implies subs[j] != peer by {}
            }
            i = i + 1;
        }
        assert(subs.subrange(0, n as int) =~= subs);
        assert(flags.subrange(0, n as int) =~= flags);
        proof {
            lemma_kept(subs, flags, true);
            assert forall|i: int| 0 <= i < subs.len() implies (kept_ids@.contains(#[trigger] subs[i])
                <==> flags[i]) by {
                if kept_ids@.contains(subs[i]) {
                    let j = choose|j: int| 0 <= j < subs.len() && subs[j] == subs[i] && flags[j] == true;
                    assert(j == i);
                }
                if flags[i] {
                    lemma_kept_contains(subs, flags, i);
                }
            }
        }
        let len = self.buffer.len();
        self.buffer.push(event);
        self.next_id = if self.next_id == u32::MAX {
            0
        } else {
            self.next_id + 1
        };
        self.subscribers = kept_ids;
        proof {
            let l = len as int;
            assert((l + 1) % 0x1_0000_0000 == if l % 0x1_0000_0000 == 0xFFFF_FFFF {
                0
            } else {
                l % 0x1_0000_0000 + 1
            }) by (nonlinear_arith)
                requires
                    l >= 0,
            ;
            assert(self.next_id == id_at(self.buffer@.len() as int));
            assert forall|k: int| 0 <= k < self.buffer@.len() implies #[trigger] self.buffer@[k].id
                == id_at(k) by {
                if k < len {
                    assert(self.buffer@[k] == old_buffer[k]);
                }
            }
            assert forall|k: int| 0 <= k < self.subscribers@.len() implies #[trigger]
                self.received@.dom().contains(self.subscribers@[k])
                    && self.received@[self.subscribers@[k]] == self.buffer@ by {
                let x = self.subscribers@[k];
                assert(self.subscribers@.contains(x));
                let j = choose|j: int| 0 <= j < subs.len() && subs[j] == x && flags[j] == true;
                assert(self.received@[subs[j]] == old_received[subs[j]].push(event));
                assert(old_received[x] == old_buffer);
                assert(self.buffer@ =~= old_buffer.push(event));
            }
            assert forall|p: u64| #[trigger] self.received@.dom().contains(p) implies p
                < self.next_peer && self.received@[p].len() <= self.buffer@.len()
                && self.received@[p] == self.buffer@.subrange(0, self.received@[p].len() as int) by {
                assert(old_received.dom().contains(p));
                let r = old_received[p];
                assert(p < self.next_peer);
                assert(r == old_buffer.subrange(0, r.len() as int));
                if subs.contains(p) {
                    let j = choose|j: int| 0 <= j < subs.len() && subs[j] == p;
                    assert(old_received[subs[j]] == old_buffer);
                    if flags[j] {
                        assert(self.received@[p] =~= self.buffer@.subrange(0, self.buffer@.len() as int));
                    } else {
                        assert(self.received@[p] =~= self.buffer@.subrange(0, r.len() as int));
                    }
                } else {
                    assert(self.received@[p] =~= self.buffer@.subrange(0, r.len() as int));
                }
            }
        }
        pruned_ids
    }

    /// Records a new peer after the caller wrote it the first `written` events of the buffer,
    /// in order, each write succeeding. The peer is attached, under a fresh id that is returned,
    /// exactly when it has received the whole buffer. Otherwise it is dropped.
    pub fn attach(&mut self, written: usize) -> (r: Option<u64>)
        requires
            old(self).wf(),
            written <= old(self).buffer_view().len(),
        ensures
            final(self).wf(),
            final(self).service_view() == old(self).service_view(),
            final(self).buffer_view() == old(self).buffer_view(),
            r is Some <==> written == old(self).buffer_view().len() && old(self).peers_issued()
                < u64::MAX,
            r matches Some(p) ==> p == old(self).peers_issued(),
            old(self).peers_issued() < u64::MAX ==> final(self).peers_issued() == old(
                self,
            ).peers_issued() + 1,
            written == old(self).buffer_view().len() && r is None ==> final(self).subscribers_view()
                == old(self).subscribers_view(),
            r matches Some(p) ==> {
                &&& !old(self).received_view().dom().contains(p)
                &&& final(self).subscribers_view() == old(self).subscribers_view().push(p)
                &&& final(self).received_view() == old(self).received_view().insert(
                    p,
                    old(self).buffer_view(),
                )
            },
            written < old(self).buffer_view().len() ==> final(self).subscribers_view() == old(self).subscribers_view(),
    {
        if self.next_peer == u64::MAX {
            return None;
        }
        let peer = self.next_peer;
        let ghost old_subs = self.subscribers@;
        let ghost old_received = self.received@;
        proof {
            assert forall|i: int| 0 <= i < self.subscribers@.len() implies #[trigger]
                self.subscribers@[i] < peer by {
                assert(self.received@.dom().contains(self.subscribers@[i]));
            }
        }
        self.next_peer = self.next_peer + 1;
        let ghost prefix = self.buffer@.subrange(0, written as int);
        self.received = Ghost(self.received@.insert(peer, prefix));
        if written == self.buffer.len() {
            assert(prefix =~= self.buffer@);
            assert(!self.subscribers@.contains(peer));
            self.subscribers.push(peer);
            proof {
                assert forall|i: int| 0 <= i < self.subscribers@.len() implies #[trigger]
                    self.received@.dom().contains(self.subscribers@[i])
                        && self.received@[self.subscribers@[i]] == self.buffer@ by {
                    if i < self.subscribers@.len() - 1 {
                        assert(self.subscribers@[i] == old_subs[i]);
                        assert(old_received.dom().contains(old_subs[i]));
                        assert(old_subs[i] < peer);
                        assert(self.subscribers@[i] != peer);
                    }
                }
            }
            Some(peer)
        } else {
            proof {
                assert forall|i: int| 0 <= i < self.subscribers@.len() implies #[trigger]
                    self.received@.dom().contains(self.subscribers@[i])
                        && self.received@[self.subscribers@[i]] == self.buffer@ by {
                    assert(self.subscribers@[i] != peer);
                }
            }
            None
        }
    }
}

} // verus!
