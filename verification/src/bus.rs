use vstd::prelude::*;
use crate::asr::TranscriptResult;

verus! {

// Fan-out of pipeline events to subscribers goes through a bounded
// broadcast log with a fixed backlog depth. Every subscriber holds its own
// cursor into the log; events are copied on read, so no subscriber can
// mutate another's view. A subscriber that falls more than the backlog
// behind observes an explicit missed count and is resynchronized to the
// oldest retained event; events are never skipped silently.

/// The kind tag of a terminal suggestion event.
#[derive(Clone, Copy, Debug, PartialEq, Eq, Structural)]
pub enum SuggestionKind {
    /// A generated suggestion.
    Generated,
    /// The guardrail gate denied the turn; this is a terminal outcome,
    /// not an error.
    PolicyBlocked,
    /// The turn was skipped because of a per-turn engine failure; the
    /// content carries the reason.
    Skipped,
}

/// The terminal artifact delivered to subscribers.
#[derive(Debug)]
pub struct SuggestionEvent {
    pub id: String,
    pub content: String,
    pub kind: SuggestionKind,
    pub confidence_pct: u8,
}

impl Clone for SuggestionEvent {
    fn clone(&self) -> (r: Self)
        ensures
            r == *self,
    {
        SuggestionEvent {
            id: self.id.clone(),
            content: self.content.clone(),
            kind: self.kind,
            confidence_pct: self.confidence_pct,
        }
    }
}

/// One event carried by a broadcast stage.
#[derive(Debug)]
pub enum PipelineEvent {
    Transcript(TranscriptResult),
    Suggestion(SuggestionEvent),
}

impl Clone for PipelineEvent {
    fn clone(&self) -> (r: Self)
        ensures
            r == *self,
    {
        match self {
            PipelineEvent::Transcript(t) => PipelineEvent::Transcript(t.clone()),
            PipelineEvent::Suggestion(s) => PipelineEvent::Suggestion(s.clone()),
        }
    }
}

/// A subscriber's cursor: the position in the publish order of the next
/// event it will read.
#[derive(Clone, Copy, Debug, PartialEq, Eq, Structural)]
pub struct Subscription {
    pub next: u64,
}

/// What one poll of a subscription yields.
#[derive(Debug)]
pub enum PollOutcome {
    /// The subscriber has read everything published so far.
    Empty,
    /// The subscriber fell behind the backlog: `missed` events are gone,
    /// and the cursor was resynchronized to the oldest retained event.
    Lagged { missed: u64 },
    /// The next event, in publish order.
    Event(PipelineEvent),
}

/// The position of the oldest event a stage of the given depth still
/// retains, after `len` events were published.
pub open spec fn spec_retained_floor(len: int, depth: int) -> int {
    if len <= depth {
        0
    } else {
        len - depth
    }
}

/// The exact outcome of one poll of a subscription against a stage with
/// history `log` and backlog `depth`: nothing when the cursor is caught
/// up; the cursor's event, in publish order, while it is still retained;
/// otherwise the exact missed count, with the cursor resynchronized to
/// the oldest retained event. Nothing is ever skipped silently.
pub open spec fn poll_contract(
    log: Seq<PipelineEvent>,
    depth: int,
    pre: Subscription,
    post: Subscription,
    r: PollOutcome,
) -> bool {
    let pos = pre.next as int;
    let floor = spec_retained_floor(log.len() as int, depth);
    if pos >= log.len() {
        r is Empty && post == pre
    } else if pos < floor {
        r matches PollOutcome::Lagged { missed } && missed == floor - pos && post.next == floor
    } else {
        r matches PollOutcome::Event(ev) && ev == log[pos] && post.next == pre.next + 1
    }
}

/// A bounded broadcast stage: retains the most recent `depth` published
/// events; the full publish history is carried as a ghost log, and every
/// contract speaks of positions in that log.
pub struct EventBus {
    buffer: Vec<PipelineEvent>,
    depth: usize,
    published: u64,
    log: Ghost<Seq<PipelineEvent>>,
}

impl EventBus {
    /// Everything ever published, in order.
    pub closed spec fn spec_log(&self) -> Seq<PipelineEvent> {
        self.log@
    }

    /// The backlog depth the stage was made with.
    pub closed spec fn spec_depth(&self) -> int {
        self.depth as int
    }

    /// The position of the oldest event still retained.
    pub closed spec fn spec_oldest(&self) -> int {
        self.log@.len() - self.buffer@.len()
    }

    /// How many events a subscriber at position `pos` has already missed.
    pub open spec fn spec_missed(&self, pos: int) -> int {
        self.spec_oldest() - pos
    }

    pub closed spec fn wf(&self) -> bool {
        &&& self.depth >= 1
        &&& self.buffer@.len() <= self.depth
        &&& self.buffer@.len() <= self.log@.len()
        &&& self.log@.len() - self.buffer@.len() == spec_retained_floor(
            self.log@.len() as int,
            self.depth as int,
        )
        &&& self.published as nat == self.log@.len()
        &&& self.buffer@ == self.log@.subrange(
            self.log@.len() - self.buffer@.len(),
            self.log@.len() as int,
        )
    }

    /// Exactly the last `depth` published events are retained (all of
    /// them, early on): the oldest retained position is determined by the
    /// history's length and the depth.
    pub proof fn lemma_oldest_is_retained_floor(&self)
        requires
            self.wf(),
        ensures
            self.spec_oldest() == spec_retained_floor(
                self.spec_log().len() as int,
                self.spec_depth(),
            ),
            self.spec_log().len() - self.spec_depth() <= self.spec_oldest()
                <= self.spec_log().len(),
    {
    }

    /// An empty stage with the given backlog depth.
    pub fn new(depth: usize) -> (r: EventBus)
        requires
            depth >= 1,
        ensures
            r.wf(),
            r.spec_log() == Seq::<PipelineEvent>::empty(),
            r.spec_depth() == depth,
    {
        let r = EventBus { buffer: Vec::new(), depth, published: 0, log: Ghost(Seq::empty()) };
        proof {
            assert(r.buffer@ =~= r.log@.subrange(0, 0));
        }
        r
    }

    /// Publish one event: it is appended to the history, and the oldest
    /// retained event is evicted when the backlog is full.
    pub fn publish(&mut self, ev: PipelineEvent)
        requires
            old(self).wf(),
            old(self).spec_log().len() < u64::MAX,
        ensures
            final(self).wf(),
            final(self).spec_log() == old(self).spec_log().push(ev),
            final(self).spec_depth() == old(self).spec_depth(),
    {
        if self.buffer.len() == self.depth {
            self.buffer.remove(0);
        }
        self.buffer.push(ev);
        self.published = self.published + 1;
        proof {
            let old_log = old(self).log@;
            let old_buf = old(self).buffer@;
            self.log@ = old_log.push(ev);
            let new_buf = self.buffer@;
            let new_log = self.log@;
            let start = new_log.len() - new_buf.len();
            assert forall|k: int| 0 <= k < new_buf.len() implies new_buf[k] == new_log.subrange(
                start as int,
                new_log.len() as int,
            )[k] by {
                let old_start = old_log.len() - old_buf.len();
                if k < new_buf.len() - 1 {
                    if old_buf.len() == old(self).depth {
                        assert(new_buf[k] == old_buf[k + 1]);
                        assert(old_buf[k + 1] == old_log.subrange(
                            old_start as int,
                            old_log.len() as int,
                        )[k + 1]);
                    } else {
                        assert(new_buf[k] == old_buf[k]);
                        assert(old_buf[k] == old_log.subrange(
                            old_start as int,
                            old_log.len() as int,
                        )[k]);
                    }
                }
            }
            assert(new_buf =~= new_log.subrange(start as int, new_log.len() as int));
        }
    }

    /// A fresh subscription, positioned at the head: it will see exactly
    /// the events published after it was taken.
    pub fn subscribe(&self) -> (s: Subscription)
        requires
            self.wf(),
        ensures
            s.next as nat == self.spec_log().len(),
    {
        Subscription { next: self.published }
    }

    /// Read the subscriber's next event, if any.
    ///
    /// In publish order and without silent loss: either the next event of
    /// the history, or an explicit missed count with resynchronization to
    /// the oldest retained event, or nothing when the subscriber is caught
    /// up.
    pub fn poll(&self, sub: &mut Subscription) -> (r: PollOutcome)
        requires
            self.wf(),
        ensures
            poll_contract(self.spec_log(), self.spec_depth(), *old(sub), *final(sub), r),
    {
        if sub.next >= self.published {
            return PollOutcome::Empty;
        }
        let oldest: u64 = self.published - (self.buffer.len() as u64);
        if sub.next < oldest {
            let missed: u64 = oldest - sub.next;
            sub.next = oldest;
            return PollOutcome::Lagged { missed };
        }
        let idx: usize = (sub.next - oldest) as usize;
        let ev = self.buffer[idx].clone();
        proof {
            assert(self.log@.subrange(
                self.log@.len() - self.buffer@.len(),
                self.log@.len() as int,
            )[idx as int] == self.log@[sub.next as int]);
        }
        sub.next = sub.next + 1;
        PollOutcome::Event(ev)
    }
}

/// Law: publishing more events than the backlog depth past a subscriber's
/// position forces an explicit missed count on its next poll; a lagging
/// subscriber can never read on silently.
pub proof fn lemma_backpressure_is_explicit(bus: &EventBus, pos: int)
    requires
        bus.wf(),
        0 <= pos,
        pos + bus.spec_depth() < bus.spec_log().len(),
    ensures
        bus.spec_missed(pos) > 0,
{
}

} // verus!
