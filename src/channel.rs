use vstd::prelude::*;
use std::collections::VecDeque;

verus! {

/// A cue identifier on its way from the listener to the display.
pub struct CueEvent {
    pub cue_id: String,
}

/// The ordered hand-off between the listener (sole producer) and the display
/// (sole consumer). Unbounded: `send` never drops, merges or overwrites.
pub struct CueChannel {
    queue: VecDeque<String>,
    delivered: Ghost<Seq<Seq<char>>>,
}

impl CueChannel {
    /// The cue identifiers sent and not yet received, oldest first.
    pub closed spec fn pending(&self) -> Seq<Seq<char>> {
        self.queue@.map_values(|s: String| s@)
    }

    /// The cue identifiers handed to the consumer so far, in the order given.
    pub closed spec fn delivered(&self) -> Seq<Seq<char>> {
        self.delivered@
    }

    /// Every cue identifier ever sent, in the order sent. What was delivered
    /// always comes first, so delivery keeps the order of sending.
    pub open spec fn sent(&self) -> Seq<Seq<char>> {
        self.delivered() + self.pending()
    }

    /// An empty channel.
    pub fn new() -> (r: CueChannel)
        ensures
            r.pending() == Seq::<Seq<char>>::empty(),
            r.delivered() == Seq::<Seq<char>>::empty(),
    {
        let r = CueChannel { queue: VecDeque::new(), delivered: Ghost(Seq::empty()) };
        assert(r.pending() =~= Seq::<Seq<char>>::empty());
        r
    }

    /// Number of events sent and not yet received.
    pub fn len(&self) -> (r: usize)
        ensures
            r == self.pending().len(),
    {
        self.queue.len()
    }

    /// Appends `event` behind everything already waiting.
    pub fn send(&mut self, event: CueEvent)
        ensures
            final(self).pending() == old(self).pending().push(event.cue_id@),
            final(self).delivered() == old(self).delivered(),
            final(self).sent() == old(self).sent().push(event.cue_id@),
    {
        self.queue.push_back(event.cue_id);
        assert(self.pending() =~= old(self).pending().push(event.cue_id@));
        assert(self.sent() =~= old(self).sent().push(event.cue_id@));
    }

    /// Takes the oldest waiting event, or `None` when nothing waits.
    pub fn receive(&mut self) -> (r: Option<CueEvent>)
        ensures
            old(self).pending().len() == 0 ==> {
                &&& r is None
                &&& final(self).pending() == old(self).pending()
                &&& final(self).delivered() == old(self).delivered()
            },
            old(self).pending().len() > 0 ==> {
                &&& r is Some
                &&& r->Some_0.cue_id@ == old(self).pending()[0]
                &&& final(self).pending() == old(self).pending().drop_first()
                &&& final(self).delivered() == old(self).delivered().push(old(self).pending()[0])
            },
            final(self).sent() == old(self).sent(),
    {
        match self.queue.pop_front() {
            Some(cue_id) => {
                self.delivered = Ghost(self.delivered@.push(cue_id@));
                assert(self.pending() =~= old(self).pending().drop_first());
                assert(self.sent() =~= old(self).sent());
                Some(CueEvent { cue_id })
            },
            None => {
                assert(self.pending() =~= old(self).pending());
                None
            },
        }
    }
}

/// Whatever the interleaving of sends and receives, the consumer has seen a
/// prefix of what the producer sent, in the same order; once nothing is
/// pending it has seen all of it.
pub proof fn lemma_delivery_is_prefix(ch: CueChannel)
    ensures
        ch.delivered().len() <= ch.sent().len(),
        ch.delivered() == ch.sent().take(ch.delivered().len() as int),
        ch.pending().len() == 0 ==> ch.delivered() == ch.sent(),
{
    assert(ch.delivered() =~= ch.sent().take(ch.delivered().len() as int));
    if ch.pending().len() == 0 {
        assert(ch.delivered() =~= ch.sent());
    }
}

} // verus!
