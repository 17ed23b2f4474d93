use vstd::prelude::*;
use crate::channel::{CueChannel, CueEvent};
use crate::matcher::{cue_capture, Matcher};
use crate::packet::{decode, osc_decoded, DecodeError, Packet, MAX_DATAGRAM};

verus! {

/// The cue identifier that one datagram yields under `pattern`: only a
/// decodable message whose address the pattern captures from yields one.
pub open spec fn datagram_cue(pattern: Seq<char>, bytes: Seq<u8>) -> Option<Seq<char>> {
    match osc_decoded(bytes) {
        Some(Some(address)) => cue_capture(pattern, address),
        _ => None,
    }
}

/// The events one datagram puts on the channel: none or exactly one.
pub open spec fn cue_seq(pattern: Seq<char>, bytes: Seq<u8>) -> Seq<Seq<char>> {
    match datagram_cue(pattern, bytes) {
        Some(id) => seq![id],
        None => Seq::empty(),
    }
}

/// The events a run of datagrams puts on the channel, in order of receipt.
pub open spec fn cues_of(pattern: Seq<char>, datagrams: Seq<Seq<u8>>) -> Seq<Seq<char>>
    decreases datagrams.len(),
{
    if datagrams.len() == 0 {
        Seq::empty()
    } else {
        cues_of(pattern, datagrams.drop_last()) + cue_seq(pattern, datagrams.last())
    }
}

/// What became of one received datagram, for the log.
pub enum Outcome {
    /// A message whose address matched: its cue was sent to the display.
    Dispatched { address: String, arguments: String, cue_id: String },
    /// A message whose address the pattern does not capture from: dropped.
    Unmatched { address: String, arguments: String },
    /// A bundle: not supported, dropped without matching.
    Bundle { contents: String },
    /// Bytes that do not decode: dropped.
    DecodeFailed(DecodeError),
}

/// The network side: decodes each datagram, matches it and forwards matches.
/// It never touches display state; its one effect is on the channel.
pub struct Listener {
    matcher: Matcher,
    running: bool,
    received: Ghost<Seq<Seq<u8>>>,
}

impl Listener {
    /// The pattern in use.
    pub closed spec fn pattern_view(&self) -> Seq<char> {
        self.matcher.pattern_view()
    }

    /// Whether the listener still receives; it stops only on a socket failure.
    pub closed spec fn running_view(&self) -> bool {
        self.running
    }

    /// Every datagram handled so far, in order of receipt.
    pub closed spec fn received(&self) -> Seq<Seq<u8>> {
        self.received@
    }

    /// A running listener that has handled nothing yet.
    pub fn new(matcher: Matcher) -> (r: Listener)
        ensures
            r.pattern_view() == matcher.pattern_view(),
            r.running_view(),
            r.received() == Seq::<Seq<u8>>::empty(),
    {
        Listener { matcher, running: true, received: Ghost(Seq::empty()) }
    }

    /// The matcher in use.
    pub fn matcher(&self) -> (r: &Matcher)
        ensures
            r.pattern_view() == self.pattern_view(),
    {
        &self.matcher
    }

    /// Whether another receive is due.
    pub fn is_running(&self) -> (r: bool)
        ensures
            r == self.running_view(),
    {
        self.running
    }

    /// The socket failed to receive: the listener stops for good.
    pub fn on_receive_failed(&mut self)
        ensures
            !final(self).running_view(),
            final(self).pattern_view() == old(self).pattern_view(),
            final(self).received() == old(self).received(),
    {
        self.running = false;
    }

    /// Handles one received datagram, passed whole: decode, match the
    /// address of a message, and send a matched cue to `channel`. Every
    /// failure here is per datagram: the listener keeps running. A datagram
    /// is at most `MAX_DATAGRAM` bytes, the size of the receive buffer.
    pub fn handle_datagram(&mut self, bytes: &[u8], channel: &mut CueChannel) -> (r: Outcome)
        requires
            bytes@.len() <= MAX_DATAGRAM,
        ensures
            final(channel).pending() == old(channel).pending() + cue_seq(
                old(self).pattern_view(),
                bytes@,
            ),
            final(channel).delivered() == old(channel).delivered(),
            final(channel).sent() == old(channel).sent() + cue_seq(old(self).pattern_view(), bytes@),
            final(self).received() == old(self).received().push(bytes@),
            final(self).pattern_view() == old(self).pattern_view(),
            final(self).running_view() == old(self).running_view(),
            old(channel).sent() == cues_of(old(self).pattern_view(), old(self).received())
                ==> final(channel).sent() == cues_of(
                final(self).pattern_view(),
                final(self).received(),
            ),
            match r {
                Outcome::Dispatched { address, cue_id, .. } => {
                    &&& osc_decoded(bytes@) == Some(Some(address@))
                    &&& datagram_cue(old(self).pattern_view(), bytes@) == Some(cue_id@)
                },
                Outcome::Unmatched { address, .. } => {
                    &&& osc_decoded(bytes@) == Some(Some(address@))
                    &&& datagram_cue(old(self).pattern_view(), bytes@) is None
                },
                Outcome::Bundle { .. } => osc_decoded(bytes@) == Some(None::<Seq<char>>),
                Outcome::DecodeFailed(_) => osc_decoded(bytes@) is None,
            },
    {
        let ghost p = self.pattern_view();
        let ghost before = self.received@;
        self.received = Ghost(self.received@.push(bytes@));
        assert(self.received@.drop_last() =~= before);
        proof {
            if datagram_cue(p, bytes@) is None {
                // this datagram yields no cue: the channel stays as it is
                assert(old(channel).pending() + cue_seq(p, bytes@) =~= old(channel).pending());
                assert(old(channel).sent() + cue_seq(p, bytes@) =~= old(channel).sent());
            }
        }
        match decode(bytes) {
            Ok(Packet::Message { address, arguments }) => {
                match self.matcher.match_address(address.as_str()) {
                    Some(cue_id) => {
                        let shown = cue_id.clone();
                        channel.send(CueEvent { cue_id });
                        assert(cue_seq(p, bytes@) =~= seq![shown@]);
                        Outcome::Dispatched { address, arguments, cue_id: shown }
                    },
                    None => {
                        Outcome::Unmatched { address, arguments }
                    },
                }
            },
            Ok(Packet::Bundle { contents }) => {
                Outcome::Bundle { contents }
            },
            Err(e) => {
                Outcome::DecodeFailed(e)
            },
        }
    }
}

/// A datagram that decodes to a message whose address the pattern captures
/// from puts exactly one event on the channel, carrying the captured text.
pub proof fn lemma_matching_message_yields_one_cue(
    pattern: Seq<char>,
    bytes: Seq<u8>,
    address: Seq<char>,
    id: Seq<char>,
)
    requires
        osc_decoded(bytes) == Some(Some(address)),
        cue_capture(pattern, address) == Some(id),
    ensures
        cue_seq(pattern, bytes) == seq![id],
{
}

/// A datagram that does not decode puts nothing on the channel.
pub proof fn lemma_undecodable_yields_nothing(pattern: Seq<char>, bytes: Seq<u8>)
    requires
        osc_decoded(bytes) is None,
    ensures
        cue_seq(pattern, bytes) == Seq::<Seq<char>>::empty(),
{
}

/// A bundle, whatever it holds, puts nothing on the channel.
pub proof fn lemma_bundle_yields_nothing(pattern: Seq<char>, bytes: Seq<u8>)
    requires
        osc_decoded(bytes) == Some(None::<Seq<char>>),
    ensures
        cue_seq(pattern, bytes) == Seq::<Seq<char>>::empty(),
{
}

/// Datagrams that each yield a cue put those cues on the channel in the
/// order the datagrams were received.
pub proof fn lemma_cues_keep_receipt_order(
    pattern: Seq<char>,
    datagrams: Seq<Seq<u8>>,
    ids: Seq<Seq<char>>,
)
    requires
        datagrams.len() == ids.len(),
        forall|i: int| 0 <= i < datagrams.len() ==> datagram_cue(pattern, #[trigger] datagrams[i]) == Some(ids[i]),
    ensures
        cues_of(pattern, datagrams) == ids,
    decreases datagrams.len(),
{
    if datagrams.len() > 0 {
        let n = datagrams.len() - 1;
        assert forall|i: int| 0 <= i < n implies datagram_cue(pattern, #[trigger] datagrams.drop_last()[i]) == Some(ids.drop_last()[i]) by {
            assert(datagrams.drop_last()[i] == datagrams[i]);
        }
        lemma_cues_keep_receipt_order(pattern, datagrams.drop_last(), ids.drop_last());
        assert(datagram_cue(pattern, datagrams[n]) == Some(ids[n]));
        assert(ids =~= ids.drop_last() + seq![ids[n]]);
    }
}

/// When a channel has carried exactly the events of datagrams that each yield
/// a cue, the display has taken those cues in the order the datagrams came,
/// however far it lags behind; once it has caught up it has taken them all.
pub proof fn lemma_display_sees_cues_in_order(
    pattern: Seq<char>,
    datagrams: Seq<Seq<u8>>,
    ids: Seq<Seq<char>>,
    channel: CueChannel,
)
    requires
        datagrams.len() == ids.len(),
        forall|i: int| 0 <= i < datagrams.len() ==> datagram_cue(pattern, #[trigger] datagrams[i]) == Some(ids[i]),
        channel.sent() == cues_of(pattern, datagrams),
    ensures
        channel.delivered() == ids.take(channel.delivered().len() as int),
        channel.pending().len() == 0 ==> channel.delivered() == ids,
{
    lemma_cues_keep_receipt_order(pattern, datagrams, ids);
    crate::channel::lemma_delivery_is_prefix(channel);
}

} // verus!
