//! The fetch flow: selection policy and the per-fetch state machine.
//!
//! The caller owns the transport and its dispatch loop; this module owns
//! every decision.  It tracks the phase of one clipboard fetch, enforces
//! the two-barrier rule — the offer store may not be read for selection
//! until two dispatch barriers have completed after subscription, one to
//! surface the offer announcement and one to surface its content types —
//! applies the selection policy (exactly plain UTF-8 text, no fallback),
//! and decodes the transferred bytes.

use crate::errors::ClipboardError;
use crate::store::ClipboardEvent;
use crate::store::OfferStore;
use crate::store::advertises;
use crate::store::event_offer;
use crate::store::event_step;
use crate::store::map_after;
use vstd::prelude::*;
use vstd::string::StringExecFns;
use vstd::utf8::decode_utf8;
use vstd::utf8::valid_utf8;

verus! {

/// The content type of plain UTF-8 text, the only one this pipeline
/// retrieves.
pub open spec fn plain_text_type() -> Seq<char> {
    "text/plain;charset=utf-8"@
}

/// The content type of plain UTF-8 text, as a value.
pub fn plain_text_content_type() -> (s: String)
    ensures
        s@ == plain_text_type(),
{
    String::from_str("text/plain;charset=utf-8")
}

/// The offer the selection policy picks once the given events have been
/// delivered: the one most recently advertising plain UTF-8 text, if any.
pub open spec fn selected_offer(events: Seq<ClipboardEvent>) -> Option<u64> {
    if map_after(Map::empty(), events).contains_key(plain_text_type()) {
        Some(map_after(Map::empty(), events)[plain_text_type()])
    } else {
        None
    }
}

/// Replay a sequence of offer events into a fresh store and select the
/// offer to fetch from; with no offer advertising plain UTF-8 text the
/// selection fails, and no transfer is ever requested.
pub fn select_from_events(events: &Vec<ClipboardEvent>) -> (r: Result<u64, ClipboardError>)
    ensures
        r == match selected_offer(events@) {
            Some(o) => Ok::<u64, ClipboardError>(o),
            None => Err::<u64, ClipboardError>(ClipboardError::NoSuitableContent),
        },
{
    let mut store = OfferStore::new();
    store.apply_events(events);
    let pt = plain_text_content_type();
    match store.get(&pt) {
        Some(offer) => Ok(offer),
        None => Err(ClipboardError::NoSuitableContent),
    }
}

/// The selection is deterministic: it is a function of the delivered event
/// sequence alone, so the same sequence of offer and type events always
/// yields the same selected offer.
pub proof fn lemma_selection_deterministic(first: Seq<ClipboardEvent>, second: Seq<ClipboardEvent>)
    requires
        first == second,
    ensures
        selected_offer(first) == selected_offer(second),
{
}

/// Last writer wins: when the most recent advertisement of plain UTF-8
/// text in the sequence is the event at `j`, the offer that sent it is the
/// one selected — whatever other offers advertised the same type earlier.
pub proof fn lemma_last_advertiser_selected(events: Seq<ClipboardEvent>, j: int)
    requires
        0 <= j < events.len(),
        advertises(events[j], plain_text_type()),
        forall|k: int| j < k < events.len() ==> !advertises(events[k], plain_text_type()),
    ensures
        selected_offer(events) == Some(event_offer(events[j])),
    decreases events.len(),
{
    if j == events.len() - 1 {
        assert(events.last() == events[j]);
    } else {
        assert(events.drop_last()[j] == events[j]);
        assert forall|k: int| j < k < events.drop_last().len() implies !advertises(
            events.drop_last()[k],
            plain_text_type(),
        ) by {
            assert(events.drop_last()[k] == events[k]);
        };
        lemma_last_advertiser_selected(events.drop_last(), j);
        assert(map_after(Map::empty(), events) == event_step(
            map_after(Map::empty(), events.drop_last()),
            events.last(),
        ));
        assert(!advertises(events.last(), plain_text_type()));
    }
}

/// The phase of one clipboard fetch.  `Complete` and `Failed` are
/// terminal.
#[derive(Clone, Copy, Debug, PartialEq, Eq, Structural)]
pub enum FetchPhase {
    /// Offer announcements and their content types are being collected.
    Collecting,
    /// A transfer was requested for the selected offer.
    Requested,
    /// The transfer finished and its bytes decoded.
    Complete,
    /// Selection, the transfer, or its decode failed.
    Failed,
}

/// Everything the caller must do to start the chosen transfer: issue a
/// receive request on this offer, naming this content type, with the write
/// end of a fresh pipe as the destination.
#[derive(Debug, PartialEq, Eq)]
pub struct TransferRequest {
    /// The selected offer, by the caller's numeric handle.
    pub offer: u64,
    /// The content type to request: always plain UTF-8 text.
    pub content_type: String,
}

/// One clipboard fetch: the offer store fed by the caller's dispatch
/// callbacks, the count of completed dispatch barriers, and the phase.
pub struct FetchSession {
    store: OfferStore,
    barriers: u64,
    phase: FetchPhase,
}

impl FetchSession {
    /// The content-type mapping collected so far.
    pub closed spec fn store_map(&self) -> Map<Seq<char>, u64> {
        self.store@
    }

    /// How many dispatch barriers have completed since subscription,
    /// counted up to the two that matter.
    pub closed spec fn barriers_completed(&self) -> u64 {
        self.barriers
    }

    /// The phase the fetch is in.
    pub closed spec fn current_phase(&self) -> FetchPhase {
        self.phase
    }

    /// Whether the store may be read for selection.  Reading earlier than
    /// two completed barriers may see an incomplete or empty type set:
    /// the first barrier surfaces the offer announcement, the second that
    /// offer's content types.
    pub open spec fn snapshot_ready(&self) -> bool {
        self.barriers_completed() >= 2
    }

    /// The phase the fetch is in, as a value.
    pub fn fetch_phase(&self) -> (r: FetchPhase)
        ensures
            r == self.current_phase(),
    {
        self.phase
    }

    /// Whether the store may be read for selection, as a value.
    pub fn ready_for_selection(&self) -> (r: bool)
        ensures
            r == self.snapshot_ready(),
    {
        self.barriers >= 2
    }

    /// A fresh fetch: nothing collected, no barrier completed, collecting.
    pub fn new() -> (r: FetchSession)
        ensures
            r.store_map() == Map::<Seq<char>, u64>::empty(),
            r.barriers_completed() == 0,
            r.current_phase() == FetchPhase::Collecting,
    {
        FetchSession { store: OfferStore::new(), barriers: 0, phase: FetchPhase::Collecting }
    }

    /// Deliver one offer event from a dispatch callback.  A passive sink:
    /// no filtering, no transformation, last writer wins per content type.
    pub fn deliver(&mut self, event: ClipboardEvent)
        ensures
            final(self).store_map() == event_step(old(self).store_map(), event),
            final(self).barriers_completed() == old(self).barriers_completed(),
            final(self).current_phase() == old(self).current_phase(),
    {
        self.store.apply_event(event);
    }

    /// Record that one dispatch barrier — a dispatch of buffered events or
    /// a blocking roundtrip — has completed, with every callback it
    /// triggered already run.
    pub fn barrier_completed(&mut self)
        ensures
            final(self).barriers_completed() == if old(self).barriers_completed() < 2 {
                old(self).barriers_completed() + 1
            } else {
                old(self).barriers_completed() as int
            },
            final(self).store_map() == old(self).store_map(),
            final(self).current_phase() == old(self).current_phase(),
    {
        if self.barriers < 2 {
            self.barriers = self.barriers + 1;
        }
    }

    /// Decide the transfer for a fetch of `content_type`.  A type other
    /// than plain UTF-8 text that nothing ever advertised is a caller
    /// error; beyond that the policy looks for exactly plain UTF-8 text —
    /// no fallback type is attempted, and with no offer advertising it the
    /// fetch fails — and picks the offer that advertised it last.  Only a
    /// fetch that enters `Requested` here goes on to create a pipe and
    /// request a transfer; on failure the fetch is over.
    pub fn begin_transfer(&mut self, content_type: &String) -> (r: Result<
        TransferRequest,
        ClipboardError,
    >)
        requires
            old(self).snapshot_ready(),
            old(self).current_phase() == FetchPhase::Collecting,
        ensures
            final(self).store_map() == old(self).store_map(),
            final(self).barriers_completed() == old(self).barriers_completed(),
            content_type@ != plain_text_type() && !old(self).store_map().contains_key(
                content_type@,
            ) ==> r == Err::<TransferRequest, ClipboardError>(ClipboardError::NoSuchOffer)
                && final(self).current_phase() == FetchPhase::Failed,
            (content_type@ == plain_text_type() || old(self).store_map().contains_key(
                content_type@,
            )) && !old(self).store_map().contains_key(plain_text_type()) ==> r == Err::<
                TransferRequest,
                ClipboardError,
            >(ClipboardError::NoSuitableContent) && final(self).current_phase()
                == FetchPhase::Failed,
            (content_type@ == plain_text_type() || old(self).store_map().contains_key(
                content_type@,
            )) && old(self).store_map().contains_key(plain_text_type()) ==> (r matches Ok(t)
                && t.offer == old(self).store_map()[plain_text_type()] && t.content_type@
                == plain_text_type() && final(self).current_phase() == FetchPhase::Requested),
    {
        let pt = plain_text_content_type();
        if !(*content_type == pt) && !self.store.contains(content_type) {
            self.phase = FetchPhase::Failed;
            return Err(ClipboardError::NoSuchOffer);
        }
        match self.store.get(&pt) {
            Some(offer) => {
                self.phase = FetchPhase::Requested;
                Ok(TransferRequest { offer, content_type: pt })
            },
            None => {
                self.phase = FetchPhase::Failed;
                Err(ClipboardError::NoSuitableContent)
            },
        }
    }

    /// Finish a requested transfer whose byte stream has been fully
    /// absorbed into `buffer`: decode it as UTF-8 text.  Exactly the valid
    /// encodings decode; an empty stream decodes to the empty string; on
    /// failure the bytes are discarded and the fetch ends `Failed`.
    pub fn complete_transfer(&mut self, buffer: crate::transfer::TransferBuffer) -> (r: Result<
        String,
        ClipboardError,
    >)
        requires
            old(self).current_phase() == FetchPhase::Requested,
        ensures
            final(self).store_map() == old(self).store_map(),
            final(self).barriers_completed() == old(self).barriers_completed(),
            valid_utf8(buffer@) ==> (r matches Ok(s) && s@ == decode_utf8(buffer@))
                && final(self).current_phase() == FetchPhase::Complete,
            !valid_utf8(buffer@) ==> r == Err::<String, ClipboardError>(ClipboardError::Encoding)
                && final(self).current_phase() == FetchPhase::Failed,
    {
        match buffer.decode() {
            Ok(s) => {
                self.phase = FetchPhase::Complete;
                Ok(s)
            },
            Err(e) => {
                self.phase = FetchPhase::Failed;
                Err(e)
            },
        }
    }

    /// Abort a requested transfer after a pipe read failure: fatal, the
    /// partial bytes are dropped with the buffer.
    pub fn abort_transfer(&mut self) -> (r: ClipboardError)
        requires
            old(self).current_phase() == FetchPhase::Requested,
        ensures
            final(self).store_map() == old(self).store_map(),
            final(self).barriers_completed() == old(self).barriers_completed(),
            final(self).current_phase() == FetchPhase::Failed,
            r == ClipboardError::TransferIo,
    {
        self.phase = FetchPhase::Failed;
        ClipboardError::TransferIo
    }
}

} // verus!
