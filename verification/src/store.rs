//! The offer tracking store.
//!
//! The display server announces clipboard offers and, for each offer, the
//! content types it can deliver.  Both arrive as asynchronous events pumped
//! by the caller's dispatch loop.  This module is the passive sink for those
//! events: it maintains a mapping from content-type string to the offer that
//! most recently advertised it (last writer wins), plus the list of offers
//! announced so far.  No filtering or transformation happens here.

use vstd::prelude::*;

verus! {

/// One asynchronous event relevant to offer tracking, as delivered by the
/// dispatch loop.  An offer is identified by object identity, represented
/// here as an opaque numeric handle chosen by the caller.
pub enum ClipboardEvent {
    /// A new offer was announced on the data device.
    NewOffer { offer: u64 },
    /// An offer advertised one content type it can deliver.
    AdvertisedType { offer: u64, content_type: String },
}

/// True when `e` advertises exactly the content type `t`.
pub open spec fn advertises(e: ClipboardEvent, t: Seq<char>) -> bool {
    match e {
        ClipboardEvent::AdvertisedType { content_type, .. } => content_type@ == t,
        ClipboardEvent::NewOffer { .. } => false,
    }
}

/// The offer handle an event speaks of.
pub open spec fn event_offer(e: ClipboardEvent) -> u64 {
    match e {
        ClipboardEvent::AdvertisedType { offer, .. } => offer,
        ClipboardEvent::NewOffer { offer } => offer,
    }
}

/// How one event transforms the content-type mapping: an advertisement
/// overwrites any earlier entry for the same type string; an announcement
/// leaves the mapping unchanged.
pub open spec fn event_step(m: Map<Seq<char>, u64>, e: ClipboardEvent) -> Map<Seq<char>, u64> {
    match e {
        ClipboardEvent::NewOffer { .. } => m,
        ClipboardEvent::AdvertisedType { offer, content_type } => m.insert(content_type@, offer),
    }
}

/// The content-type mapping after delivering `events` in order, starting
/// from the mapping `m0`.
pub open spec fn map_after(m0: Map<Seq<char>, u64>, events: Seq<ClipboardEvent>) -> Map<
    Seq<char>,
    u64,
>
    decreases events.len(),
{
    if events.len() == 0 {
        m0
    } else {
        event_step(map_after(m0, events.drop_last()), events.last())
    }
}

/// The set of content types advertised by any event of the sequence.
pub open spec fn advertised_types(events: Seq<ClipboardEvent>) -> Set<Seq<char>>
    decreases events.len(),
{
    if events.len() == 0 {
        Set::empty()
    } else {
        let rest = advertised_types(events.drop_last());
        match events.last() {
            ClipboardEvent::NewOffer { .. } => rest,
            ClipboardEvent::AdvertisedType { content_type, .. } => rest.insert(content_type@),
        }
    }
}

/// The offer named by the most recent event of the sequence that advertises
/// the content type `t`.
pub open spec fn last_advertiser(events: Seq<ClipboardEvent>, t: Seq<char>) -> u64
    recommends
        advertised_types(events).contains(t),
    decreases events.len(),
{
    if events.len() == 0 {
        arbitrary()
    } else if advertises(events.last(), t) {
        event_offer(events.last())
    } else {
        last_advertiser(events.drop_last(), t)
    }
}

/// One recorded advertisement: a content type and the offer that announced
/// it.
struct OfferEntry {
    content_type: String,
    offer: u64,
}

/// The mapping a sequence of recorded advertisements denotes: each content
/// type maps to the offer of the most recent record advertising it.
spec fn entries_map(s: Seq<OfferEntry>) -> Map<Seq<char>, u64>
    decreases s.len(),
{
    if s.len() == 0 {
        Map::empty()
    } else {
        entries_map(s.drop_last()).insert(s.last().content_type@, s.last().offer)
    }
}

/// The offer tracking store.  Its abstract value is a map from content-type
/// string to the offer that last advertised it; it also remembers the
/// offers announced so far, in announcement order.
pub struct OfferStore {
    entries: Vec<OfferEntry>,
    announced: Vec<u64>,
}

impl View for OfferStore {
    type V = Map<Seq<char>, u64>;

    closed spec fn view(&self) -> Map<Seq<char>, u64> {
        entries_map(self.entries@)
    }
}

impl OfferStore {
    /// The offers announced so far, oldest first.
    pub closed spec fn announced_offers(&self) -> Seq<u64> {
        self.announced@
    }

    /// An empty store: nothing announced, nothing advertised.
    pub fn new() -> (r: OfferStore)
        ensures
            r@ == Map::<Seq<char>, u64>::empty(),
            r.announced_offers() == Seq::<u64>::empty(),
    {
        OfferStore { entries: Vec::new(), announced: Vec::new() }
    }

    /// Record the announcement of a new offer.  The content-type mapping is
    /// untouched: types arrive in their own events.
    pub fn announce(&mut self, offer: u64)
        ensures
            final(self)@ == old(self)@,
            final(self).announced_offers() == old(self).announced_offers().push(offer),
    {
        self.announced.push(offer);
    }

    /// Record one advertised content type, overwriting any earlier entry
    /// for that exact type string (last writer wins).
    pub fn insert(&mut self, content_type: String, offer: u64)
        ensures
            final(self)@ == old(self)@.insert(content_type@, offer),
            final(self).announced_offers() == old(self).announced_offers(),
    {
        let ghost before = self.entries@;
        self.entries.push(OfferEntry { content_type, offer });
        proof {
            assert(self.entries@.drop_last() =~= before);
        }
    }

    /// Look up the offer currently mapped to a content type.
    pub fn get(&self, content_type: &String) -> (r: Option<u64>)
        ensures
            r == if self@.contains_key(content_type@) {
                Some(self@[content_type@])
            } else {
                None::<u64>
            },
    {
        let mut found: Option<u64> = None;
        let mut i: usize = 0;
        while i < self.entries.len()
            invariant
                i <= self.entries@.len(),
                found == if entries_map(self.entries@.take(i as int)).contains_key(
                    content_type@,
                ) {
                    Some(entries_map(self.entries@.take(i as int))[content_type@])
                } else {
                    None::<u64>
                },
            decreases self.entries@.len() - i,
        {
            let entry = &self.entries[i];
            if entry.content_type == *content_type {
                found = Some(entry.offer);
            }
            proof {
                assert(self.entries@.take(i as int + 1).drop_last() =~= self.entries@.take(
                    i as int,
                ));
                assert(self.entries@.take(i as int + 1).last() == self.entries@[i as int]);
            }
            i = i + 1;
        }
        proof {
            assert(self.entries@.take(self.entries@.len() as int) =~= self.entries@);
        }
        found
    }

    /// How many offers have been announced so far.
    pub fn announced_count(&self) -> (r: usize)
        ensures
            r == self.announced_offers().len(),
    {
        self.announced.len()
    }

    /// True when some offer currently advertises the content type.
    pub fn contains(&self, content_type: &String) -> (r: bool)
        ensures
            r == self@.contains_key(content_type@),
    {
        self.get(content_type).is_some()
    }

    /// Deliver one event to the store.
    pub fn apply_event(&mut self, event: ClipboardEvent)
        ensures
            final(self)@ == event_step(old(self)@, event),
            final(self).announced_offers() == match event {
                ClipboardEvent::NewOffer { offer } => old(self).announced_offers().push(offer),
                ClipboardEvent::AdvertisedType { .. } => old(self).announced_offers(),
            },
    {
        match event {
            ClipboardEvent::NewOffer { offer } => self.announce(offer),
            ClipboardEvent::AdvertisedType { offer, content_type } => self.insert(
                content_type,
                offer,
            ),
        }
    }

    /// Deliver a sequence of events to the store, in order.
    pub fn apply_events(&mut self, events: &Vec<ClipboardEvent>)
        ensures
            final(self)@ == map_after(old(self)@, events@),
    {
        let mut i: usize = 0;
        while i < events.len()
            invariant
                i <= events@.len(),
                self@ == map_after(old(self)@, events@.take(i as int)),
            decreases events@.len() - i,
        {
            proof {
                assert(events@.take(i as int + 1).drop_last() =~= events@.take(i as int));
                assert(events@.take(i as int + 1).last() == events@[i as int]);
            }
            match &events[i] {
                ClipboardEvent::NewOffer { offer } => self.announce(*offer),
                ClipboardEvent::AdvertisedType { offer, content_type } => self.insert(
                    content_type.clone(),
                    *offer,
                ),
            }
            i = i + 1;
        }
        proof {
            assert(events@.take(events@.len() as int) =~= events@);
        }
    }
}

/// The store's snapshot reflects the delivered events exactly: its domain
/// is the union of all content types advertised so far, and each type maps
/// to the offer of the most recent event advertising it.
pub proof fn lemma_store_matches_events(events: Seq<ClipboardEvent>)
    ensures
        map_after(Map::empty(), events).dom() =~= advertised_types(events),
        forall|t: Seq<char>|
            advertised_types(events).contains(t) ==> map_after(Map::empty(), events)[t]
                == last_advertiser(events, t),
    decreases events.len(),
{
    if events.len() > 0 {
        lemma_store_matches_events(events.drop_last());
        assert forall|t: Seq<char>| advertised_types(events).contains(t) implies map_after(
            Map::empty(),
            events,
        )[t] == last_advertiser(events, t) by {
            assert(map_after(Map::empty(), events) == event_step(
                map_after(Map::empty(), events.drop_last()),
                events.last(),
            ));
            if !advertises(events.last(), t) {
                assert(advertised_types(events.drop_last()).contains(t));
                assert(map_after(Map::empty(), events)[t] == map_after(
                    Map::empty(),
                    events.drop_last(),
                )[t]);
                assert(map_after(Map::empty(), events.drop_last())[t] == last_advertiser(
                    events.drop_last(),
                    t,
                ));
                assert(last_advertiser(events, t) == last_advertiser(events.drop_last(), t));
            }
        };
    }
}

} // verus!
