use superclip::errors::ClipboardError;
use superclip::registry::Capabilities;
use superclip::registry::RegistryEntry;
use superclip::registry::lookup_version;
use superclip::registry::resolve_capabilities;
use superclip::registry::resolve_interface;
use superclip::session::FetchPhase;
use superclip::session::FetchSession;
use superclip::session::plain_text_content_type;
use superclip::session::select_from_events;
use superclip::store::ClipboardEvent;
use superclip::store::OfferStore;
use superclip::transfer::ReadStep;
use superclip::transfer::TransferBuffer;
use superclip::transfer::absorb_read;

const PLAIN_TEXT: &str = "text/plain;charset=utf-8";

fn adv(offer: u64, content_type: &str) -> ClipboardEvent {
    ClipboardEvent::AdvertisedType {
        offer,
        content_type: content_type.to_string(),
    }
}

#[test]
fn store_snapshot_is_union_of_advertised_types() {
    let mut store = OfferStore::new();
    store.apply_event(ClipboardEvent::NewOffer { offer: 1 });
    store.apply_event(adv(1, PLAIN_TEXT));
    store.apply_event(adv(1, "text/html"));
    assert_eq!(store.announced_count(), 1);
    assert_eq!(store.get(&PLAIN_TEXT.to_string()), Some(1));
    assert_eq!(store.get(&"text/html".to_string()), Some(1));
    assert_eq!(store.get(&"image/png".to_string()), None);
    assert!(store.contains(&PLAIN_TEXT.to_string()));
    assert!(!store.contains(&"image/png".to_string()));
}

#[test]
fn store_maps_type_to_most_recent_advertiser() {
    let mut store = OfferStore::new();
    store.apply_event(ClipboardEvent::NewOffer { offer: 1 });
    store.apply_event(ClipboardEvent::NewOffer { offer: 2 });
    store.apply_event(adv(1, PLAIN_TEXT));
    store.apply_event(adv(2, PLAIN_TEXT));
    assert_eq!(store.get(&PLAIN_TEXT.to_string()), Some(2));
}

#[test]
fn selection_is_deterministic_for_a_fixed_event_sequence() {
    let events = vec![
        ClipboardEvent::NewOffer { offer: 4 },
        adv(4, "text/html"),
        adv(4, PLAIN_TEXT),
        ClipboardEvent::NewOffer { offer: 9 },
        adv(9, "image/png"),
    ];
    let again = vec![
        ClipboardEvent::NewOffer { offer: 4 },
        adv(4, "text/html"),
        adv(4, PLAIN_TEXT),
        ClipboardEvent::NewOffer { offer: 9 },
        adv(9, "image/png"),
    ];
    let first = select_from_events(&events);
    let second = select_from_events(&again);
    assert_eq!(first, Ok(4));
    assert_eq!(first, second);
}

#[test]
fn selection_fails_without_a_plain_text_offer() {
    let events = vec![
        ClipboardEvent::NewOffer { offer: 1 },
        adv(1, "text/html"),
        adv(1, "image/png"),
    ];
    assert_eq!(
        select_from_events(&events),
        Err(ClipboardError::NoSuitableContent)
    );
    assert_eq!(
        select_from_events(&Vec::new()),
        Err(ClipboardError::NoSuitableContent)
    );
}

#[test]
fn last_announcing_offer_wins_selection() {
    let events = vec![
        ClipboardEvent::NewOffer { offer: 1 },
        adv(1, PLAIN_TEXT),
        ClipboardEvent::NewOffer { offer: 2 },
        adv(2, PLAIN_TEXT),
    ];
    assert_eq!(select_from_events(&events), Ok(2));
}

#[test]
fn hello_bytes_decode_to_hello() {
    let mut buffer = TransferBuffer::new();
    buffer.push_chunk(b"hello", 5);
    assert_eq!(buffer.decode(), Ok("hello".to_string()));
}

#[test]
fn lone_continuation_byte_is_an_encoding_error() {
    let mut buffer = TransferBuffer::new();
    buffer.push_chunk(&[0x80], 1);
    assert_eq!(buffer.decode(), Err(ClipboardError::Encoding));
}

#[test]
fn multibyte_sequences_decode_as_text_not_raw_bytes() {
    let mut buffer = TransferBuffer::new();
    buffer.push_chunk(&[0xC3, 0xA9], 2);
    let text = buffer.decode().unwrap();
    assert_eq!(text, "\u{e9}");
    assert_eq!(text.chars().count(), 1);
}

#[test]
fn three_chunked_reads_reassemble_byte_identically() {
    let payload: Vec<u8> = (0..8202u32).map(|i| b'a' + (i % 23) as u8).collect();
    let mut buffer = TransferBuffer::new();
    buffer.push_chunk(&payload[0..4096], 4096);
    buffer.push_chunk(&payload[4096..8192], 4096);
    let mut tail = [0u8; 4096];
    tail[..10].copy_from_slice(&payload[8192..8202]);
    buffer.push_chunk(&tail, 10);
    assert_eq!(buffer.len(), 8202);
    assert_eq!(buffer.bytes(), &payload[..]);
}

#[test]
fn partial_chunk_reads_take_only_the_bytes_read() {
    let mut buffer = TransferBuffer::new();
    let chunk = [b'x', b'y', b'z', 0, 0, 0];
    buffer.push_chunk(&chunk, 3);
    assert_eq!(buffer.bytes(), b"xyz");
}

#[test]
fn empty_transfer_decodes_to_the_empty_string() {
    let buffer = TransferBuffer::new();
    assert_eq!(buffer.len(), 0);
    assert_eq!(buffer.decode(), Ok(String::new()));
}

#[test]
fn read_outcomes_drive_the_transfer_loop() {
    let mut buffer = TransferBuffer::new();
    let step = absorb_read(&mut buffer, b"hi", Ok(2));
    assert_eq!(step, ReadStep::Extended);
    let step = absorb_read(&mut buffer, b"", Ok(0));
    assert_eq!(step, ReadStep::Finished);
    assert_eq!(buffer.bytes(), b"hi");
    let step = absorb_read(&mut buffer, b"", Err(5));
    assert_eq!(step, ReadStep::Failed);
    assert_eq!(buffer.decode(), Ok("hi".to_string()));
}

fn entry(name: &str, version: u32) -> RegistryEntry {
    RegistryEntry {
        name: name.to_string(),
        version,
    }
}

#[test]
fn registry_lookup_finds_the_first_matching_entry() {
    let registry = vec![
        entry("wl_compositor", 4),
        entry("wl_seat", 7),
        entry("wl_seat", 3),
    ];
    assert_eq!(lookup_version(&registry, &"wl_seat".to_string()), Some(7));
    assert_eq!(lookup_version(&registry, &"wl_shm".to_string()), None);
}

#[test]
fn interface_versions_are_capped_at_the_highest_spoken() {
    let registry = vec![entry("wl_seat", 15)];
    assert_eq!(
        resolve_interface(&registry, &"wl_seat".to_string(), 1, 10),
        Ok(10)
    );
}

#[test]
fn an_interface_below_the_minimum_version_is_missing() {
    let registry = vec![entry("wl_seat", 2)];
    assert_eq!(
        resolve_interface(&registry, &"wl_seat".to_string(), 3, 10),
        Err(ClipboardError::MissingCapability {
            name: "wl_seat".to_string()
        })
    );
}

#[test]
fn both_capabilities_resolve_on_a_full_registry() {
    let registry = vec![
        entry("wl_compositor", 4),
        entry("wl_seat", 7),
        entry("wl_data_device_manager", 3),
    ];
    let caps: Capabilities = resolve_capabilities(&registry).unwrap();
    assert_eq!(caps.seat_version, 7);
    assert_eq!(caps.manager_version, 3);
}

#[test]
fn a_missing_seat_is_reported_by_name() {
    let registry = vec![entry("wl_data_device_manager", 3)];
    assert_eq!(
        resolve_capabilities(&registry),
        Err(ClipboardError::MissingCapability {
            name: "wl_seat".to_string()
        })
    );
}

#[test]
fn a_missing_data_device_manager_is_reported_by_name() {
    let registry = vec![entry("wl_seat", 7)];
    assert_eq!(
        resolve_capabilities(&registry),
        Err(ClipboardError::MissingCapability {
            name: "wl_data_device_manager".to_string()
        })
    );
}

#[test]
fn a_full_fetch_session_retrieves_the_clipboard_text() {
    let mut session = FetchSession::new();
    assert_eq!(session.fetch_phase(), FetchPhase::Collecting);
    session.deliver(ClipboardEvent::NewOffer { offer: 5 });
    session.deliver(adv(5, PLAIN_TEXT));
    session.barrier_completed();
    assert!(!session.ready_for_selection());
    session.barrier_completed();
    assert!(session.ready_for_selection());
    let request = session.begin_transfer(&plain_text_content_type()).unwrap();
    assert_eq!(session.fetch_phase(), FetchPhase::Requested);
    assert_eq!(request.offer, 5);
    assert_eq!(request.content_type, PLAIN_TEXT);
    let mut buffer = TransferBuffer::new();
    assert_eq!(absorb_read(&mut buffer, b"hello", Ok(5)), ReadStep::Extended);
    assert_eq!(absorb_read(&mut buffer, b"", Ok(0)), ReadStep::Finished);
    assert_eq!(session.complete_transfer(buffer), Ok("hello".to_string()));
    assert_eq!(session.fetch_phase(), FetchPhase::Complete);
}

#[test]
fn a_session_without_plain_text_fails_before_any_transfer() {
    let mut session = FetchSession::new();
    session.deliver(ClipboardEvent::NewOffer { offer: 5 });
    session.deliver(adv(5, "text/html"));
    session.barrier_completed();
    session.barrier_completed();
    assert_eq!(
        session.begin_transfer(&plain_text_content_type()),
        Err(ClipboardError::NoSuitableContent)
    );
}

#[test]
fn an_unadvertised_content_type_is_a_caller_error() {
    let mut session = FetchSession::new();
    session.deliver(adv(3, PLAIN_TEXT));
    session.barrier_completed();
    session.barrier_completed();
    assert_eq!(
        session.begin_transfer(&"text/html".to_string()),
        Err(ClipboardError::NoSuchOffer)
    );
}

#[test]
fn a_fetch_of_plain_text_never_advertised_reports_no_suitable_content() {
    let mut session = FetchSession::new();
    session.barrier_completed();
    session.barrier_completed();
    assert_eq!(
        session.begin_transfer(&PLAIN_TEXT.to_string()),
        Err(ClipboardError::NoSuitableContent)
    );
}

#[test]
fn an_aborted_transfer_reports_a_transfer_io_error() {
    let mut session = FetchSession::new();
    session.deliver(adv(8, PLAIN_TEXT));
    session.barrier_completed();
    session.barrier_completed();
    session.begin_transfer(&plain_text_content_type()).unwrap();
    assert_eq!(session.abort_transfer(), ClipboardError::TransferIo);
    assert_eq!(session.fetch_phase(), FetchPhase::Failed);
}

#[test]
fn an_invalid_transfer_discards_the_bytes() {
    let mut session = FetchSession::new();
    session.deliver(adv(8, PLAIN_TEXT));
    session.barrier_completed();
    session.barrier_completed();
    session.begin_transfer(&plain_text_content_type()).unwrap();
    let mut buffer = TransferBuffer::new();
    absorb_read(&mut buffer, &[0xFF, 0xFE], Ok(2));
    assert_eq!(
        session.complete_transfer(buffer),
        Err(ClipboardError::Encoding)
    );
}
