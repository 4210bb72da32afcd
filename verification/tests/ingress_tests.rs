use ingress::buffer::MessageType;
use ingress::errors::IngressError;
use ingress::hex::HexDecoder;
use ingress::ingress_manager::IngressManager;
use ingress::ingress_manager::State;
use ingress::syscall::Syscall;
use ingress::system::System;

const STX: u8 = 2;
const ETX: u8 = 3;
const US: u8 = 31;

fn frame(type_byte: u8, fields: &[&[u8]]) -> Vec<u8> {
    let mut f = vec![STX, type_byte];
    for field in fields {
        f.push(US);
        f.extend_from_slice(field);
    }
    f.push(ETX);
    f
}

#[test]
fn syscall_frame_sets_clock() {
    let mut imgr = IngressManager::new();
    let mut system = System::new();
    let data = frame(b'S', &[b"T12:34:56"]);
    assert_eq!(imgr.write(&data), Ok(()));
    assert_eq!(imgr.process(&mut system), Ok(()));
    assert_eq!(system.clock.hours, 12);
    assert_eq!(system.clock.minutes, 34);
    assert_eq!(system.clock.seconds, 56);
    assert_eq!(imgr.state, State::Wait);
}

#[test]
fn syscall_frame_midnight() {
    let mut imgr = IngressManager::new();
    let mut system = System::new();
    system.clock.hours = 7;
    let data = frame(b'S', &[b"T00:00:00"]);
    assert_eq!(imgr.write(&data), Ok(()));
    assert_eq!(imgr.process(&mut system), Ok(()));
    assert_eq!(system.clock.hours, 0);
    assert_eq!(system.clock.minutes, 0);
    assert_eq!(system.clock.seconds, 0);
}

#[test]
fn malformed_syscall_leaves_clock() {
    let mut imgr = IngressManager::new();
    let mut system = System::new();
    let data = frame(b'S', &[b"Thello:00"]);
    assert_eq!(imgr.write(&data), Ok(()));
    assert_eq!(imgr.process(&mut system), Ok(()));
    assert_eq!(system.clock.hours, 0);
    assert_eq!(system.clock.minutes, 0);
    assert_eq!(system.clock.seconds, 0);
    assert_eq!(imgr.state, State::Wait);
}

#[test]
fn notification_frame_sections() {
    let mut imgr = IngressManager::new();
    let mut system = System::new();
    let data = frame(b'N', &[b"src", b"title", b"body"]);
    assert_eq!(imgr.write(&data), Ok(()));
    assert_eq!(imgr.process(&mut system), Ok(()));
    assert_eq!(system.nm.notes.len(), 1);
    assert_eq!(system.nm.notes[0].data, b"srctitlebody".to_vec());
    assert_eq!(system.nm.notes[0].sections.source_end, 3);
    assert_eq!(system.nm.notes[0].sections.title_end, 8);
    assert_eq!(system.nm.notes[0].sections.body_end, 12);
}

#[test]
fn application_frame_decodes_hex() {
    let mut imgr = IngressManager::new();
    let mut system = System::new();
    let data = frame(b'A', &[b"41A2", b"0A"]);
    assert_eq!(imgr.write(&data), Ok(()));
    assert_eq!(imgr.process(&mut system), Ok(()));
    assert_eq!(system.am.checksum, vec![0x41, 0xA2]);
    assert_eq!(system.am.ram, vec![0x0A]);
    assert!(system.am.verified);
    assert!(system.am.status().verified);
}

#[test]
fn invalid_hex_aborts_frame() {
    let mut imgr = IngressManager::new();
    let mut system = System::new();
    let data = frame(b'A', &[b"4G"]);
    assert_eq!(imgr.write(&data), Ok(()));
    assert_eq!(imgr.process(&mut system), Ok(()));
    assert_eq!(imgr.state, State::Wait);
    assert!(system.am.checksum.is_empty());
    assert!(!system.am.verified);
    assert!(system.nm.notes.is_empty());
}

#[test]
fn hex_decoder_refuses_bad_digit() {
    let mut hd = HexDecoder::new();
    assert_eq!(hd.feed(b'4'), Ok(None));
    assert_eq!(hd.feed(b'G'), Err(IngressError::InvalidHexDigit));
    // the accumulator was reset: a fresh, valid pair decodes
    assert_eq!(hd.feed(b'4'), Ok(None));
    assert_eq!(hd.feed(b'1'), Ok(Some(0x41)));
}

#[test]
fn hex_decoder_refuses_lower_case() {
    let mut hd = HexDecoder::new();
    assert_eq!(hd.feed(b'a'), Ok(None));
    assert_eq!(hd.feed(b'0'), Err(IngressError::InvalidHexDigit));
}

#[test]
fn frame_start_mid_frame_discards() {
    let mut imgr = IngressManager::new();
    let mut system = System::new();
    let mut data = vec![STX, b'N', US, b'a', b'b'];
    data.extend_from_slice(&frame(b'S', &[b"T01:02:03"]));
    assert_eq!(imgr.write(&data), Ok(()));
    assert_eq!(imgr.process(&mut system), Ok(()));
    assert!(system.nm.notes.is_empty());
    assert_eq!(system.clock.hours, 1);
    assert_eq!(system.clock.minutes, 2);
    assert_eq!(system.clock.seconds, 3);
}

#[test]
fn unknown_type_never_dispatches() {
    let mut imgr = IngressManager::new();
    let mut system = System::new();
    let data = vec![STX, b'Z', b'x', b'y', ETX];
    assert_eq!(imgr.write(&data), Ok(()));
    assert_eq!(imgr.process(&mut system), Ok(()));
    assert_eq!(imgr.state, State::Wait);
    assert!(system.nm.notes.is_empty());
    assert!(!system.am.verified);
    assert_eq!(system.clock.hours, 0);
}

#[test]
fn queue_overflow_at_capacity_boundary() {
    let mut imgr = IngressManager::new();
    let exactly_full = vec![0u8; 512];
    assert_eq!(imgr.write(&exactly_full), Ok(()));
    // one more byte is the overflow, reported exactly at the boundary
    assert_eq!(imgr.write(&[0u8]), Err(IngressError::QueueOverflow));
    let mut system = System::new();
    assert_eq!(imgr.process(&mut system), Ok(()));
    // after a drain there is room again
    assert_eq!(imgr.write(&[0u8]), Ok(()));
}

#[test]
fn queue_overflow_in_one_write() {
    let mut imgr = IngressManager::new();
    let too_much = vec![0u8; 513];
    assert_eq!(imgr.write(&too_much), Err(IngressError::QueueOverflow));
}

#[test]
fn empty_queue_process_is_noop() {
    let mut imgr = IngressManager::new();
    let mut system = System::new();
    assert_eq!(imgr.process(&mut system), Ok(()));
    assert_eq!(imgr.state, State::Init);
    assert!(imgr.buffer.data.is_empty());
    assert!(system.nm.notes.is_empty());
    assert!(system.am.checksum.is_empty());
    assert_eq!(system.clock.hours, 0);
}

#[test]
fn two_frames_two_dispatches() {
    let mut imgr = IngressManager::new();
    let mut system = System::new();
    let mut data = frame(b'N', &[b"a", b"b", b"c"]);
    data.extend_from_slice(&frame(b'N', &[b"d", b"e", b"f"]));
    assert_eq!(imgr.write(&data), Ok(()));
    assert_eq!(imgr.process(&mut system), Ok(()));
    assert_eq!(system.nm.notes.len(), 2);
    assert_eq!(system.nm.notes[0].data, b"abc".to_vec());
    assert_eq!(system.nm.notes[1].data, b"def".to_vec());
}

#[test]
fn notification_store_full_drops() {
    let mut imgr = IngressManager::new();
    let mut system = System::new();
    for _ in 0..10 {
        let data = frame(b'N', &[b"s", b"t", b"b"]);
        assert_eq!(imgr.write(&data), Ok(()));
        assert_eq!(imgr.process(&mut system), Ok(()));
    }
    assert_eq!(system.nm.notes.len(), 8);
}

#[test]
fn frame_buffer_overflow_is_fatal() {
    let mut imgr = IngressManager::new();
    let mut system = System::new();
    let big = vec![b'x'; 300];
    let data = frame(b'N', &[b"s", b"t", &big]);
    assert_eq!(imgr.write(&data), Ok(()));
    assert_eq!(imgr.process(&mut system), Err(IngressError::BufferFull));
    assert_eq!(imgr.state, State::Wait);
    assert!(system.nm.notes.is_empty());
}

#[test]
fn empty_notification_fields() {
    let mut imgr = IngressManager::new();
    let mut system = System::new();
    let data = frame(b'N', &[b"", b"", b""]);
    assert_eq!(imgr.write(&data), Ok(()));
    assert_eq!(imgr.process(&mut system), Ok(()));
    assert_eq!(system.nm.notes.len(), 1);
    assert!(system.nm.notes[0].data.is_empty());
    assert_eq!(system.nm.notes[0].sections.source_end, 0);
    assert_eq!(system.nm.notes[0].sections.title_end, 0);
    assert_eq!(system.nm.notes[0].sections.body_end, 0);
}

#[test]
fn empty_syscall_body_is_malformed() {
    let mut imgr = IngressManager::new();
    let mut system = System::new();
    let data = frame(b'S', &[b""]);
    assert_eq!(imgr.write(&data), Ok(()));
    assert_eq!(imgr.process(&mut system), Ok(()));
    assert_eq!(system.clock.hours, 0);
    assert_eq!(imgr.state, State::Wait);
}

#[test]
fn stray_frame_ends_do_nothing() {
    let mut imgr = IngressManager::new();
    let mut system = System::new();
    assert_eq!(imgr.write(&[ETX, ETX]), Ok(()));
    assert_eq!(imgr.process(&mut system), Ok(()));
    assert_eq!(imgr.state, State::Wait);
    assert!(system.nm.notes.is_empty());
    assert!(!system.am.verified);
}

#[test]
fn frame_resumes_across_process_calls() {
    let mut imgr = IngressManager::new();
    let mut system = System::new();
    assert_eq!(imgr.write(&[STX, b'N', US, b'a']), Ok(()));
    assert_eq!(imgr.process(&mut system), Ok(()));
    assert!(system.nm.notes.is_empty());
    assert_eq!(imgr.write(&[US, b'b', US, b'c', ETX]), Ok(()));
    assert_eq!(imgr.process(&mut system), Ok(()));
    assert_eq!(system.nm.notes.len(), 1);
    assert_eq!(system.nm.notes[0].data, b"abc".to_vec());
    assert_eq!(system.nm.notes[0].sections.source_end, 1);
    assert_eq!(system.nm.notes[0].sections.title_end, 2);
    assert_eq!(system.nm.notes[0].sections.body_end, 3);
}

#[test]
fn write_empty_slice_is_ok() {
    let mut imgr = IngressManager::new();
    assert_eq!(imgr.write(&[]), Ok(()));
}

#[test]
fn determine_type_classifies() {
    let mut imgr = IngressManager::new();
    assert_eq!(imgr.determine_type(b'N'), MessageType::Notification);
    assert_eq!(imgr.determine_type(b'S'), MessageType::Syscall);
    assert_eq!(imgr.determine_type(b'A'), MessageType::Application);
    assert_eq!(imgr.determine_type(b'Z'), MessageType::Unknown);
}

#[test]
fn syscall_parse_exact() {
    assert_eq!(
        Syscall::parse(&b"T23:59:59".to_vec()),
        Ok(Syscall::SetTime { hours: 23, minutes: 59, seconds: 59 })
    );
    assert!(Syscall::parse(&b"T24:00:00".to_vec()).is_err());
    assert!(Syscall::parse(&b"T00:60:00".to_vec()).is_err());
    assert!(Syscall::parse(&b"T00:00:60".to_vec()).is_err());
    assert!(Syscall::parse(&b"X00:00:00".to_vec()).is_err());
    assert!(Syscall::parse(&b"T00:00:0".to_vec()).is_err());
    assert!(Syscall::parse(&b"T0a:00:00".to_vec()).is_err());
}

#[test]
fn application_restart_clears_staged_load() {
    let mut imgr = IngressManager::new();
    let mut system = System::new();
    let first = frame(b'A', &[b"41A2", b"0A"]);
    assert_eq!(imgr.write(&first), Ok(()));
    assert_eq!(imgr.process(&mut system), Ok(()));
    assert_eq!(system.am.ram, vec![0x0A]);
    // a new application frame first kills the prior load
    let second = frame(b'A', &[b"FFFF", b"0102"]);
    assert_eq!(imgr.write(&second), Ok(()));
    assert_eq!(imgr.process(&mut system), Ok(()));
    assert_eq!(system.am.checksum, vec![0xFF, 0xFF]);
    assert_eq!(system.am.ram, vec![0x01, 0x02]);
}

#[test]
fn incomplete_application_fails_verification() {
    let mut imgr = IngressManager::new();
    let mut system = System::new();
    // checksum only, no firmware bytes
    let data = frame(b'A', &[b"41A2"]);
    assert_eq!(imgr.write(&data), Ok(()));
    assert_eq!(imgr.process(&mut system), Ok(()));
    assert!(!system.am.verified);
    let status = system.am.status();
    assert_eq!(status.checksum_len, 2);
    assert_eq!(status.ram_len, 0);
    assert!(!status.verified);
}
