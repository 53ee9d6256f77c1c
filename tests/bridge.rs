use midi_bridge::channel::CommandChannel;
use midi_bridge::command::{decode, Command, CommandError};
use midi_bridge::dispatch::{Cycle, Dispatcher};
use midi_bridge::init::{DeviceInitializer, InitPhase};
use midi_bridge::midi::{EncodeError, MidiMessage};
use midi_bridge::relay::{note_topology, TopologyNote};
use midi_bridge::text::chars_of;
use std::sync::Mutex;

const NAMES: [(&str, u8); 7] = [
    ("note_off", 0x80),
    ("note_on", 0x90),
    ("poly_key_pressure", 0xA0),
    ("controller_change", 0xB0),
    ("program_change", 0xC0),
    ("channel_pressure", 0xD0),
    ("pitch_bend", 0xE0),
];

fn expected_init_writes() -> Vec<Vec<u8>> {
    let mut v = vec![vec![0x9F, 12, 127, 0]];
    for i in 96u8..=120 {
        v.push(vec![0x9F, i, 47, 0]);
    }
    v.push(vec![0xBF, 59, 127]);
    v
}

fn run_init(d: &mut Dispatcher, fail_at: Option<usize>) -> Vec<Vec<u8>> {
    let mut writes = Vec::new();
    while let Some(ev) = d.init.next_write() {
        if Some(writes.len()) == fail_at {
            d.init.write_failed();
            break;
        }
        writes.push(ev);
        d.init.write_succeeded();
    }
    writes
}

#[test]
fn status_is_base_plus_channel() {
    for (name, base) in NAMES {
        for channel in 0u8..16 {
            let m = MidiMessage::from_description(name, channel, 60, 0).unwrap();
            assert_eq!(m, MidiMessage { status: base + channel, data_1: 60, data_2: 0 });
        }
        for channel in 16u8..=255 {
            assert_eq!(
                MidiMessage::from_description(name, channel, 1, 2),
                Err(EncodeError::InvalidChannel)
            );
        }
    }
}

#[test]
fn two_byte_types_keep_second_data_byte() {
    let m = MidiMessage::from_description("note_on", 3, 64, 100).unwrap();
    assert_eq!(m, MidiMessage { status: 0x93, data_1: 64, data_2: 100 });
    let m = MidiMessage::from_description("pitch_bend", 15, 0, 127).unwrap();
    assert_eq!(m.status, 0xEF);
}

#[test]
fn single_data_byte_types_need_zero_second_byte() {
    for name in ["program_change", "channel_pressure"] {
        for channel in [0u8, 9, 15] {
            assert!(MidiMessage::from_description(name, channel, 5, 0).is_ok());
            for d2 in 1u8..=255 {
                assert_eq!(
                    MidiMessage::from_description(name, channel, 5, d2),
                    Err(EncodeError::InvalidData2)
                );
            }
        }
    }
}

#[test]
fn unknown_names_are_refused() {
    for name in ["", "pitch_blend", "note", "NOTE_ON", "note_on ", "sysex"] {
        assert_eq!(
            MidiMessage::from_description(name, 0, 0, 0),
            Err(EncodeError::UnknownStatusName)
        );
    }
    assert_eq!(
        MidiMessage::from_description("sysex", 16, 0, 0),
        Err(EncodeError::InvalidChannel)
    );
}

#[test]
fn from_bytes_never_fails() {
    let values = [0u8, 1, 15, 16, 127, 128, 200, 255];
    for s in values {
        for a in values {
            for b in values {
                assert_eq!(
                    MidiMessage::from_bytes(s, a, b),
                    Ok(MidiMessage { status: s, data_1: a, data_2: b })
                );
            }
        }
    }
}

#[test]
fn channel_hands_out_newest_first() {
    let mut ch = CommandChannel::new();
    ch.enqueue("a".to_string());
    ch.enqueue("b".to_string());
    ch.enqueue("c".to_string());
    assert_eq!(ch.len(), 3);
    assert_eq!(ch.try_dequeue(), Some("c".to_string()));
    assert_eq!(ch.try_dequeue(), Some("b".to_string()));
    assert_eq!(ch.try_dequeue(), Some("a".to_string()));
    assert_eq!(ch.try_dequeue(), None);
    assert_eq!(ch.len(), 0);
}

#[test]
fn contended_channel_is_skipped_without_loss() {
    let shared = Mutex::new(CommandChannel::new());
    shared.lock().unwrap().enqueue("60 127 0".to_string());
    let mut d = Dispatcher::new();
    {
        let _held = shared.lock().unwrap();
        let polled = match shared.try_lock() {
            Ok(mut ch) => ch.try_dequeue(),
            Err(_) => None,
        };
        assert_eq!(polled, None);
        assert!(matches!(d.process(polled), Cycle::Idle));
    }
    assert_eq!(shared.lock().unwrap().len(), 1);
    let polled = shared.try_lock().unwrap().try_dequeue();
    assert_eq!(polled, Some("60 127 0".to_string()));
}

#[test]
fn init_writes_the_whole_sequence_in_order() {
    let mut d = Dispatcher::new();
    assert_eq!(d.init.phase, InitPhase::Uninitialized);
    assert!(d.init.next_write().is_none());
    assert!(matches!(d.process(Some("init".to_string())), Cycle::Init));
    assert_eq!(d.init.phase, InitPhase::Enabling);
    let writes = run_init(&mut d, None);
    assert_eq!(writes.len(), 27);
    assert_eq!(writes, expected_init_writes());
    assert_eq!(writes[0], vec![0x9F, 12, 127, 0]);
    assert_eq!(writes[1], vec![0x9F, 96, 47, 0]);
    assert_eq!(writes[25], vec![0x9F, 120, 47, 0]);
    assert_eq!(writes[26], vec![0xBF, 59, 127]);
    assert!(d.init.is_ready());
    assert!(d.init.next_write().is_none());
}

#[test]
fn failed_init_write_stops_the_run_and_init_restarts_it() {
    let mut d = Dispatcher::new();
    d.process(Some("init".to_string()));
    let writes = run_init(&mut d, Some(5));
    assert_eq!(writes.len(), 5);
    assert_eq!(d.init.phase, InitPhase::Coloring(100));
    assert!(!d.init.active);
    assert!(d.init.next_write().is_none());
    let mut d2 = Dispatcher::new();
    d2.process(Some("init".to_string()));
    assert_eq!(run_init(&mut d2, Some(0)).len(), 0);
    assert_eq!(d2.init.phase, InitPhase::Enabling);
    d.process(Some("init".to_string()));
    assert_eq!(run_init(&mut d, None), expected_init_writes());
}

#[test]
fn initializer_steps() {
    let mut i = DeviceInitializer::new();
    assert!(!i.is_ready());
    i.start();
    assert_eq!(i.next_write(), Some(vec![0x9F, 12, 127, 0]));
    i.write_succeeded();
    assert_eq!(i.phase, InitPhase::Coloring(96));
    assert_eq!(i.next_write(), Some(vec![0x9F, 96, 47, 0]));
}

#[test]
fn raw_command_gives_one_write() {
    let mut d = Dispatcher::new();
    match d.process(Some("60 127 0".to_string())) {
        Cycle::Write(bytes) => assert_eq!(bytes, vec![60, 127, 0, 0]),
        other => panic!("unexpected {:?}", other),
    }
    assert!(d.init.next_write().is_none());
    match d.process(Some("abc 1 2".to_string())) {
        Cycle::Rejected(e) => assert_eq!(e, CommandError::ByteParseError),
        other => panic!("unexpected {:?}", other),
    }
    match d.process(Some("1 2".to_string())) {
        Cycle::Rejected(e) => assert_eq!(e, CommandError::TokenCountError),
        other => panic!("unexpected {:?}", other),
    }
    assert!(matches!(d.process(None), Cycle::Idle));
}

#[test]
fn decode_examples() {
    assert_eq!(decode("init"), Ok(Command::Init));
    assert_eq!(decode("60 127 0"), Ok(Command::RawTriple(60, 127, 0)));
    assert_eq!(decode("0 0 255"), Ok(Command::RawTriple(0, 0, 255)));
    assert_eq!(decode("+5 007 19"), Ok(Command::RawTriple(5, 7, 19)));
    assert_eq!(decode("144 60 256"), Err(CommandError::ByteParseError));
    assert_eq!(decode("-1 0 0"), Err(CommandError::ByteParseError));
    assert_eq!(decode("1 + 2"), Err(CommandError::ByteParseError));
    assert_eq!(decode("1  2"), Err(CommandError::ByteParseError));
    assert_eq!(decode("1 2 "), Err(CommandError::ByteParseError));
    assert_eq!(decode("1 2 3 4"), Err(CommandError::TokenCountError));
    assert_eq!(decode("1 2"), Err(CommandError::TokenCountError));
    assert_eq!(decode(""), Err(CommandError::TokenCountError));
    assert_eq!(decode("init "), Err(CommandError::TokenCountError));
    assert_eq!(decode("1\t2\t3"), Err(CommandError::TokenCountError));
    assert_eq!(decode("99999999999 1 2"), Err(CommandError::ByteParseError));
}

#[test]
fn topology_notes() {
    assert_eq!(note_topology(true, true, true), TopologyNote::FirstIsMine { connected: true });
    assert_eq!(note_topology(false, true, false), TopologyNote::SecondIsMine { connected: false });
    assert_eq!(note_topology(false, false, true), TopologyNote::NeitherIsMine);
}

#[test]
fn chars_in_order() {
    assert_eq!(chars_of("aé b"), vec!['a', 'é', ' ', 'b']);
    assert_eq!(chars_of(""), Vec::<char>::new());
}
