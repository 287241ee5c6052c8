use raven_gui::audio::{audio_setup, AudioError, FormatRange};
use raven_gui::console::ConsoleQueue;
use raven_gui::input::{button_mask, DeviceCall, HostEvent, MouseState};
use raven_gui::keys::{decode_key, raw_char, raw_text_chars, LogicalKey, PhysicalKey};
use raven_gui::pacer::{FramePacer, FRAME_QUANTUM_US};
use raven_gui::present::{frame_to_rgba, present_frame};
use raven_gui::stage::{Stage, TickInput};

const ALL_KEYS: [PhysicalKey; 59] = [
    PhysicalKey::ArrowUp,
    PhysicalKey::ArrowDown,
    PhysicalKey::ArrowLeft,
    PhysicalKey::ArrowRight,
    PhysicalKey::Home,
    PhysicalKey::Num0,
    PhysicalKey::Num1,
    PhysicalKey::Num2,
    PhysicalKey::Num3,
    PhysicalKey::Num4,
    PhysicalKey::Num5,
    PhysicalKey::Num6,
    PhysicalKey::Num7,
    PhysicalKey::Num8,
    PhysicalKey::Num9,
    PhysicalKey::A,
    PhysicalKey::B,
    PhysicalKey::C,
    PhysicalKey::D,
    PhysicalKey::E,
    PhysicalKey::F,
    PhysicalKey::G,
    PhysicalKey::H,
    PhysicalKey::I,
    PhysicalKey::J,
    PhysicalKey::K,
    PhysicalKey::L,
    PhysicalKey::M,
    PhysicalKey::N,
    PhysicalKey::O,
    PhysicalKey::P,
    PhysicalKey::Q,
    PhysicalKey::R,
    PhysicalKey::S,
    PhysicalKey::T,
    PhysicalKey::U,
    PhysicalKey::V,
    PhysicalKey::W,
    PhysicalKey::X,
    PhysicalKey::Y,
    PhysicalKey::Z,
    PhysicalKey::Backtick,
    PhysicalKey::Backslash,
    PhysicalKey::Pipe,
    PhysicalKey::Comma,
    PhysicalKey::Equals,
    PhysicalKey::Plus,
    PhysicalKey::OpenBracket,
    PhysicalKey::Minus,
    PhysicalKey::Period,
    PhysicalKey::CloseBracket,
    PhysicalKey::Semicolon,
    PhysicalKey::Colon,
    PhysicalKey::Slash,
    PhysicalKey::Questionmark,
    PhysicalKey::Space,
    PhysicalKey::Tab,
    PhysicalKey::Enter,
    PhysicalKey::Other,
];

fn quiet_tick(time: u64) -> TickInput {
    TickInput {
        time,
        events: Vec::new(),
        ctrl: false,
        alt: false,
        shift: false,
        pointer: None,
        primary: false,
        middle: false,
        secondary: false,
    }
}

fn mouse_of(calls: &[DeviceCall]) -> MouseState {
    let mut found = None;
    for c in calls {
        if let DeviceCall::Mouse(m) = c {
            assert!(found.is_none(), "more than one mouse call in a tick");
            found = Some(*m);
        }
    }
    found.expect("no mouse call in a tick")
}

fn console_of(calls: &[DeviceCall]) -> Vec<u8> {
    calls
        .iter()
        .filter_map(|c| match c {
            DeviceCall::Console(b) => Some(*b),
            _ => None,
        })
        .collect()
}

#[test]
fn letters_follow_shift() {
    assert_eq!(decode_key(PhysicalKey::A, false), Some(LogicalKey::Char(b'a')));
    assert_eq!(decode_key(PhysicalKey::A, true), Some(LogicalKey::Char(b'A')));
    assert_eq!(decode_key(PhysicalKey::Z, true), Some(LogicalKey::Char(b'Z')));
    assert_eq!(decode_key(PhysicalKey::Comma, true), Some(LogicalKey::Char(b'<')));
    assert_eq!(decode_key(PhysicalKey::Period, false), Some(LogicalKey::Char(b'.')));
}

#[test]
fn navigation_and_whitespace_keys() {
    assert_eq!(decode_key(PhysicalKey::ArrowUp, true), Some(LogicalKey::Up));
    assert_eq!(decode_key(PhysicalKey::ArrowLeft, false), Some(LogicalKey::Left));
    assert_eq!(decode_key(PhysicalKey::Home, false), Some(LogicalKey::Home));
    assert_eq!(decode_key(PhysicalKey::Enter, false), Some(LogicalKey::Char(b'\r')));
    assert_eq!(decode_key(PhysicalKey::Tab, true), Some(LogicalKey::Char(b'\t')));
    assert_eq!(decode_key(PhysicalKey::Space, false), Some(LogicalKey::Char(b' ')));
    assert_eq!(decode_key(PhysicalKey::Backslash, true), Some(LogicalKey::Char(b'\\')));
}

#[test]
fn shifted_symbols_are_left_to_text() {
    assert_eq!(decode_key(PhysicalKey::Num1, false), Some(LogicalKey::Char(b'1')));
    assert_eq!(decode_key(PhysicalKey::Num1, true), None);
    assert_eq!(decode_key(PhysicalKey::Num5, true), None);
    assert_eq!(decode_key(PhysicalKey::Minus, true), None);
    assert_eq!(decode_key(PhysicalKey::OpenBracket, false), Some(LogicalKey::Char(b'[')));
    assert_eq!(decode_key(PhysicalKey::OpenBracket, true), None);
}

#[test]
fn unmapped_key_gives_nothing() {
    assert_eq!(decode_key(PhysicalKey::Other, false), None);
    assert_eq!(decode_key(PhysicalKey::Other, true), None);
}

#[test]
fn decoding_is_deterministic() {
    for k in ALL_KEYS {
        for shift in [false, true] {
            assert_eq!(decode_key(k, shift), decode_key(k, shift));
        }
    }
}

#[test]
fn decoder_and_raw_text_are_disjoint() {
    for k in ALL_KEYS {
        for shift in [false, true] {
            if let Some(LogicalKey::Char(c)) = decode_key(k, shift) {
                assert!(!raw_char(c), "{:?} {} gives {}", k, shift, c);
            }
        }
    }
}

#[test]
fn raw_text_keeps_allow_listed_bytes_in_order() {
    assert_eq!(raw_text_chars(b"a\"{b}~5%"), vec![b'"', b'{', b'}', b'~', b'%']);
    assert_eq!(raw_text_chars(b"hello"), Vec::<u8>::new());
    assert_eq!(raw_text_chars(b""), Vec::<u8>::new());
}

#[test]
fn text_and_key_events_reach_the_device_in_order() {
    let mut stage = Stage::new();
    let mut input = quiet_tick(1);
    input.events = vec![
        HostEvent::Key { key: PhysicalKey::H, pressed: true },
        HostEvent::Text(b"!h".to_vec()),
        HostEvent::Key { key: PhysicalKey::H, pressed: false },
        HostEvent::Key { key: PhysicalKey::Other, pressed: true },
    ];
    let calls = stage.tick(&input);
    assert_eq!(
        calls[..4],
        [
            DeviceCall::Redraw,
            DeviceCall::Pressed(LogicalKey::Char(b'h')),
            DeviceCall::Char(b'!'),
            DeviceCall::Released(LogicalKey::Char(b'h')),
        ]
    );
    assert_eq!(calls.len(), 8);
}

#[test]
fn scroll_accumulates_then_flushes() {
    let mut stage = Stage::new();
    let mut first = quiet_tick(0);
    // Host convention: y is inverted relative to the device.
    first.events = vec![
        HostEvent::Scroll { dx: 3, dy: -2 },
        HostEvent::Scroll { dx: 1, dy: 5 },
    ];
    let m = mouse_of(&stage.tick(&first));
    assert_eq!((m.scroll_x, m.scroll_y), (4, -3));
    let m = mouse_of(&stage.tick(&quiet_tick(1)));
    assert_eq!((m.scroll_x, m.scroll_y), (0, 0));
}

#[test]
fn scroll_y_is_inverted() {
    let mut stage = Stage::new();
    let mut input = quiet_tick(0);
    input.events = vec![
        HostEvent::Scroll { dx: 3, dy: 2 },
        HostEvent::Scroll { dx: 1, dy: -5 },
    ];
    let m = mouse_of(&stage.tick(&input));
    assert_eq!((m.scroll_x, m.scroll_y), (4, 3));
}

#[test]
fn scroll_extremes_do_not_overflow() {
    let mut stage = Stage::new();
    let mut input = quiet_tick(0);
    input.events = vec![
        HostEvent::Scroll { dx: i32::MIN, dy: i32::MIN },
        HostEvent::Scroll { dx: i32::MIN, dy: i32::MIN },
    ];
    let m = mouse_of(&stage.tick(&input));
    assert_eq!((m.scroll_x, m.scroll_y), (2 * i32::MIN as i64, -2 * i32::MIN as i64));
}

#[test]
fn button_bitmask() {
    assert_eq!(button_mask(false, false, true), 0b100);
    assert_eq!(button_mask(true, true, false), 0b011);
    assert_eq!(button_mask(false, false, false), 0);
    assert_eq!(button_mask(false, true, false), 0b010);
    assert_eq!(button_mask(true, true, true), 0b111);
}

#[test]
fn buttons_are_polled_each_tick() {
    let mut stage = Stage::new();
    let mut input = quiet_tick(0);
    input.secondary = true;
    assert_eq!(mouse_of(&stage.tick(&input)).buttons, 0b100);
    let mut input = quiet_tick(1);
    input.primary = true;
    input.middle = true;
    assert_eq!(mouse_of(&stage.tick(&input)).buttons, 0b011);
    assert_eq!(mouse_of(&stage.tick(&quiet_tick(2))).buttons, 0);
}

#[test]
fn pointer_position_is_sticky() {
    let mut stage = Stage::new();
    let m = mouse_of(&stage.tick(&quiet_tick(0)));
    assert_eq!((m.x, m.y), (0, 0));
    let mut input = quiet_tick(1);
    input.pointer = Some((12, 34));
    let m = mouse_of(&stage.tick(&input));
    assert_eq!((m.x, m.y), (12, 34));
    let m = mouse_of(&stage.tick(&quiet_tick(2)));
    assert_eq!((m.x, m.y), (12, 34));
}

#[test]
fn modifiers_are_leveled_every_tick() {
    let mut stage = Stage::new();
    for t in 0..3u64 {
        let mut input = quiet_tick(t);
        input.ctrl = true;
        input.shift = t == 1;
        let calls = stage.tick(&input);
        let n = calls.len();
        assert_eq!(
            calls[n - 4..n - 1],
            [
                DeviceCall::Pressed(LogicalKey::Ctrl),
                DeviceCall::Released(LogicalKey::Alt),
                if t == 1 {
                    DeviceCall::Pressed(LogicalKey::Shift)
                } else {
                    DeviceCall::Released(LogicalKey::Shift)
                },
            ]
        );
    }
}

#[test]
fn pacer_redraw_count_over_two_hundred_ms() {
    let mut pacer = FramePacer::new(0, 15_000);
    let mut redraws = 0;
    for ms in 0..=200u64 {
        if pacer.poll(ms * 1000) {
            redraws += 1;
        }
    }
    assert_eq!(redraws, 200 / 15 + 1);
    assert_eq!(pacer.deadline, 14 * 15_000);
}

#[test]
fn pacer_catches_up_one_quantum_at_a_time() {
    let mut pacer = FramePacer::new(0, FRAME_QUANTUM_US);
    assert!(pacer.poll(100_000));
    assert_eq!(pacer.deadline, 15_000);
    assert!(pacer.poll(100_000));
    assert_eq!(pacer.deadline, 30_000);
    assert!(!pacer.poll(29_999));
    assert_eq!(pacer.deadline, 30_000);
}

#[test]
fn stage_redraws_first_and_only_when_due() {
    let mut stage = Stage::new();
    let calls = stage.tick(&quiet_tick(0));
    assert_eq!(calls[0], DeviceCall::Redraw);
    let calls = stage.tick(&quiet_tick(14_999));
    assert!(!calls.contains(&DeviceCall::Redraw));
    let calls = stage.tick(&quiet_tick(15_000));
    assert_eq!(calls[0], DeviceCall::Redraw);
    assert_eq!(stage.pacer.deadline, 30_000);
}

#[test]
fn single_pixel_is_reordered() {
    assert_eq!(frame_to_rgba(&[10, 20, 30, 40], 1, 1), vec![30, 20, 10, 40]);
}

#[test]
fn missing_pixels_are_opaque_black() {
    assert_eq!(
        frame_to_rgba(&[1, 2, 3, 4, 5, 6], 2, 1),
        vec![3, 2, 1, 4, 0, 0, 0, 255]
    );
    assert_eq!(frame_to_rgba(&[], 0, 5), Vec::<u8>::new());
}

#[test]
fn present_frame_notes_a_resize() {
    let f = present_frame((1, 1), (2, 1), &[1, 2, 3, 4, 5, 6, 7, 8]);
    assert!(f.resized);
    assert_eq!((f.width, f.height), (2, 1));
    assert_eq!(f.rgba, vec![3, 2, 1, 4, 7, 6, 5, 8]);
    let f = present_frame((2, 1), (2, 1), &[1, 2, 3, 4, 5, 6, 7, 8]);
    assert!(!f.resized);
}

#[test]
fn audio_format_exact_match() {
    let offered = [
        FormatRange { channels: 1, min_sample_rate: 44100, max_sample_rate: 44100 },
        FormatRange { channels: 4, min_sample_rate: 48000, max_sample_rate: 48000 },
        FormatRange { channels: 4, min_sample_rate: 44100, max_sample_rate: 44100 },
    ];
    let f = audio_setup(&offered, 44100, 4).unwrap();
    assert_eq!(f.index, 2);
    assert_eq!((f.sample_rate, f.channels), (44100, 4));
}

#[test]
fn audio_format_within_a_range() {
    let offered = [FormatRange { channels: 2, min_sample_rate: 8000, max_sample_rate: 96000 }];
    let f = audio_setup(&offered, 44100, 2).unwrap();
    assert_eq!((f.index, f.sample_rate, f.channels), (0, 44100, 2));
}

#[test]
fn audio_format_no_match_fails() {
    let offered = [
        FormatRange { channels: 1, min_sample_rate: 44100, max_sample_rate: 44100 },
        FormatRange { channels: 4, min_sample_rate: 48000, max_sample_rate: 48000 },
    ];
    assert_eq!(audio_setup(&offered, 44100, 4), Err(AudioError::NoMatchingFormat));
    assert_eq!(audio_setup(&[], 44100, 4), Err(AudioError::NoMatchingFormat));
}

#[test]
fn console_queue_is_fifo() {
    let mut q = ConsoleQueue::new();
    q.push(1);
    q.push(2);
    assert_eq!(q.len(), 2);
    assert_eq!(q.take(), Some(1));
    assert_eq!(q.take(), Some(2));
    assert_eq!(q.take(), None);
}

#[test]
fn console_bytes_one_per_tick_in_order() {
    let mut stage = Stage::new();
    for b in [0x41, 0x42, 0x43] {
        stage.push_console(b);
    }
    let mut seen = Vec::new();
    for t in 0..4u64 {
        let calls = stage.tick(&quiet_tick(t));
        let bytes = console_of(&calls);
        assert!(bytes.len() <= 1);
        if let Some(b) = bytes.first() {
            assert_eq!(calls.last(), Some(&DeviceCall::Console(*b)));
        }
        seen.extend(bytes);
    }
    assert_eq!(seen, vec![0x41, 0x42, 0x43]);
}
