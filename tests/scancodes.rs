use tinix::devices::keyboard::{
    get_ascii_key, get_decoded_key, get_keycode, is_end_of_input, KeyCode, KeyDecoder,
    RingBuffer32B, StandardIn,
};
use pc_keyboard::DecodedKey;

#[test]
fn new_queue_is_empty_not_full() {
    let q = RingBuffer32B::new();
    assert!(q.is_empty());
    assert!(!q.is_full());
}

#[test]
fn reads_return_writes_in_order() {
    let mut q = RingBuffer32B::new();
    q.write(1);
    q.write(2);
    assert_eq!(q.read(), Some(1));
    q.write(3);
    assert_eq!(q.peek(), 2);
    assert_eq!(q.read(), Some(2));
    assert_eq!(q.read(), Some(3));
    assert_eq!(q.read(), None);
    assert!(q.is_empty());
}

#[test]
fn thirty_second_write_is_dropped() {
    let mut q = RingBuffer32B::new();
    for b in 0..31u8 {
        q.write(b + 100);
    }
    assert!(q.is_full());
    assert!(!q.is_empty());
    q.write(7);
    let mut drained = Vec::new();
    while let Some(b) = q.read() {
        drained.push(b);
    }
    let expected: Vec<u8> = (0..31u8).map(|b| b + 100).collect();
    assert_eq!(drained, expected);
    assert!(q.is_empty());
}

#[test]
fn fifo_across_wraparound() {
    let mut q = RingBuffer32B::new();
    let mut next_in: u32 = 0;
    let mut next_out: u32 = 0;
    for round in 0..10u32 {
        for _ in 0..25 {
            q.write((next_in % 256) as u8);
            next_in += 1;
        }
        for _ in 0..(25 - round % 2) {
            assert_eq!(q.read(), Some((next_out % 256) as u8));
            next_out += 1;
        }
    }
    while let Some(b) = q.read() {
        assert_eq!(b, (next_out % 256) as u8);
        next_out += 1;
    }
    assert_eq!(next_in, next_out);
}

#[test]
fn full_after_wraparound_holds_thirty_one() {
    let mut q = RingBuffer32B::new();
    for b in 0..20u8 {
        q.write(b);
    }
    for _ in 0..20 {
        q.read();
    }
    for b in 0..31u8 {
        assert!(!q.is_full());
        q.write(b);
    }
    assert!(q.is_full());
    assert_eq!(q.peek(), 0);
}

#[test]
fn empty_queue_decodes_nothing() {
    let mut q = RingBuffer32B::new();
    let mut dec = KeyDecoder::new();
    assert_eq!(get_decoded_key(&mut q, &mut dec), None);
    assert!(get_ascii_key(&mut q, &mut dec).is_none());
    assert!(get_keycode(&mut q, &mut dec).is_none());
}

#[test]
fn letter_press_decodes_to_character() {
    let mut q = RingBuffer32B::new();
    let mut dec = KeyDecoder::new();
    q.write(0x1E);
    assert_eq!(get_ascii_key(&mut q, &mut dec), Some('a'));
    assert!(q.is_empty());
}

#[test]
fn shift_changes_the_character() {
    let mut q = RingBuffer32B::new();
    let mut dec = KeyDecoder::new();
    q.write(0x2A);
    q.write(0x1E);
    assert_eq!(get_ascii_key(&mut q, &mut dec), None);
    assert_eq!(get_ascii_key(&mut q, &mut dec), Some('A'));
}

#[test]
fn release_gives_no_key() {
    let mut q = RingBuffer32B::new();
    let mut dec = KeyDecoder::new();
    q.write(0x9E);
    assert_eq!(get_decoded_key(&mut q, &mut dec), None);
}

#[test]
fn arrow_key_decodes_to_arrow_symbol() {
    let mut q = RingBuffer32B::new();
    let mut dec = KeyDecoder::new();
    q.write(0xE0);
    q.write(0x48);
    assert!(get_keycode(&mut q, &mut dec).is_none());
    let k = get_keycode(&mut q, &mut dec).unwrap();
    assert_eq!(k.as_u8(), 128);
}

#[test]
fn arrow_key_is_no_character() {
    let mut q = RingBuffer32B::new();
    let mut dec = KeyDecoder::new();
    q.write(0xE0);
    q.write(0x50);
    assert_eq!(get_ascii_key(&mut q, &mut dec), None);
    assert_eq!(get_ascii_key(&mut q, &mut dec), None);
}

#[test]
fn decoder_add_scancode_directly() {
    let mut dec = KeyDecoder::new();
    assert_eq!(dec.add_scancode(0x10), Some(DecodedKey::Unicode('q')));
}

#[test]
fn keycode_from_decoded_key() {
    assert_eq!(
        KeyCode::from_dec_key(DecodedKey::RawKey(pc_keyboard::KeyCode::ArrowLeft)).as_u8(),
        130
    );
    assert_eq!(KeyCode::from_dec_key(DecodedKey::RawKey(pc_keyboard::KeyCode::F1)).as_u8(), 0);
    assert_eq!(KeyCode::from_dec_key(DecodedKey::Unicode('x')), KeyCode::KEY_X);
    assert_eq!(KeyCode::from_dec_key(DecodedKey::Unicode('A')), KeyCode::KEY_A);
    assert_eq!(KeyCode::from_dec_key(DecodedKey::Unicode(' ')), KeyCode::KEY_SPACE);
    assert_eq!(KeyCode::from_dec_key(DecodedKey::Unicode('0')), KeyCode::KEY_0);
    assert_eq!(KeyCode::from_dec_key(DecodedKey::Unicode('~')), KeyCode::KEY_TILDE);
    assert_eq!(KeyCode::from_dec_key(DecodedKey::Unicode('_')), KeyCode::KEY_UNDERSCORE);
    assert_eq!(KeyCode::from_dec_key(DecodedKey::Unicode('{')), KeyCode::KEY_RIGHT_CURLY_BRACKET);
    assert_eq!(KeyCode::from_dec_key(DecodedKey::Unicode('\u{7f}')), KeyCode::DEL);
    assert_eq!(KeyCode::from_dec_key(DecodedKey::Unicode('\n')), KeyCode::LF);
    assert_eq!(KeyCode::from_dec_key(DecodedKey::Unicode('\u{1c}')), KeyCode::FS);
    assert_eq!(KeyCode::from_dec_key(DecodedKey::Unicode('\u{1b}')), KeyCode::NUL);
    assert_eq!(KeyCode::from_dec_key(DecodedKey::Unicode('`')), KeyCode::NUL);
    assert_eq!(KeyCode::from_dec_key(DecodedKey::Unicode('é')), KeyCode::NUL);
}

#[test]
fn keycode_codes() {
    assert_eq!(KeyCode::NUL.as_u8(), 0);
    assert_eq!(KeyCode::US.as_u8(), 29);
    assert_eq!(KeyCode::KEY_SPACE.as_u8(), 30);
    assert_eq!(KeyCode::KEY_A.as_u8(), 63);
    assert_eq!(KeyCode::KEY_UNDERSCORE.as_u8(), 93);
    assert_eq!(KeyCode::KEY_RIGHT_CURLY_BRACKET.as_u8(), 123);
    assert_eq!(KeyCode::DEL.as_u8(), 127);
    assert_eq!(KeyCode::ARROW_RIGHT.as_u8(), 131);
    assert_eq!(KeyCode::KEY_SPACE.as_char(), '\u{1e}');
}

#[test]
fn keycode_from_small_numbers() {
    assert_eq!(KeyCode::from_u8(0), KeyCode::NUL);
    assert_eq!(KeyCode::from_u8(4), KeyCode::EOT);
    assert_eq!(KeyCode::from_u8(5), KeyCode::ENQ);
    assert_eq!(KeyCode::from_u8(6), KeyCode::BS);
    assert_eq!(KeyCode::from_u8(7), KeyCode::NUL);
    assert_eq!(KeyCode::from_u8(1000), KeyCode::NUL);
}


#[test]
fn letter_press_decodes_to_keycode() {
    let mut q = RingBuffer32B::new();
    let mut dec = KeyDecoder::new();
    q.write(0x1E);
    assert_eq!(get_keycode(&mut q, &mut dec), Some(KeyCode::KEY_A));
    q.write(0x39);
    assert_eq!(get_keycode(&mut q, &mut dec), Some(KeyCode::KEY_SPACE));
}

#[test]
fn end_of_input_decision() {
    assert!(is_end_of_input(0x1A, None));
    assert!(is_end_of_input(0x1C, Some('\n')));
    assert!(!is_end_of_input(0x1E, Some('a')));
    assert!(!is_end_of_input(0x04, None));
}

#[test]
fn stdin_sentinels() {
    let stdin = StandardIn::get();
    let mut dec = KeyDecoder::new();
    let mut q = RingBuffer32B::new();
    q.write(0x04);
    assert!(stdin.is_eof(&q));
    assert!(!stdin.at_end(&q, &mut dec));
    q.read();
    q.write(0x1A);
    assert!(!stdin.is_eof(&q));
    assert!(stdin.at_end(&q, &mut dec));
    q.read();
    q.write(0x1C);
    assert!(stdin.at_end(&q, &mut dec));
    q.read();
    q.write(0x1E);
    assert!(!stdin.at_end(&q, &mut dec));
    assert!(!q.is_empty());
}

#[test]
fn stdin_reads_characters() {
    let mut stdin = StandardIn::get();
    let mut dec = KeyDecoder::new();
    let mut q = RingBuffer32B::new();
    assert_eq!(stdin.read(&mut q, &mut dec), None);
    q.write(0x11);
    assert_eq!(stdin.read(&mut q, &mut dec), Some('w'));
}
