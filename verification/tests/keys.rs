use kilo::keys::{
    ctrl_char, DecoderState, Key, KeyDecoder, BACKSPACE_KEY, CARRIAGE_RETURN_KEY, CTRL_H, CTRL_L,
    CTRL_Q, CTRL_S, ESCAPE_KEY,
};

fn feed_bytes(decoder: &mut KeyDecoder, bytes: &[u8]) -> Vec<Option<Key>> {
    bytes.iter().map(|b| decoder.feed(Some(*b))).collect()
}

fn decode(bytes: &[u8]) -> Option<Key> {
    let mut decoder = KeyDecoder::new();
    let keys: Vec<Key> = feed_bytes(&mut decoder, bytes).into_iter().flatten().collect();
    assert!(keys.len() <= 1);
    assert_eq!(decoder.state(), if keys.is_empty() { decoder.state() } else { DecoderState::Normal });
    keys.first().copied()
}

#[test]
fn decoder_arrow_right() {
    let mut decoder = KeyDecoder::new();
    assert_eq!(decoder.feed(Some(0x1b)), None);
    assert_eq!(decoder.state(), DecoderState::SawEscape);
    assert_eq!(decoder.feed(Some(b'[')), None);
    assert_eq!(decoder.state(), DecoderState::SawBracketOrO);
    assert_eq!(decoder.feed(Some(b'C')), Some(Key::ArrowRight));
    assert_eq!(decoder.state(), DecoderState::Normal);
}

#[test]
fn decoder_delete() {
    let mut decoder = KeyDecoder::new();
    assert_eq!(decoder.feed(Some(0x1b)), None);
    assert_eq!(decoder.feed(Some(b'[')), None);
    assert_eq!(decoder.feed(Some(b'3')), None);
    assert_eq!(decoder.state(), DecoderState::AwaitingTilde(b'3'));
    assert_eq!(decoder.feed(Some(b'~')), Some(Key::Delete));
    assert_eq!(decoder.state(), DecoderState::Normal);
}

#[test]
fn decoder_lone_escape_on_timeout() {
    let mut decoder = KeyDecoder::new();
    assert_eq!(decoder.feed(Some(0x1b)), None);
    assert_eq!(decoder.state(), DecoderState::SawEscape);
    assert_eq!(decoder.feed(None), Some(Key::Byte(ESCAPE_KEY)));
    assert_eq!(decoder.state(), DecoderState::Normal);
}

#[test]
fn decoder_fed_whole_sequences() {
    let mut decoder = KeyDecoder::new();
    assert_eq!(
        decoder.feed_all(&vec![Some(0x1b), Some(b'['), Some(b'C')]),
        vec![Key::ArrowRight]
    );
    assert_eq!(
        decoder.feed_all(&vec![Some(0x1b), Some(b'['), Some(b'3'), Some(b'~')]),
        vec![Key::Delete]
    );
    assert_eq!(decoder.feed_all(&vec![Some(0x1b), None]), vec![Key::Byte(0x1b)]);
    assert_eq!(decoder.state(), DecoderState::Normal);
}

#[test]
fn decoder_timeout_between_keys_yields_nothing() {
    let mut decoder = KeyDecoder::new();
    assert_eq!(decoder.feed(None), None);
    assert_eq!(decoder.state(), DecoderState::Normal);
}

#[test]
fn decoder_literal_bytes_pass_through() {
    for b in 0..=255u8 {
        if b == 0x1b {
            continue;
        }
        let mut decoder = KeyDecoder::new();
        assert_eq!(decoder.feed(Some(b)), Some(Key::Byte(b)));
        assert_eq!(decoder.state(), DecoderState::Normal);
    }
}

#[test]
fn decoder_all_arrows_home_and_end() {
    assert_eq!(decode(b"\x1b[A"), Some(Key::ArrowUp));
    assert_eq!(decode(b"\x1b[B"), Some(Key::ArrowDown));
    assert_eq!(decode(b"\x1b[C"), Some(Key::ArrowRight));
    assert_eq!(decode(b"\x1b[D"), Some(Key::ArrowLeft));
    assert_eq!(decode(b"\x1b[H"), Some(Key::Home));
    assert_eq!(decode(b"\x1b[F"), Some(Key::End));
}

#[test]
fn decoder_ss3_uses_the_same_table() {
    assert_eq!(decode(b"\x1bOH"), Some(Key::Home));
    assert_eq!(decode(b"\x1bOF"), Some(Key::End));
    assert_eq!(decode(b"\x1bOA"), Some(Key::ArrowUp));
    assert_eq!(decode(b"\x1bOD"), Some(Key::ArrowLeft));
}

#[test]
fn decoder_tilde_sequences() {
    assert_eq!(decode(b"\x1b[1~"), Some(Key::Home));
    assert_eq!(decode(b"\x1b[7~"), Some(Key::Home));
    assert_eq!(decode(b"\x1b[3~"), Some(Key::Delete));
    assert_eq!(decode(b"\x1b[4~"), Some(Key::End));
    assert_eq!(decode(b"\x1b[8~"), Some(Key::End));
    assert_eq!(decode(b"\x1b[5~"), Some(Key::PageUp));
    assert_eq!(decode(b"\x1b[6~"), Some(Key::PageDown));
}

#[test]
fn decoder_unknown_sequences_degrade_to_escape() {
    let escape = Some(Key::Byte(ESCAPE_KEY));
    assert_eq!(decode(b"\x1bx"), escape);
    assert_eq!(decode(b"\x1b[Z"), escape);
    assert_eq!(decode(b"\x1b[0"), escape);
    assert_eq!(decode(b"\x1b[2~"), escape);
    assert_eq!(decode(b"\x1b[9~"), escape);
    assert_eq!(decode(b"\x1b[3x"), escape);
    assert_eq!(decode(b"\x1b\x1b"), escape);
}

#[test]
fn decoder_timeout_inside_any_state_yields_escape() {
    let escape = Some(Key::Byte(ESCAPE_KEY));
    for prefix in [&b"\x1b"[..], &b"\x1b["[..], &b"\x1bO"[..], &b"\x1b[5"[..]] {
        let mut decoder = KeyDecoder::new();
        for key in feed_bytes(&mut decoder, prefix) {
            assert_eq!(key, None);
        }
        assert_eq!(decoder.feed(None), escape);
        assert_eq!(decoder.state(), DecoderState::Normal);
    }
}

#[test]
fn decoder_is_ready_for_the_next_key_after_a_broken_sequence() {
    let mut decoder = KeyDecoder::new();
    let keys = decoder.feed_all(&vec![
        Some(0x1b),
        Some(b'['),
        Some(b'5'),
        None,
        Some(b'a'),
        Some(0x1b),
        Some(b'['),
        Some(b'6'),
        Some(b'~'),
        None,
        Some(b'b'),
    ]);
    assert_eq!(
        keys,
        vec![
            Key::Byte(ESCAPE_KEY),
            Key::Byte(b'a'),
            Key::PageDown,
            Key::Byte(b'b'),
        ]
    );
    assert_eq!(decoder.state(), DecoderState::Normal);
}

#[test]
fn feed_all_keeps_a_pending_sequence() {
    let mut decoder = KeyDecoder::new();
    assert_eq!(decoder.feed_all(&vec![Some(b'x'), Some(0x1b), Some(b'[')]), vec![Key::Byte(b'x')]);
    assert_eq!(decoder.state(), DecoderState::SawBracketOrO);
    assert_eq!(decoder.feed_all(&vec![Some(b'A')]), vec![Key::ArrowUp]);
    assert_eq!(decoder.feed_all(&vec![]), vec![]);
}

#[test]
fn ctrl_char_masks_the_low_five_bits() {
    assert_eq!(ctrl_char(b'q'), 17);
    assert_eq!(ctrl_char(b'q'), CTRL_Q);
    assert_eq!(ctrl_char(b's'), CTRL_S);
    assert_eq!(ctrl_char(b'h'), CTRL_H);
    assert_eq!(ctrl_char(b'l'), CTRL_L);
    assert_eq!(ctrl_char(b'Q'), CTRL_Q);
    assert_eq!(ctrl_char(0xff), 0x1f);
    assert_eq!(ctrl_char(b'm'), CARRIAGE_RETURN_KEY);
}

#[test]
fn key_constants() {
    assert_eq!(ESCAPE_KEY, 27);
    assert_eq!(CARRIAGE_RETURN_KEY, b'\r');
    assert_eq!(BACKSPACE_KEY, 127);
}
