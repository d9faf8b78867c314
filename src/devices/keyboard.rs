//! Keyboard input: the scancode ring buffer filled by the interrupt handler,
//! and the decoding of its bytes into keys.
use vstd::prelude::*;
use pc_keyboard::layouts::Us104Key;
use pc_keyboard::{DecodedKey, Keyboard, ScancodeSet1};
use pc_keyboard::KeyCode as RawKeyCode;

verus! {

/// `pc_keyboard::DecodedKey`: a character, or a key without one. Its
/// variants are read from the type's own definition.
#[verifier::external_type_specification]
pub struct ExDecodedKey(DecodedKey);

/// `pc_keyboard::KeyCode`, the physical keys; a field-less enum whose
/// variants are read from the type's own definition.
#[verifier::external_type_specification]
pub struct ExRawKeyCode(RawKeyCode);

/// The stateful scancode decoder: the pending partial sequence and the
/// modifier flags of a `pc_keyboard` keyboard, US 104-key layout, scancode
/// set 1. Opaque: what it holds is only ever read by `pc_keyboard`.
#[verifier::external_body]
pub struct KeyDecoder {
    keyboard: Keyboard<Us104Key, ScancodeSet1>,
}

/// The scancode bytes a decoder has been fed since it was made, oldest
/// first. Its whole state is a function of them.
pub uninterp spec fn fed_scancodes(decoder: KeyDecoder) -> Seq<u8>;

/// What a new decoder (US 104-key layout, scancode set 1, Ctrl not mapped)
/// answers to the last byte of `fed`, once every byte of `fed` has been
/// given to `pc_keyboard::Keyboard::add_byte` in turn and each key event
/// that completed has been given to `process_keyevent`: the decoded key,
/// or `None` when the byte completes no key or only changes a modifier.
pub uninterp spec fn decoded_key_of(fed: Seq<u8>) -> Option<DecodedKey>;

/// Relies on `pc_keyboard::Keyboard::new`: a decoder for the US 104-key
/// layout and scancode set 1, with no modifier held and Ctrl not mapped,
/// that has been fed nothing.
#[verifier::external_body]
fn us104_decoder() -> (r: KeyDecoder)
    ensures
        fed_scancodes(r) == Seq::<u8>::empty(),
{
    KeyDecoder {
        keyboard: Keyboard::new(Us104Key, ScancodeSet1, pc_keyboard::HandleControl::Ignore),
    }
}

/// Relies on `pc_keyboard::Keyboard::add_byte` and
/// `Keyboard::process_keyevent`: the byte is fed to the decoder, and a key
/// event it completes is resolved into a character or a raw key. Both are
/// deterministic in the decoder's state, so the answer is a function of the
/// bytes fed so far.
#[verifier::external_body]
fn keyboard_decode_byte(dec: &mut KeyDecoder, byte: u8) -> (r: Option<DecodedKey>)
    ensures
        fed_scancodes(*final(dec)) == fed_scancodes(*old(dec)).push(byte),
        r == decoded_key_of(fed_scancodes(*final(dec))),
{
    match dec.keyboard.add_byte(byte) {
        Ok(Some(key_event)) => dec.keyboard.process_keyevent(key_event),
        _ => None,
    }
}

impl KeyDecoder {
    pub fn new() -> (r: KeyDecoder)
        ensures
            fed_scancodes(r) == Seq::<u8>::empty(),
    {
        us104_decoder()
    }

    /// Feeds one scancode byte; returns the key it completes, if any. An
    /// incomplete or malformed sequence gives `None`.
    pub fn add_scancode(&mut self, scancode: u8) -> (r: Option<DecodedKey>)
        ensures
            fed_scancodes(*final(self)) == fed_scancodes(*old(self)).push(scancode),
            r == decoded_key_of(fed_scancodes(*final(self))),
    {
        keyboard_decode_byte(self, scancode)
    }
}

/// Slots in the scancode ring buffer; one is always left unused.
pub const SCANCODE_SLOTS: usize = 32;

/// Bytes the scancode ring buffer can hold.
pub const SCANCODE_CAPACITY: usize = 31;

/// A fixed ring of 32 bytes. The read cursor points at the slot before the
/// oldest byte, the write cursor at the slot the next byte goes to: the ring
/// is empty when `read == (write - 1) mod 32`, and holds at most 31 bytes.
pub struct RingBuffer32B {
    read_index: usize,
    write_index: usize,
    buffer: [u8; 32],
}

impl RingBuffer32B {
    #[verifier::type_invariant]
    spec fn cursors_in_range(&self) -> bool {
        self.read_index < SCANCODE_SLOTS && self.write_index < SCANCODE_SLOTS
    }

    /// Number of bytes held: `(write - read - 1) mod 32`.
    closed spec fn count(&self) -> nat {
        ((self.write_index + SCANCODE_SLOTS - 1 - self.read_index) % (SCANCODE_SLOTS as int)) as nat
    }

    /// The slot that holds the oldest byte when the ring is not empty.
    pub closed spec fn front_slot(&self) -> u8 {
        self.buffer@[((self.read_index + 1) % (SCANCODE_SLOTS as int))]
    }
}

impl View for RingBuffer32B {
    type V = Seq<u8>;

    /// The bytes held, oldest first.
    closed spec fn view(&self) -> Seq<u8> {
        Seq::new(
            self.count(),
            |i: int| self.buffer@[(self.read_index + 1 + i) % (SCANCODE_SLOTS as int)],
        )
    }
}

/// A ring is never empty and full at once: empty means 0 bytes held, full
/// means 31.
pub proof fn lemma_empty_full_exclusive(q: &RingBuffer32B)
    ensures
        !(q@.len() == 0 && q@.len() == SCANCODE_CAPACITY),
{
}

/// Contents after `data` is written: appended when fewer than 31 bytes are
/// held, dropped otherwise.
pub open spec fn after_write(q: Seq<u8>, data: u8) -> Seq<u8> {
    if q.len() < SCANCODE_CAPACITY {
        q.push(data)
    } else {
        q
    }
}

/// What a read returns: the oldest byte, or `None` when nothing is held.
pub open spec fn read_result(q: Seq<u8>) -> Option<u8> {
    if q.len() == 0 {
        None
    } else {
        Some(q[0])
    }
}

/// Contents after a read: the oldest byte is gone.
pub open spec fn after_read(q: Seq<u8>) -> Seq<u8> {
    if q.len() == 0 {
        q
    } else {
        q.drop_first()
    }
}

/// One operation on the scancode ring.
pub enum QueueOp {
    Write(u8),
    Read,
}

/// Contents, and the bytes returned by the reads in order, after `ops` are
/// applied one by one to a ring holding `q`.
pub open spec fn run_ops(q: Seq<u8>, ops: Seq<QueueOp>) -> (Seq<u8>, Seq<u8>)
    decreases ops.len(),
{
    if ops.len() == 0 {
        (q, Seq::empty())
    } else {
        let prev = run_ops(q, ops.drop_last());
        match ops.last() {
            QueueOp::Write(b) => (after_write(prev.0, b), prev.1),
            QueueOp::Read => match read_result(prev.0) {
                Some(b) => (after_read(prev.0), prev.1.push(b)),
                None => (prev.0, prev.1),
            },
        }
    }
}

/// The bytes written by `ops`, in order.
pub open spec fn written(ops: Seq<QueueOp>) -> Seq<u8>
    decreases ops.len(),
{
    if ops.len() == 0 {
        Seq::empty()
    } else {
        match ops.last() {
            QueueOp::Write(b) => written(ops.drop_last()).push(b),
            QueueOp::Read => written(ops.drop_last()),
        }
    }
}

/// No write of `ops` meets a ring that already holds 31 bytes.
pub open spec fn never_overflows(q: Seq<u8>, ops: Seq<QueueOp>) -> bool {
    forall|k: int|
        0 <= k < ops.len() && (#[trigger] ops[k]) is Write ==> run_ops(q, ops.take(k)).0.len()
            < SCANCODE_CAPACITY
}

/// As long as no write finds the ring full, every byte comes out in the
/// order it went in: the bytes read, followed by those still held, are the
/// bytes held at the start followed by the bytes written. From an empty
/// ring, the reads return exactly the written bytes, first in first out.
pub proof fn lemma_fifo(q: Seq<u8>, ops: Seq<QueueOp>)
    requires
        q.len() <= SCANCODE_CAPACITY,
        never_overflows(q, ops),
    ensures
        run_ops(q, ops).1 + run_ops(q, ops).0 == q + written(ops),
    decreases ops.len(),
{
    if ops.len() > 0 {
        let rest = ops.drop_last();
        assert forall|k: int|
            0 <= k < rest.len() && (#[trigger] rest[k]) is Write implies run_ops(
                q,
                rest.take(k),
            ).0.len() < SCANCODE_CAPACITY by {
            assert(rest.take(k) =~= ops.take(k));
            assert(ops[k] == rest[k]);
        }
        lemma_fifo(q, rest);
        let prev = run_ops(q, rest);
        match ops.last() {
            QueueOp::Write(b) => {
                let k = ops.len() - 1;
                assert(ops.take(k) =~= rest);
                assert(ops[k] is Write);
                assert(prev.1 + prev.0.push(b) =~= (prev.1 + prev.0).push(b));
                assert(q + written(rest).push(b) =~= (q + written(rest)).push(b));
            },
            QueueOp::Read => {
                if prev.0.len() > 0 {
                    assert(prev.1.push(prev.0[0]) + prev.0.drop_first() =~= prev.1 + prev.0);
                }
            },
        }
    }
}

impl RingBuffer32B {
    pub fn new() -> (r: RingBuffer32B)
        ensures
            r@ == Seq::<u8>::empty(),
    {
        let r = RingBuffer32B { buffer: [0; 32], read_index: 0, write_index: 1 };
        assert(r@ =~= Seq::<u8>::empty());
        r
    }

    /// The oldest byte, left in place. On an empty ring this is the stale
    /// content of the slot the next byte will be read from.
    pub fn peek(&self) -> (r: u8)
        ensures
            r == self.front_slot(),
            self@.len() > 0 ==> r == self@[0],
    {
        proof {
            use_type_invariant(self);
        }
        self.buffer[(self.read_index + 1) % SCANCODE_SLOTS]
    }

    /// Removes and returns the oldest byte; `None` when the ring is empty.
    pub fn read(&mut self) -> (r: Option<u8>)
        ensures
            r == read_result(old(self)@),
            final(self)@ == after_read(old(self)@),
            old(self)@.len() == 0 ==> *final(self) == *old(self),
    {
        proof {
            use_type_invariant(&*self);
        }
        if !self.is_empty() {
            let ghost before = self@;
            self.read_index = (self.read_index + 1) % SCANCODE_SLOTS;
            let item = self.buffer[self.read_index];
            assert(self@ =~= before.drop_first());
            Some(item)
        } else {
            None
        }
    }

    /// Appends `data` when fewer than 31 bytes are held; otherwise the byte
    /// is dropped and the ring is left as it was.
    #[verifier::rlimit(40)]
    pub fn write(&mut self, data: u8)
        ensures
            final(self)@ == after_write(old(self)@, data),
            final(self)@.len() <= SCANCODE_CAPACITY,
    {
        proof {
            use_type_invariant(&*self);
        }
        if !self.is_full() {
            let ghost before = self@;
            self.buffer[self.write_index] = data;
            self.write_index = (self.write_index + 1) % SCANCODE_SLOTS;
            assert(self@ =~= before.push(data));
        }
    }

    /// Whether no byte is held: `read == (write - 1) mod 32`.
    pub fn is_empty(&self) -> (r: bool)
        ensures
            r == (self@.len() == 0),
    {
        proof {
            use_type_invariant(self);
        }
        if self.write_index > 0 {
            self.read_index == self.write_index - 1
        } else {
            self.read_index == SCANCODE_SLOTS - 1
        }
    }

    /// Whether 31 bytes are held, so that the next write is dropped.
    pub fn is_full(&self) -> (r: bool)
        ensures
            r == (self@.len() == SCANCODE_CAPACITY),
    {
        proof {
            use_type_invariant(self);
        }
        self.write_index == self.read_index
    }
}

/// The closed set of key symbols: control codes, printable keys and arrow
/// keys, each with a fixed code.
#[allow(non_camel_case_types)]
#[derive(Clone, Copy, PartialEq, Eq, Structural, Debug)]
pub enum KeyCode {
    NUL,
    SOH,
    STX,
    ETX,
    EOT,
    ENQ,
    ACK,
    BEL,
    BS,
    HT,
    LF,
    VT,
    FF,
    CR,
    SO,
    SI,
    DLE,
    DC1,
    DC2,
    DC3,
    DC4,
    NAK,
    SYN,
    ETB,
    CAN,
    EM,
    FS,
    GS,
    RS,
    US,
    KEY_SPACE,
    KEY_BANG,
    KEY_DQUOTE,
    KEY_HASH,
    KEY_DOLLAR,
    KEY_PERCENT,
    KEY_AMPERSAND,
    KEY_SQUOTE,
    KEY_RIGHT_BRACKET,
    KEY_LEFT_BRACKET,
    KEY_STAR,
    KEY_PLUS,
    KEY_COMMA,
    KEY_MINUS,
    KEY_DOT,
    KEY_FSLASH,
    KEY_0,
    KEY_1,
    KEY_2,
    KEY_3,
    KEY_4,
    KEY_5,
    KEY_6,
    KEY_7,
    KEY_8,
    KEY_9,
    KEY_COLON,
    KEY_SEMI_COLON,
    KEY_RIGHT_ARROW,
    KEY_EQUAL,
    KEY_LEFT_ARROW,
    KEY_QUESTION,
    KEY_AT,
    KEY_A,
    KEY_B,
    KEY_C,
    KEY_D,
    KEY_E,
    KEY_F,
    KEY_G,
    KEY_H,
    KEY_I,
    KEY_J,
    KEY_K,
    KEY_L,
    KEY_M,
    KEY_N,
    KEY_O,
    KEY_P,
    KEY_Q,
    KEY_R,
    KEY_S,
    KEY_T,
    KEY_U,
    KEY_V,
    KEY_W,
    KEY_X,
    KEY_Y,
    KEY_Z,
    KEY_RIGHT_SQUARE_BRACKET,
    KEY_BSLASH,
    KEY_LEFT_SQUARE_BRACKET,
    KEY_CARET,
    KEY_UNDERSCORE,
    KEY_RIGHT_CURLY_BRACKET,
    KEY_PIPE,
    KEY_LEFT_CURLY_BRACKET,
    KEY_TILDE,
    DEL,
    ARROW_UP,
    ARROW_DOWN,
    ARROW_LEFT,
    ARROW_RIGHT,
}

impl KeyCode {
    /// The code of a key symbol.
    pub open spec fn code(self) -> u8 {
        match self {
            KeyCode::NUL => 0,
            KeyCode::SOH => 1,
            KeyCode::STX => 2,
            KeyCode::ETX => 3,
            KeyCode::EOT => 4,
            KeyCode::ENQ => 5,
            KeyCode::ACK => 6,
            KeyCode::BEL => 7,
            KeyCode::BS => 8,
            KeyCode::HT => 9,
            KeyCode::LF => 10,
            KeyCode::VT => 11,
            KeyCode::FF => 12,
            KeyCode::CR => 13,
            KeyCode::SO => 14,
            KeyCode::SI => 15,
            KeyCode::DLE => 16,
            KeyCode::DC1 => 17,
            KeyCode::DC2 => 18,
            KeyCode::DC3 => 19,
            KeyCode::DC4 => 20,
            KeyCode::NAK => 21,
            KeyCode::SYN => 22,
            KeyCode::ETB => 23,
            KeyCode::CAN => 24,
            KeyCode::EM => 25,
            KeyCode::FS => 26,
            KeyCode::GS => 27,
            KeyCode::RS => 28,
            KeyCode::US => 29,
            KeyCode::KEY_SPACE => 30,
            KeyCode::KEY_BANG => 31,
            KeyCode::KEY_DQUOTE => 32,
            KeyCode::KEY_HASH => 33,
            KeyCode::KEY_DOLLAR => 34,
            KeyCode::KEY_PERCENT => 35,
            KeyCode::KEY_AMPERSAND => 36,
            KeyCode::KEY_SQUOTE => 37,
            KeyCode::KEY_RIGHT_BRACKET => 38,
            KeyCode::KEY_LEFT_BRACKET => 39,
            KeyCode::KEY_STAR => 40,
            KeyCode::KEY_PLUS => 41,
            KeyCode::KEY_COMMA => 42,
            KeyCode::KEY_MINUS => 43,
            KeyCode::KEY_DOT => 44,
            KeyCode::KEY_FSLASH => 45,
            KeyCode::KEY_0 => 46,
            KeyCode::KEY_1 => 47,
            KeyCode::KEY_2 => 48,
            KeyCode::KEY_3 => 49,
            KeyCode::KEY_4 => 50,
            KeyCode::KEY_5 => 51,
            KeyCode::KEY_6 => 52,
            KeyCode::KEY_7 => 53,
            KeyCode::KEY_8 => 54,
            KeyCode::KEY_9 => 55,
            KeyCode::KEY_COLON => 56,
            KeyCode::KEY_SEMI_COLON => 57,
            KeyCode::KEY_RIGHT_ARROW => 58,
            KeyCode::KEY_EQUAL => 59,
            KeyCode::KEY_LEFT_ARROW => 60,
            KeyCode::KEY_QUESTION => 61,
            KeyCode::KEY_AT => 62,
            KeyCode::KEY_A => 63,
            KeyCode::KEY_B => 64,
            KeyCode::KEY_C => 65,
            KeyCode::KEY_D => 66,
            KeyCode::KEY_E => 67,
            KeyCode::KEY_F => 68,
            KeyCode::KEY_G => 69,
            KeyCode::KEY_H => 70,
            KeyCode::KEY_I => 71,
            KeyCode::KEY_J => 72,
            KeyCode::KEY_K => 73,
            KeyCode::KEY_L => 74,
            KeyCode::KEY_M => 75,
            KeyCode::KEY_N => 76,
            KeyCode::KEY_O => 77,
            KeyCode::KEY_P => 78,
            KeyCode::KEY_Q => 79,
            KeyCode::KEY_R => 80,
            KeyCode::KEY_S => 81,
            KeyCode::KEY_T => 82,
            KeyCode::KEY_U => 83,
            KeyCode::KEY_V => 84,
            KeyCode::KEY_W => 85,
            KeyCode::KEY_X => 86,
            KeyCode::KEY_Y => 87,
            KeyCode::KEY_Z => 88,
            KeyCode::KEY_RIGHT_SQUARE_BRACKET => 89,
            KeyCode::KEY_BSLASH => 90,
            KeyCode::KEY_LEFT_SQUARE_BRACKET => 91,
            KeyCode::KEY_CARET => 92,
            KeyCode::KEY_UNDERSCORE => 93,
            KeyCode::KEY_RIGHT_CURLY_BRACKET => 123,
            KeyCode::KEY_PIPE => 124,
            KeyCode::KEY_LEFT_CURLY_BRACKET => 125,
            KeyCode::KEY_TILDE => 126,
            KeyCode::DEL => 127,
            KeyCode::ARROW_UP => 128,
            KeyCode::ARROW_DOWN => 129,
            KeyCode::ARROW_LEFT => 130,
            KeyCode::ARROW_RIGHT => 131,
        }
    }

    /// The symbol for a small code: 0 to 5 name the first control codes, 6
    /// is backspace, anything else is `NUL`.
    pub fn from_u8(x: usize) -> (r: KeyCode)
        ensures
            r == (if x <= 5 {
                KeyCode::of_control(x as int)
            } else if x == 6 {
                KeyCode::BS
            } else {
                KeyCode::NUL
            }),
    {
        match x {
            0x00 => KeyCode::NUL,
            0x01 => KeyCode::SOH,
            0x02 => KeyCode::STX,
            0x03 => KeyCode::ETX,
            0x04 => KeyCode::EOT,
            0x05 => KeyCode::ENQ,
            0x06 => KeyCode::BS,
            _ => KeyCode::NUL,
        }
    }

    /// The control symbol with code `x`, for `x` in 0..=5.
    pub open spec fn of_control(x: int) -> KeyCode {
        if x == 0 {
            KeyCode::NUL
        } else if x == 1 {
            KeyCode::SOH
        } else if x == 2 {
            KeyCode::STX
        } else if x == 3 {
            KeyCode::ETX
        } else if x == 4 {
            KeyCode::EOT
        } else {
            KeyCode::ENQ
        }
    }

    /// The symbol whose code is `m`.
    pub open spec fn with_code(m: u8) -> KeyCode {
        choose|k: KeyCode| k.code() == m
    }

    /// The symbol whose code is `m`; `NUL` where no symbol has that code.
    fn from_code(m: u8) -> (r: KeyCode)
        ensures
            is_symbol_code(m) ==> r == KeyCode::with_code(m),
            !is_symbol_code(m) ==> r == KeyCode::NUL,
    {
        let r = match m {
            1 => KeyCode::SOH,
            2 => KeyCode::STX,
            3 => KeyCode::ETX,
            4 => KeyCode::EOT,
            5 => KeyCode::ENQ,
            6 => KeyCode::ACK,
            7 => KeyCode::BEL,
            8 => KeyCode::BS,
            9 => KeyCode::HT,
            10 => KeyCode::LF,
            11 => KeyCode::VT,
            12 => KeyCode::FF,
            13 => KeyCode::CR,
            14 => KeyCode::SO,
            15 => KeyCode::SI,
            16 => KeyCode::DLE,
            17 => KeyCode::DC1,
            18 => KeyCode::DC2,
            19 => KeyCode::DC3,
            20 => KeyCode::DC4,
            21 => KeyCode::NAK,
            22 => KeyCode::SYN,
            23 => KeyCode::ETB,
            24 => KeyCode::CAN,
            25 => KeyCode::EM,
            26 => KeyCode::FS,
            27 => KeyCode::GS,
            28 => KeyCode::RS,
            29 => KeyCode::US,
            30 => KeyCode::KEY_SPACE,
            31 => KeyCode::KEY_BANG,
            32 => KeyCode::KEY_DQUOTE,
            33 => KeyCode::KEY_HASH,
            34 => KeyCode::KEY_DOLLAR,
            35 => KeyCode::KEY_PERCENT,
            36 => KeyCode::KEY_AMPERSAND,
            37 => KeyCode::KEY_SQUOTE,
            38 => KeyCode::KEY_RIGHT_BRACKET,
            39 => KeyCode::KEY_LEFT_BRACKET,
            40 => KeyCode::KEY_STAR,
            41 => KeyCode::KEY_PLUS,
            42 => KeyCode::KEY_COMMA,
            43 => KeyCode::KEY_MINUS,
            44 => KeyCode::KEY_DOT,
            45 => KeyCode::KEY_FSLASH,
            46 => KeyCode::KEY_0,
            47 => KeyCode::KEY_1,
            48 => KeyCode::KEY_2,
            49 => KeyCode::KEY_3,
            50 => KeyCode::KEY_4,
            51 => KeyCode::KEY_5,
            52 => KeyCode::KEY_6,
            53 => KeyCode::KEY_7,
            54 => KeyCode::KEY_8,
            55 => KeyCode::KEY_9,
            56 => KeyCode::KEY_COLON,
            57 => KeyCode::KEY_SEMI_COLON,
            58 => KeyCode::KEY_RIGHT_ARROW,
            59 => KeyCode::KEY_EQUAL,
            60 => KeyCode::KEY_LEFT_ARROW,
            61 => KeyCode::KEY_QUESTION,
            62 => KeyCode::KEY_AT,
            63 => KeyCode::KEY_A,
            64 => KeyCode::KEY_B,
            65 => KeyCode::KEY_C,
            66 => KeyCode::KEY_D,
            67 => KeyCode::KEY_E,
            68 => KeyCode::KEY_F,
            69 => KeyCode::KEY_G,
            70 => KeyCode::KEY_H,
            71 => KeyCode::KEY_I,
            72 => KeyCode::KEY_J,
            73 => KeyCode::KEY_K,
            74 => KeyCode::KEY_L,
            75 => KeyCode::KEY_M,
            76 => KeyCode::KEY_N,
            77 => KeyCode::KEY_O,
            78 => KeyCode::KEY_P,
            79 => KeyCode::KEY_Q,
            80 => KeyCode::KEY_R,
            81 => KeyCode::KEY_S,
            82 => KeyCode::KEY_T,
            83 => KeyCode::KEY_U,
            84 => KeyCode::KEY_V,
            85 => KeyCode::KEY_W,
            86 => KeyCode::KEY_X,
            87 => KeyCode::KEY_Y,
            88 => KeyCode::KEY_Z,
            89 => KeyCode::KEY_RIGHT_SQUARE_BRACKET,
            90 => KeyCode::KEY_BSLASH,
            91 => KeyCode::KEY_LEFT_SQUARE_BRACKET,
            92 => KeyCode::KEY_CARET,
            93 => KeyCode::KEY_UNDERSCORE,
            123 => KeyCode::KEY_RIGHT_CURLY_BRACKET,
            124 => KeyCode::KEY_PIPE,
            125 => KeyCode::KEY_LEFT_CURLY_BRACKET,
            126 => KeyCode::KEY_TILDE,
            127 => KeyCode::DEL,
            128 => KeyCode::ARROW_UP,
            129 => KeyCode::ARROW_DOWN,
            130 => KeyCode::ARROW_LEFT,
            131 => KeyCode::ARROW_RIGHT,
            _ => KeyCode::NUL,
        };
        proof {
            if is_symbol_code(m) {
                let k = KeyCode::with_code(m);
                assert(r.code() == m);
                assert(exists|j: KeyCode| j.code() == m);
                assert(k.code() == m);
            }
        }
        r
    }

    /// The symbol for a character: see `symbol_code_of_char`.
    pub fn from_char(c: char) -> (r: KeyCode)
        ensures
            r == KeyCode::with_code(symbol_code_of_char(c)),
    {
        let n = c as u32;
        let m: u8 = if n <= 25 {
            n as u8
        } else if 28 <= n && n <= 95 {
            (n - 2) as u8
        } else if 97 <= n && n <= 122 {
            (n - 34) as u8
        } else if 123 <= n && n <= 127 {
            n as u8
        } else {
            0
        };
        let r = KeyCode::from_code(m);
        proof {
            if !is_symbol_code(m) {
                assert(KeyCode::NUL.code() == 0);
            }
            assert(m == symbol_code_of_char(c));
        }
        r
    }

    /// The symbol for a decoded key: a character maps to the symbol that
    /// names it (see `symbol_code_of_char`), the four arrow keys to their
    /// arrow symbols, and every other key to `NUL`.
    pub fn from_dec_key(k: DecodedKey) -> (r: KeyCode)
        ensures
            r == key_symbol(k),
    {
        match k {
            DecodedKey::RawKey(c) => match c {
                RawKeyCode::ArrowUp => KeyCode::ARROW_UP,
                RawKeyCode::ArrowDown => KeyCode::ARROW_DOWN,
                RawKeyCode::ArrowLeft => KeyCode::ARROW_LEFT,
                RawKeyCode::ArrowRight => KeyCode::ARROW_RIGHT,
                _ => KeyCode::NUL,
            },
            DecodedKey::Unicode(chr) => KeyCode::from_char(chr),
        }
    }

    /// The code as a character.
    pub fn as_char(self) -> (r: char)
        ensures
            r == self.code() as char,
    {
        self.as_u8() as char
    }

    pub fn as_u8(self) -> (r: u8)
        ensures
            r == self.code(),
    {
        match self {
            KeyCode::NUL => 0,
            KeyCode::SOH => 1,
            KeyCode::STX => 2,
            KeyCode::ETX => 3,
            KeyCode::EOT => 4,
            KeyCode::ENQ => 5,
            KeyCode::ACK => 6,
            KeyCode::BEL => 7,
            KeyCode::BS => 8,
            KeyCode::HT => 9,
            KeyCode::LF => 10,
            KeyCode::VT => 11,
            KeyCode::FF => 12,
            KeyCode::CR => 13,
            KeyCode::SO => 14,
            KeyCode::SI => 15,
            KeyCode::DLE => 16,
            KeyCode::DC1 => 17,
            KeyCode::DC2 => 18,
            KeyCode::DC3 => 19,
            KeyCode::DC4 => 20,
            KeyCode::NAK => 21,
            KeyCode::SYN => 22,
            KeyCode::ETB => 23,
            KeyCode::CAN => 24,
            KeyCode::EM => 25,
            KeyCode::FS => 26,
            KeyCode::GS => 27,
            KeyCode::RS => 28,
            KeyCode::US => 29,
            KeyCode::KEY_SPACE => 30,
            KeyCode::KEY_BANG => 31,
            KeyCode::KEY_DQUOTE => 32,
            KeyCode::KEY_HASH => 33,
            KeyCode::KEY_DOLLAR => 34,
            KeyCode::KEY_PERCENT => 35,
            KeyCode::KEY_AMPERSAND => 36,
            KeyCode::KEY_SQUOTE => 37,
            KeyCode::KEY_RIGHT_BRACKET => 38,
            KeyCode::KEY_LEFT_BRACKET => 39,
            KeyCode::KEY_STAR => 40,
            KeyCode::KEY_PLUS => 41,
            KeyCode::KEY_COMMA => 42,
            KeyCode::KEY_MINUS => 43,
            KeyCode::KEY_DOT => 44,
            KeyCode::KEY_FSLASH => 45,
            KeyCode::KEY_0 => 46,
            KeyCode::KEY_1 => 47,
            KeyCode::KEY_2 => 48,
            KeyCode::KEY_3 => 49,
            KeyCode::KEY_4 => 50,
            KeyCode::KEY_5 => 51,
            KeyCode::KEY_6 => 52,
            KeyCode::KEY_7 => 53,
            KeyCode::KEY_8 => 54,
            KeyCode::KEY_9 => 55,
            KeyCode::KEY_COLON => 56,
            KeyCode::KEY_SEMI_COLON => 57,
            KeyCode::KEY_RIGHT_ARROW => 58,
            KeyCode::KEY_EQUAL => 59,
            KeyCode::KEY_LEFT_ARROW => 60,
            KeyCode::KEY_QUESTION => 61,
            KeyCode::KEY_AT => 62,
            KeyCode::KEY_A => 63,
            KeyCode::KEY_B => 64,
            KeyCode::KEY_C => 65,
            KeyCode::KEY_D => 66,
            KeyCode::KEY_E => 67,
            KeyCode::KEY_F => 68,
            KeyCode::KEY_G => 69,
            KeyCode::KEY_H => 70,
            KeyCode::KEY_I => 71,
            KeyCode::KEY_J => 72,
            KeyCode::KEY_K => 73,
            KeyCode::KEY_L => 74,
            KeyCode::KEY_M => 75,
            KeyCode::KEY_N => 76,
            KeyCode::KEY_O => 77,
            KeyCode::KEY_P => 78,
            KeyCode::KEY_Q => 79,
            KeyCode::KEY_R => 80,
            KeyCode::KEY_S => 81,
            KeyCode::KEY_T => 82,
            KeyCode::KEY_U => 83,
            KeyCode::KEY_V => 84,
            KeyCode::KEY_W => 85,
            KeyCode::KEY_X => 86,
            KeyCode::KEY_Y => 87,
            KeyCode::KEY_Z => 88,
            KeyCode::KEY_RIGHT_SQUARE_BRACKET => 89,
            KeyCode::KEY_BSLASH => 90,
            KeyCode::KEY_LEFT_SQUARE_BRACKET => 91,
            KeyCode::KEY_CARET => 92,
            KeyCode::KEY_UNDERSCORE => 93,
            KeyCode::KEY_RIGHT_CURLY_BRACKET => 123,
            KeyCode::KEY_PIPE => 124,
            KeyCode::KEY_LEFT_CURLY_BRACKET => 125,
            KeyCode::KEY_TILDE => 126,
            KeyCode::DEL => 127,
            KeyCode::ARROW_UP => 128,
            KeyCode::ARROW_DOWN => 129,
            KeyCode::ARROW_LEFT => 130,
            KeyCode::ARROW_RIGHT => 131,
        }
    }
}

/// Codes that some symbol has: 0 to 93 and 123 to 131.
pub open spec fn is_symbol_code(m: u8) -> bool {
    m <= 93 || (123 <= m && m <= 131)
}

/// Code of the symbol naming character `c`. The symbols follow ASCII order:
/// control characters 0 to 25 and 28 to 31 (26 and 27 have no symbol),
/// then the printable characters from the space to the underscore, the
/// letters (lower case naming the same symbol as upper case), the
/// characters from '{' to '~', and DEL. Any other character, the backtick
/// among them, gets 0, the code of `NUL`.
pub open spec fn symbol_code_of_char(c: char) -> u8 {
    let n = c as u32;
    if n <= 25 {
        n as u8
    } else if 28 <= n <= 95 {
        (n - 2) as u8
    } else if 97 <= n <= 122 {
        (n - 34) as u8
    } else if 123 <= n <= 127 {
        n as u8
    } else {
        0
    }
}

/// The symbol `from_dec_key` gives a decoded key.
pub open spec fn key_symbol(k: DecodedKey) -> KeyCode {
    match k {
        DecodedKey::RawKey(RawKeyCode::ArrowUp) => KeyCode::ARROW_UP,
        DecodedKey::RawKey(RawKeyCode::ArrowDown) => KeyCode::ARROW_DOWN,
        DecodedKey::RawKey(RawKeyCode::ArrowLeft) => KeyCode::ARROW_LEFT,
        DecodedKey::RawKey(RawKeyCode::ArrowRight) => KeyCode::ARROW_RIGHT,
        DecodedKey::RawKey(_) => KeyCode::NUL,
        DecodedKey::Unicode(c) => KeyCode::with_code(symbol_code_of_char(c)),
    }
}

/// The character view of a decode result: printable characters only.
pub open spec fn char_of(k: Option<DecodedKey>) -> Option<char> {
    match k {
        Some(DecodedKey::Unicode(c)) => Some(c),
        _ => None,
    }
}

/// The key-code view of a decode result.
pub open spec fn keycode_of(k: Option<DecodedKey>) -> Option<KeyCode> {
    match k {
        Some(d) => Some(key_symbol(d)),
        None => None,
    }
}

/// Keeps the printable character of a decode result, if it has one.
pub fn decoded_char(k: Option<DecodedKey>) -> (r: Option<char>)
    ensures
        r == char_of(k),
{
    match k {
        Some(DecodedKey::Unicode(chr)) => Some(chr),
        _ => None,
    }
}

/// Maps a decode result onto the closed set of key symbols.
pub fn decoded_keycode(k: Option<DecodedKey>) -> (r: Option<KeyCode>)
    ensures
        r == keycode_of(k),
{
    match k {
        Some(dk) => Some(KeyCode::from_dec_key(dk)),
        None => None,
    }
}

/// Takes the oldest scancode from `queue` and feeds it to `decoder`; `None`
/// when the queue is empty or the byte completes no key.
pub fn get_decoded_key(queue: &mut RingBuffer32B, decoder: &mut KeyDecoder) -> (r: Option<DecodedKey>)
    ensures
        final(queue)@ == after_read(old(queue)@),
        old(queue)@.len() == 0 ==> r is None,
        old(queue)@.len() == 0 ==> *final(decoder) == *old(decoder),
        old(queue)@.len() > 0 ==> fed_scancodes(*final(decoder)) == fed_scancodes(*old(decoder)).push(
            old(queue)@[0],
        ),
        old(queue)@.len() > 0 ==> r == decoded_key_of(fed_scancodes(*final(decoder))),
{
    match queue.read() {
        Some(key) => decoder.add_scancode(key),
        None => None,
    }
}

/// As `get_decoded_key`, keeping only printable characters.
pub fn get_ascii_key(queue: &mut RingBuffer32B, decoder: &mut KeyDecoder) -> (r: Option<char>)
    ensures
        final(queue)@ == after_read(old(queue)@),
        old(queue)@.len() == 0 ==> r is None,
        old(queue)@.len() == 0 ==> *final(decoder) == *old(decoder),
        old(queue)@.len() > 0 ==> fed_scancodes(*final(decoder)) == fed_scancodes(*old(decoder)).push(
            old(queue)@[0],
        ),
        old(queue)@.len() > 0 ==> r == char_of(decoded_key_of(fed_scancodes(*final(decoder)))),
{
    let k = get_decoded_key(queue, decoder);
    decoded_char(k)
}

/// As `get_decoded_key`, mapped onto the closed set of key symbols.
pub fn get_keycode(queue: &mut RingBuffer32B, decoder: &mut KeyDecoder) -> (r: Option<KeyCode>)
    ensures
        final(queue)@ == after_read(old(queue)@),
        old(queue)@.len() == 0 ==> r is None,
        old(queue)@.len() == 0 ==> *final(decoder) == *old(decoder),
        old(queue)@.len() > 0 ==> fed_scancodes(*final(decoder)) == fed_scancodes(*old(decoder)).push(
            old(queue)@[0],
        ),
        old(queue)@.len() > 0 ==> r == keycode_of(decoded_key_of(fed_scancodes(*final(decoder)))),
{
    let k = get_decoded_key(queue, decoder);
    decoded_keycode(k)
}

/// Feeds `scancode` to `decoder` and keeps the printable character, if any.
fn to_ascii_key(decoder: &mut KeyDecoder, scancode: u8) -> (r: Option<char>)
    ensures
        fed_scancodes(*final(decoder)) == fed_scancodes(*old(decoder)).push(scancode),
        r == char_of(decoded_key_of(fed_scancodes(*final(decoder)))),
{
    decoded_char(decoder.add_scancode(scancode))
}

/// Scancode that marks the end of the input stream.
pub const END_OF_STREAM: u8 = 0x04;

/// Scancode that marks the end of the current input.
pub const END_OF_INPUT: u8 = 0x1A;

/// Whether a scancode ends the current input, given the character the
/// decoder made of it: the end-of-input byte, or a newline.
pub open spec fn ends_input(scancode: u8, decoded: Option<char>) -> bool {
    scancode == END_OF_INPUT || decoded == Some('\n')
}

/// Decides `ends_input`.
pub fn is_end_of_input(scancode: u8, decoded: Option<char>) -> (r: bool)
    ensures
        r == ends_input(scancode, decoded),
{
    let newline = match decoded {
        Some(c) => c == '\n',
        None => false,
    };
    scancode == END_OF_INPUT || newline
}

/// Handle to the keyboard as standard input.
pub struct StandardIn {
    _private: (),
}

impl StandardIn {
    pub fn get() -> StandardIn {
        StandardIn { _private: () }
    }

    /// Whether the oldest queued scancode is the end-of-stream byte.
    pub fn is_eof(&self, queue: &RingBuffer32B) -> (r: bool)
        ensures
            r == (queue.front_slot() == END_OF_STREAM),
    {
        queue.peek() == END_OF_STREAM
    }

    /// Whether the oldest queued scancode ends the current input: the
    /// end-of-input byte, or a byte that `decoder` turns into a newline. The
    /// byte is fed to `decoder` either way and stays queued.
    pub fn at_end(&self, queue: &RingBuffer32B, decoder: &mut KeyDecoder) -> (r: bool)
        ensures
            fed_scancodes(*final(decoder)) == fed_scancodes(*old(decoder)).push(queue.front_slot()),
            r == ends_input(
                queue.front_slot(),
                char_of(decoded_key_of(fed_scancodes(*final(decoder)))),
            ),
    {
        let peeked = queue.peek();
        let decoded = to_ascii_key(decoder, peeked);
        is_end_of_input(peeked, decoded)
    }

    /// The next printable character typed, as `get_ascii_key` reads it.
    pub fn read(&mut self, queue: &mut RingBuffer32B, decoder: &mut KeyDecoder) -> (r: Option<char>)
        ensures
            final(queue)@ == after_read(old(queue)@),
            old(queue)@.len() == 0 ==> r is None,
            old(queue)@.len() == 0 ==> *final(decoder) == *old(decoder),
            old(queue)@.len() > 0 ==> fed_scancodes(*final(decoder)) == fed_scancodes(
                *old(decoder),
            ).push(old(queue)@[0]),
            old(queue)@.len() > 0 ==> r == char_of(decoded_key_of(fed_scancodes(*final(decoder)))),
    {
        get_ascii_key(queue, decoder)
    }
}

} // verus!
