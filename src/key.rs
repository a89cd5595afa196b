use vstd::prelude::*;

pub use crate::translate::{
    char_kbytes, kbytes_pair, modifiers_byte, KeyOrigin, Modifier, SpecialKey, ToKBytes,
};

use crate::layout::{layout_strokes, strokes_for_char, KeyStroke, StrokeRelease};
use vstd::string::StrSliceExecFns;

verus! {

/// Bytes of a keyboard report: the modifier byte, then the keycode bitmap.
pub const KEY_PACKET_LEN: usize = 33;

const KEY_PACKET_MOD_IDX: usize = 0;

const KEY_PACKET_KEY_IDX: usize = 1;

/// Index of the report byte that holds the bit of keycode `k`.
pub open spec fn key_byte_index(k: u8) -> int {
    1 + (k >> 3u8) as int
}

/// The bit, within its byte, that stands for keycode `k`.
pub open spec fn key_mask(k: u8) -> u8 {
    1u8 << (k & 7u8)
}

/// Whether the report bytes `r` assert keycode `k`.
pub open spec fn has_key(r: Seq<u8>, k: u8) -> bool {
    r[key_byte_index(k)] & key_mask(k) != 0
}

/// Whether the report bytes `r` assert any keycode at all.
pub open spec fn has_any_key(r: Seq<u8>) -> bool {
    exists|k: u8| has_key(r, k)
}

/// `r` with the modifier bits `m` and the bit of keycode `k` set.
pub open spec fn with_key(r: Seq<u8>, m: u8, k: u8) -> Seq<u8> {
    r.update(0, r[0] | m).update(key_byte_index(k), r[key_byte_index(k)] | key_mask(k))
}

/// `r` with the modifier bits `m` and the bit of keycode `k` cleared.
pub open spec fn without_key(r: Seq<u8>, m: u8, k: u8) -> Seq<u8> {
    r.update(0, r[0] & !m).update(key_byte_index(k), r[key_byte_index(k)] & !key_mask(k))
}

/// `r` with the modifier bits `m` set.
pub open spec fn with_modifiers(r: Seq<u8>, m: u8) -> Seq<u8> {
    r.update(0, r[0] | m)
}

/// `r` with the modifier bits `m` cleared.
pub open spec fn without_modifiers(r: Seq<u8>, m: u8) -> Seq<u8> {
    r.update(0, r[0] & !m)
}

/// The report that asserts nothing.
pub open spec fn empty_report() -> Seq<u8> {
    Seq::new(KEY_PACKET_LEN as nat, |i: int| 0u8)
}

/// Two reports collide when some byte of their keycode bitmaps shares a set bit;
/// the modifier byte takes no part.
pub open spec fn collides(a: Seq<u8>, b: Seq<u8>) -> bool {
    exists|i: int| 1 <= i < KEY_PACKET_LEN && #[trigger] (a[i] & b[i]) != 0
}

/// Every byte of `p` ORed with the same byte of `h`.
pub open spec fn merged(p: Seq<u8>, h: Seq<u8>) -> Seq<u8> {
    Seq::new(KEY_PACKET_LEN as nat, |i: int| p[i] | h[i])
}

/// The key bytes `[modifier, keycode]` of a basic key, if it has any.
pub open spec fn basic_kbytes(key: BasicKey) -> Option<(u8, u8)> {
    match key {
        BasicKey::Char(c, origin) => char_kbytes(c, origin),
        BasicKey::Special(special) => Some((0u8, special.spec_kbyte())),
    }
}

/// `r` with the key bytes of `key` set, when it has any.
pub open spec fn with_basic_key(r: Seq<u8>, key: BasicKey) -> Seq<u8> {
    match basic_kbytes(key) {
        Some((m, k)) => with_key(r, m, k),
        None => r,
    }
}

/// The report that `KeyPacket::from_list` builds.
pub open spec fn list_report(modifiers: Seq<Modifier>, keys: Seq<(char, KeyOrigin)>) -> Seq<u8>
    decreases keys.len(),
{
    if keys.len() == 0 {
        empty_report().update(0, modifiers_byte(modifiers))
    } else {
        let r = list_report(modifiers, keys.drop_last());
        match char_kbytes(keys.last().0, keys.last().1) {
            Some((m, k)) => with_key(r, m, k),
            None => r,
        }
    }
}

/// Position of keycode `k` in a report.
proof fn lemma_key_position(k: u8)
    by (bit_vector)
    ensures
        k >> 3u8 < 32u8,
        k & 7u8 < 8u8,
{
}

/// Setting or clearing the bit of one keycode leaves the bit of another keycode of
/// the same byte as it was, and sets or clears its own.
proof fn lemma_bit_of_byte(b: u8, j: u8, k: u8)
    by (bit_vector)
    ensures
        (b | (1u8 << (k & 7u8))) & (1u8 << (k & 7u8)) != 0,
        (b & !(1u8 << (k & 7u8))) & (1u8 << (k & 7u8)) == 0,
        j != k && (j >> 3u8) == (k >> 3u8) ==> (((b | (1u8 << (k & 7u8))) & (1u8 << (j & 7u8)))
            != 0) == ((b & (1u8 << (j & 7u8))) != 0),
        j != k && (j >> 3u8) == (k >> 3u8) ==> (((b & !(1u8 << (k & 7u8))) & (1u8 << (j & 7u8)))
            != 0) == ((b & (1u8 << (j & 7u8))) != 0),
{
}

/// What `with_key` and `without_key` do to the keycode bits.
pub proof fn lemma_key_bits(r: Seq<u8>, m: u8, k: u8)
    requires
        r.len() == KEY_PACKET_LEN,
    ensures
        has_key(with_key(r, m, k), k),
        !has_key(without_key(r, m, k), k),
        forall|j: u8|
            j != k ==> (#[trigger] has_key(with_key(r, m, k), j) <==> has_key(r, j)),
        forall|j: u8|
            j != k ==> (#[trigger] has_key(without_key(r, m, k), j) <==> has_key(r, j)),
{
    lemma_key_position(k);
    lemma_bit_of_byte(r[key_byte_index(k)], k, k);
    assert forall|j: u8| j != k implies (#[trigger] has_key(with_key(r, m, k), j) <==> has_key(
        r,
        j,
    )) by {
        lemma_key_position(j);
        lemma_bit_of_byte(r[key_byte_index(k)], j, k);
    }
    assert forall|j: u8| j != k implies (#[trigger] has_key(without_key(r, m, k), j) <==> has_key(
        r,
        j,
    )) by {
        lemma_key_position(j);
        lemma_bit_of_byte(r[key_byte_index(k)], j, k);
    }
}

/// Facts on one bitmap byte: `&` commutes, is idempotent, and a byte that is not zero
/// has one of its eight bits set.
proof fn lemma_byte_bits(a: u8, b: u8, m: u8)
    by (bit_vector)
    ensures
        a & b == b & a,
        a & a == a,
        a & m != 0 ==> a != 0,
        a != 0 ==> (a & (1u8 << 0u8) != 0 || a & (1u8 << 1u8) != 0 || a & (1u8 << 2u8) != 0 || a
            & (1u8 << 3u8) != 0 || a & (1u8 << 4u8) != 0 || a & (1u8 << 5u8) != 0 || a & (1u8
            << 6u8) != 0 || a & (1u8 << 7u8) != 0),
{
}

/// The keycode whose bit is bit `j` of bitmap byte `x`.
proof fn lemma_keycode_of(x: u8, j: u8)
    by (bit_vector)
    requires
        x < 32,
        j < 8,
    ensures
        ((x << 3u8) | j) >> 3u8 == x,
        ((x << 3u8) | j) & 7u8 == j,
{
}

/// Setting the bit of keycode `k` and then clearing it again leaves every other
/// keycode's bit, and every other bitmap byte, as it was; `k` ends up cleared.
pub proof fn lemma_set_then_clear_isolated(r: Seq<u8>, m: u8, k: u8)
    requires
        r.len() == KEY_PACKET_LEN,
    ensures
        forall|j: u8|
            j != k ==> (#[trigger] has_key(without_key(with_key(r, m, k), m, k), j) <==> has_key(
                r,
                j,
            )),
        !has_key(without_key(with_key(r, m, k), m, k), k),
        forall|i: int|
            1 <= i < KEY_PACKET_LEN && i != key_byte_index(k) ==> #[trigger] without_key(
                with_key(r, m, k),
                m,
                k,
            )[i] == r[i],
{
    lemma_key_position(k);
    lemma_key_bits(r, m, k);
    lemma_key_bits(with_key(r, m, k), m, k);
    assert forall|j: u8| j != k implies (#[trigger] has_key(
        without_key(with_key(r, m, k), m, k),
        j,
    ) <==> has_key(r, j)) by {
        assert(has_key(with_key(r, m, k), j) <==> has_key(r, j));
    }
}

/// Collision is symmetric, and a report collides with itself exactly when it asserts
/// some keycode.
pub proof fn lemma_collides_symmetric(a: Seq<u8>, b: Seq<u8>)
    requires
        a.len() == KEY_PACKET_LEN,
        b.len() == KEY_PACKET_LEN,
    ensures
        collides(a, b) == collides(b, a),
        collides(a, a) <==> has_any_key(a),
{
    assert forall|i: int| 1 <= i < KEY_PACKET_LEN implies #[trigger] (a[i] & b[i]) == (b[i]
        & a[i]) by {
        lemma_byte_bits(a[i], b[i], 0);
    }
    if collides(a, b) {
        let i = choose|i: int| 1 <= i < KEY_PACKET_LEN && #[trigger] (a[i] & b[i]) != 0;
        assert((b[i] & a[i]) != 0);
    }
    if collides(b, a) {
        let i = choose|i: int| 1 <= i < KEY_PACKET_LEN && #[trigger] (b[i] & a[i]) != 0;
        assert((a[i] & b[i]) != 0);
    }
    if collides(a, a) {
        let i = choose|i: int| 1 <= i < KEY_PACKET_LEN && #[trigger] (a[i] & a[i]) != 0;
        lemma_byte_bits(a[i], a[i], 0);
        let x = (i - 1) as u8;
        let j: u8 = if a[i] & (1u8 << 0u8) != 0 {
            0
        } else if a[i] & (1u8 << 1u8) != 0 {
            1
        } else if a[i] & (1u8 << 2u8) != 0 {
            2
        } else if a[i] & (1u8 << 3u8) != 0 {
            3
        } else if a[i] & (1u8 << 4u8) != 0 {
            4
        } else if a[i] & (1u8 << 5u8) != 0 {
            5
        } else if a[i] & (1u8 << 6u8) != 0 {
            6
        } else {
            7
        };
        lemma_keycode_of(x, j);
        let k = (x << 3u8) | j;
        assert(has_key(a, k));
    }
    if has_any_key(a) {
        let k = choose|k: u8| has_key(a, k);
        lemma_key_position(k);
        lemma_byte_bits(a[key_byte_index(k)], a[key_byte_index(k)], key_mask(k));
        assert((a[key_byte_index(k)] & a[key_byte_index(k)]) != 0);
    }
}

/// Basic Key Press
#[derive(Debug, Eq, Hash, PartialEq, Clone, Copy, Structural)]
pub enum BasicKey {
    /// Key from Char
    Char(char, KeyOrigin),
    /// Special Key
    Special(SpecialKey),
}

/// Key Packet abstraction: one keyboard report, a modifier byte followed by a
/// 32-byte bitmap in which bit `k & 7` of byte `1 + (k >> 3)` stands for keycode `k`.
pub struct KeyPacket {
    data: [u8; KEY_PACKET_LEN],
}

impl View for KeyPacket {
    type V = Seq<u8>;

    /// The report's 33 bytes.
    closed spec fn view(&self) -> Seq<u8> {
        self.data@
    }
}

impl KeyPacket {
    /// Every report has 33 bytes.
    pub proof fn lemma_len(&self)
        ensures
            self@.len() == KEY_PACKET_LEN,
    {
    }

    /// New
    pub fn new() -> (r: KeyPacket)
        ensures
            r@ == empty_report(),
    {
        let r = KeyPacket { data: [0u8; KEY_PACKET_LEN] };
        assert(r@ =~= empty_report());
        r
    }

    /// Set the modifier bits `kbytes[0]` and the bit of keycode `kbytes[1]`.
    pub fn add_key(&mut self, kbytes: &[u8; 2])
        ensures
            final(self)@ == with_key(old(self)@, kbytes[0], kbytes[1]),
    {
        let m = kbytes[0];
        let k = kbytes[1];
        proof {
            lemma_key_position(k);
        }
        self.data[KEY_PACKET_MOD_IDX] = self.data[KEY_PACKET_MOD_IDX] | m;
        let idx = KEY_PACKET_KEY_IDX + (k >> 3) as usize;
        self.data[idx] = self.data[idx] | (1u8 << (k & 7));
        assert(self@ =~= with_key(old(self)@, m, k));
    }

    /// Clear the modifier bits `kbytes[0]` and the bit of keycode `kbytes[1]`.
    pub fn remove_key(&mut self, kbytes: &[u8; 2])
        ensures
            final(self)@ == without_key(old(self)@, kbytes[0], kbytes[1]),
    {
        let m = kbytes[0];
        let k = kbytes[1];
        proof {
            lemma_key_position(k);
        }
        self.data[KEY_PACKET_MOD_IDX] = self.data[KEY_PACKET_MOD_IDX] & !m;
        let idx = KEY_PACKET_KEY_IDX + (k >> 3) as usize;
        self.data[idx] = self.data[idx] & !(1u8 << (k & 7));
        assert(self@ =~= without_key(old(self)@, m, k));
    }

    fn get_key(&self, kbytes: &[u8; 2]) -> (r: bool)
        ensures
            r == has_key(self@, kbytes[1]),
    {
        let k = kbytes[1];
        proof {
            lemma_key_position(k);
        }
        self.data[KEY_PACKET_KEY_IDX + (k >> 3) as usize] & (1u8 << (k & 7)) != 0
    }

    fn add_mod(&mut self, modifier: &Modifier)
        ensures
            final(self)@ == with_modifiers(old(self)@, modifier.spec_mkbyte()),
    {
        self.data[KEY_PACKET_MOD_IDX] = self.data[KEY_PACKET_MOD_IDX] | modifier.to_mkbyte();
        assert(self@ =~= with_modifiers(old(self)@, modifier.spec_mkbyte()));
    }

    fn remove_mod(&mut self, modifier: &Modifier)
        ensures
            final(self)@ == without_modifiers(old(self)@, modifier.spec_mkbyte()),
    {
        self.data[KEY_PACKET_MOD_IDX] = self.data[KEY_PACKET_MOD_IDX] & !modifier.to_mkbyte();
        assert(self@ =~= without_modifiers(old(self)@, modifier.spec_mkbyte()));
    }
    /// Create from keycodes
    pub fn from_keycodes(modifier: u8, key: u8) -> (r: KeyPacket)
        ensures
            r@ == with_key(empty_report(), modifier, key),
    {
        let mut packet = KeyPacket::new();
        packet.push_modifier_key_keycode(modifier, key);
        packet
    }

    /// Create from modifier keycode
    pub fn from_mod_keycode(modifier: u8) -> (r: KeyPacket)
        ensures
            r@ == with_key(empty_report(), modifier, 0),
    {
        let mut packet = KeyPacket::new();
        packet.push_modifier_keycode(modifier);
        packet
    }

    /// Create from key lists: the modifier byte of `modifiers`, then every key of
    /// `keys` that has key bytes (the others are skipped).
    pub fn from_list(modifiers: &[Modifier], keys: &[(char, KeyOrigin); 6]) -> (r: KeyPacket)
        ensures
            r@ == list_report(modifiers@, keys@),
    {
        let mut packet = KeyPacket::new();
        packet.data[KEY_PACKET_MOD_IDX] = Modifier::all_to_byte(modifiers);
        assert(packet@ =~= list_report(modifiers@, keys@.subrange(0, 0)));
        let mut i: usize = 0;
        while i < 6
            invariant
                i <= 6,
                keys@.len() == 6,
                packet@ == list_report(modifiers@, keys@.subrange(0, i as int)),
            decreases 6 - i,
        {
            let (c, key_origin) = keys[i];
            assert(keys@.subrange(0, i + 1).drop_last() =~= keys@.subrange(0, i as int));
            if let Some(kbytes) = c.to_kbytes(&key_origin) {
                packet.add_key(&kbytes);
            }
            i = i + 1;
        }
        assert(keys@.subrange(0, 6) =~= keys@);
        packet
    }

    /// Create from char: `None` when the character has no key on that origin.
    pub fn from_char(c: &char, key_origin: &KeyOrigin) -> (r: Option<KeyPacket>)
        ensures
            match char_kbytes(*c, *key_origin) {
                Some((m, k)) => r is Some && r->0@ == with_key(empty_report(), m, k),
                None => r is None,
            },
    {
        let mut packet = KeyPacket::new();
        let kbytes = match c.to_kbytes(key_origin) {
            Some(kbytes) => kbytes,
            None => return None,
        };
        packet.add_key(&kbytes);
        Some(packet)
    }

    /// Create from special key
    pub fn from_special(special: &SpecialKey) -> (r: KeyPacket)
        ensures
            r@ == with_key(empty_report(), 0, special.spec_kbyte()),
    {
        let mut packet = KeyPacket::new();
        let kbyte = special.to_kbyte();
        packet.add_key(&[0x0, kbyte]);
        packet
    }

    /// Check if packet contains the keystroke for a char: the bit of its keycode is set.
    pub fn contains_char(&self, key: char, key_origin: &KeyOrigin) -> (r: bool)
        ensures
            r == match char_kbytes(key, *key_origin) {
                Some((m, k)) => has_key(self@, k),
                None => false,
            },
    {
        let kbyte = match key.to_kbytes(key_origin) {
            Some(kbytes) => kbytes[1],
            None => return false,
        };
        self.contains_kbyte(&kbyte)
    }

    /// Check if packet contains the keystroke in a given packet: some byte of the two
    /// keycode bitmaps shares a set bit.
    pub fn contains_any(&self, packet: &KeyPacket) -> (r: bool)
        ensures
            r == collides(self@, packet@),
    {
        let mut i: usize = KEY_PACKET_KEY_IDX;
        while i < KEY_PACKET_LEN
            invariant
                1 <= i <= KEY_PACKET_LEN,
                forall|j: int| 1 <= j < i ==> #[trigger] (self@[j] & packet@[j]) == 0,
            decreases KEY_PACKET_LEN - i,
        {
            if self.data[i] & packet.data[i] != 0 {
                return true;
            }
            i = i + 1;
        }
        false
    }

    /// Check if packet contains special key
    pub fn contains_special(&self, special: &SpecialKey) -> (r: bool)
        ensures
            r == has_key(self@, special.spec_kbyte()),
    {
        self.contains_kbyte(&special.to_kbyte())
    }

    fn contains_kbyte(&self, kbyte: &u8) -> (r: bool)
        ensures
            r == has_key(self@, *kbyte),
    {
        self.get_key(&[0x00, *kbyte])
    }

    /// Add modifier to packet
    pub fn push_modifier(&mut self, modifier: &Modifier)
        ensures
            final(self)@ == with_modifiers(old(self)@, modifier.spec_mkbyte()),
    {
        self.add_mod(modifier)
    }

    /// Add key from keycode to packet
    pub fn push_key_keycode(&mut self, key: u8)
        ensures
            final(self)@ == with_key(old(self)@, 0, key),
    {
        self.add_key(&[0x00, key]);
    }

    /// Add modifier from keycode to packet (the bit of keycode 0 is set with it)
    pub fn push_modifier_keycode(&mut self, modifier: u8)
        ensures
            final(self)@ == with_key(old(self)@, modifier, 0),
    {
        self.add_key(&[modifier, 0x00]);
    }

    /// Add modifier & key from keycodes to packet
    pub fn push_modifier_key_keycode(&mut self, modifier: u8, key: u8)
        ensures
            final(self)@ == with_key(old(self)@, modifier, key),
    {
        self.add_key(&[modifier, key]);
    }

    /// Add key to packet; returns its keycode, or `None` (packet unchanged) when the
    /// key has no key bytes.
    pub fn push_key(&mut self, key: &BasicKey) -> (r: Option<u8>)
        ensures
            final(self)@ == with_basic_key(old(self)@, *key),
            r == match basic_kbytes(*key) {
                Some((m, k)) => Some(k),
                None => None::<u8>,
            },
    {
        match key {
            BasicKey::Char(c, key_origin) => self.push_char(c, key_origin),
            BasicKey::Special(special) => self.push_special(special),
        }
    }

    /// Add char to packet
    pub fn push_char(&mut self, key: &char, key_origin: &KeyOrigin) -> (r: Option<u8>)
        ensures
            final(self)@ == with_basic_key(old(self)@, BasicKey::Char(*key, *key_origin)),
            r == match char_kbytes(*key, *key_origin) {
                Some((m, k)) => Some(k),
                None => None::<u8>,
            },
    {
        let kbytes = match key.to_kbytes(key_origin) {
            Some(kbytes) => kbytes,
            None => return None,
        };
        self.add_key(&kbytes);
        Some(kbytes[1])
    }

    /// Add special key to packet
    pub fn push_special(&mut self, special: &SpecialKey) -> (r: Option<u8>)
        ensures
            final(self)@ == with_key(old(self)@, 0, special.spec_kbyte()),
            r == Some(special.spec_kbyte()),
    {
        let kbytes = special.to_kbyte();
        self.add_key(&[0x0, kbytes]);
        Some(kbytes)
    }

    /// The report's bytes, as written to the keyboard endpoint.
    pub fn bytes(&self) -> (r: [u8; KEY_PACKET_LEN])
        ensures
            r@ == self@,
    {
        self.data
    }

    fn clone(&self) -> (r: KeyPacket)
        ensures
            r == *self,
            r@ == self@,
    {
        KeyPacket { data: self.data }
    }
}

/// LED State Types
#[derive(Debug, Clone, Copy, PartialEq, Eq, Structural)]
pub enum LEDState {
    /// Kana
    Kana,
    /// Compose
    Compose,
    /// ScrollLock
    ScrollLock,
    /// CapsLock
    CapsLock,
    /// NumLock
    NumLock,
}

impl LEDState {
    /// The bit of the LED byte that carries this LED: bit 0 NumLock, bit 1 CapsLock,
    /// bit 2 ScrollLock, bit 3 Compose, bit 4 Kana.
    pub open spec fn led_mask(self) -> u8 {
        match self {
            LEDState::NumLock => 0x01,
            LEDState::CapsLock => 0x02,
            LEDState::ScrollLock => 0x04,
            LEDState::Compose => 0x08,
            LEDState::Kana => 0x10,
        }
    }

    /// Get the state of a LED State Type.
    pub fn get_state(&self, packet: u8) -> (r: bool)
        ensures
            r == (packet & self.led_mask() != 0),
    {
        match self {
            LEDState::Kana => packet & 0x10 != 0,
            LEDState::Compose => packet & 0x08 != 0,
            LEDState::ScrollLock => packet & 0x04 != 0,
            LEDState::CapsLock => packet & 0x02 != 0,
            LEDState::NumLock => packet & 0x01 != 0,
        }
    }
}

/// Abstraction for LED State Packets: the last LED byte received from the host.
pub struct LEDStatePacket {
    data: u8,
}

impl View for LEDStatePacket {
    type V = u8;

    /// The LED byte.
    closed spec fn view(&self) -> u8 {
        self.data
    }
}

impl LEDStatePacket {
    /// New blank LED state packet
    pub fn new() -> (r: LEDStatePacket)
        ensures
            r@ == 0,
    {
        LEDStatePacket { data: 0x00 }
    }

    /// Create a new LED State Packet from what one bounded read of the LED channel
    /// returned: the byte read, or 0 when nothing came.
    pub fn new_from_packet(packet: Option<u8>) -> (r: LEDStatePacket)
        ensures
            r@ == match packet {
                Some(b) => b,
                None => 0u8,
            },
    {
        LEDStatePacket { data: packet.unwrap_or(0) }
    }

    /// Get the state of a LED State Type.
    /// True means on
    /// False means off
    pub fn get_state(&self, state: &LEDState) -> (r: bool)
        ensures
            r == (self@ & state.led_mask() != 0),
    {
        state.get_state(self.data)
    }

    /// Update LED States with what one bounded read of the LED channel returned: a
    /// byte replaces the state, nothing (a timeout) keeps it.
    pub fn update(&mut self, packet: Option<u8>)
        ensures
            final(self)@ == match packet {
                Some(b) => b,
                None => old(self)@,
            },
    {
        match packet {
            Some(data) => self.data = data,
            None => (),
        }
    }
}

impl From<&LEDStatePacket> for u8 {
    fn from(led: &LEDStatePacket) -> (r: u8) {
        led.data
    }
}

impl vstd::std_specs::convert::FromSpecImpl<&LEDStatePacket> for u8 {
    open spec fn obeys_from_spec() -> bool {
        true
    }

    open spec fn from_spec(led: &LEDStatePacket) -> u8 {
        led@
    }
}

/// The queue before a key press is added: a bare hold-state report `h` goes first
/// when the last queued report collides with `t`, the pressed keys alone.
pub open spec fn buffered(q: Seq<Seq<u8>>, h: Seq<u8>, t: Seq<u8>) -> Seq<Seq<u8>> {
    if q.len() > 0 && collides(q.last(), t) {
        q.push(h)
    } else {
        q
    }
}

/// The queue after pressing the keys `t`, whose report with the hold state `h` is `p`.
pub open spec fn pressed(q: Seq<Seq<u8>>, h: Seq<u8>, t: Seq<u8>, p: Seq<u8>) -> Seq<Seq<u8>> {
    buffered(q, h, t).push(p)
}

/// The queue after pressing the key bytes `(m, k)` on top of the hold state `h`.
pub open spec fn pressed_key(q: Seq<Seq<u8>>, h: Seq<u8>, m: u8, k: u8) -> Seq<Seq<u8>> {
    pressed(q, h, with_key(empty_report(), m, k), with_key(h, m, k))
}

/// The queue after a full keystroke of `p`: `p` merged with the hold state, pressed,
/// then the bare hold state.
pub open spec fn stroked(q: Seq<Seq<u8>>, h: Seq<u8>, p: Seq<u8>) -> Seq<Seq<u8>> {
    pressed(q, h, p, merged(p, h)).push(h)
}

/// One stroke of a layout lookup, on the queue and the combination being built.
pub open spec fn stroke_step(
    q: Seq<Seq<u8>>,
    combo: Option<Seq<u8>>,
    h: Seq<u8>,
    s: KeyStroke,
) -> (Seq<Seq<u8>>, Option<Seq<u8>>) {
    match s.release {
        StrokeRelease::Keys => {
            let base = match combo {
                Some(c) => c,
                None => with_key(empty_report(), s.modifier, 0),
            };
            (q, Some(with_key(base, s.modifier, s.key)))
        },
        StrokeRelease::Nothing => match combo {
            Some(c) => (stroked(q, h, c), None),
            None => (q, None),
        },
        StrokeRelease::All => (stroked(q, h, with_key(empty_report(), s.modifier, s.key)), combo),
    }
}

/// The queue and the pending combination after the strokes `strokes`.
pub open spec fn play_strokes(q: Seq<Seq<u8>>, h: Seq<u8>, strokes: Seq<KeyStroke>) -> (
    Seq<Seq<u8>>,
    Option<Seq<u8>>,
)
    decreases strokes.len(),
{
    if strokes.len() == 0 {
        (q, None)
    } else {
        let prev = play_strokes(q, h, strokes.drop_last());
        stroke_step(prev.0, prev.1, h, strokes.last())
    }
}

/// The queue after typing `c` on the layout named `layout`; unchanged when the
/// layout cannot type it.
pub open spec fn press_on_layout(q: Seq<Seq<u8>>, h: Seq<u8>, layout: Seq<char>, c: char) -> Seq<
    Seq<u8>,
> {
    match layout_strokes(layout, seq![c]) {
        Some(strokes) => play_strokes(q, h, strokes).0,
        None => q,
    }
}

/// The queue after typing every character of `text` on the layout named `layout`.
pub open spec fn press_text_on_layout(
    q: Seq<Seq<u8>>,
    h: Seq<u8>,
    layout: Seq<char>,
    text: Seq<char>,
) -> Seq<Seq<u8>>
    decreases text.len(),
{
    if text.len() == 0 {
        q
    } else {
        press_on_layout(press_text_on_layout(q, h, layout, text.drop_last()), h, layout, text.last())
    }
}

/// The queue after typing `text` with the built-in keyboard table: each character
/// that has a key is pressed on top of the hold state, then the bare hold state follows.
pub open spec fn typed_basic(q: Seq<Seq<u8>>, h: Seq<u8>, text: Seq<char>) -> Seq<Seq<u8>>
    decreases text.len(),
{
    if text.len() == 0 {
        q
    } else {
        let prev = typed_basic(q, h, text.drop_last());
        match char_kbytes(text.last(), KeyOrigin::Keyboard) {
            Some((m, k)) => pressed_key(prev, h, m, k).push(h),
            None => prev,
        }
    }
}

/// The hold state after holding every character of `text` that has a key.
pub open spec fn held_chars(h: Seq<u8>, text: Seq<char>) -> Seq<u8>
    decreases text.len(),
{
    if text.len() == 0 {
        h
    } else {
        let prev = held_chars(h, text.drop_last());
        match char_kbytes(text.last(), KeyOrigin::Keyboard) {
            Some((m, k)) => with_key(prev, m, k),
            None => prev,
        }
    }
}

/// The hold state after releasing every character of `text` that has a key.
pub open spec fn released_chars(h: Seq<u8>, text: Seq<char>) -> Seq<u8>
    decreases text.len(),
{
    if text.len() == 0 {
        h
    } else {
        let prev = released_chars(h, text.drop_last());
        match char_kbytes(text.last(), KeyOrigin::Keyboard) {
            Some((m, k)) => without_key(prev, m, k),
            None => prev,
        }
    }
}

/// No two neighbouring reports of `q` collide.
pub open spec fn collision_free(q: Seq<Seq<u8>>) -> bool {
    forall|i: int| 0 <= i < q.len() - 1 ==> !collides(#[trigger] q[i], q[i + 1])
}

/// A report that asserts no keycode collides with no report.
proof fn lemma_keyless_never_collides(h: Seq<u8>, x: Seq<u8>)
    requires
        h.len() == KEY_PACKET_LEN,
        x.len() == KEY_PACKET_LEN,
        !has_any_key(h),
    ensures
        !collides(x, h),
        !collides(h, x),
{
    lemma_collides_symmetric(h, h);
    lemma_collides_symmetric(x, h);
    assert forall|i: int| 1 <= i < KEY_PACKET_LEN implies #[trigger] (x[i] & h[i]) == 0 by {
        assert((h[i] & h[i]) == 0);
        lemma_byte_bits(h[i], h[i], 0);
        lemma_zero_and(x[i]);
    }
}

/// A byte ANDed with zero is zero.
proof fn lemma_zero_and(a: u8)
    by (bit_vector)
    ensures
        a & 0u8 == 0u8,
{
}

/// With a hold state that asserts no keycode, pressing keys `t` whose report `p`
/// has the same keycode bitmap keeps a queue free of neighbouring collisions.
pub proof fn lemma_press_keeps_collision_free(
    q: Seq<Seq<u8>>,
    h: Seq<u8>,
    t: Seq<u8>,
    p: Seq<u8>,
)
    requires
        forall|i: int| 0 <= i < q.len() ==> #[trigger] q[i].len() == KEY_PACKET_LEN,
        h.len() == KEY_PACKET_LEN,
        t.len() == KEY_PACKET_LEN,
        p.len() == KEY_PACKET_LEN,
        forall|i: int| 1 <= i < KEY_PACKET_LEN ==> #[trigger] p[i] == t[i],
        !has_any_key(h),
        collision_free(q),
    ensures
        collision_free(pressed(q, h, t, p)),
        forall|i: int|
            0 <= i < pressed(q, h, t, p).len() ==> #[trigger] pressed(q, h, t, p)[i].len()
                == KEY_PACKET_LEN,
{
    let b = buffered(q, h, t);
    if q.len() > 0 && collides(q.last(), t) {
        lemma_keyless_never_collides(h, q.last());
        lemma_keyless_never_collides(h, p);
        assert(b == q.push(h));
    } else {
        assert(b == q);
        if q.len() > 0 {
            assert(!collides(q.last(), p)) by {
                if collides(q.last(), p) {
                    let i = choose|i: int|
                        1 <= i < KEY_PACKET_LEN && #[trigger] (q.last()[i] & p[i]) != 0;
                    assert((q.last()[i] & t[i]) != 0);
                }
            }
        }
    }
    assert forall|i: int| 0 <= i < b.len() - 1 implies !collides(#[trigger] b[i], b[i + 1]) by {
        assert(q[i] == b[i]);
        if i + 1 < q.len() {
            assert(q[i + 1] == b[i + 1]);
        }
    }
    let r = b.push(p);
    assert forall|i: int| 0 <= i < r.len() - 1 implies !collides(#[trigger] r[i], r[i + 1]) by {
        assert(r[i] == b[i]);
        if i + 1 < b.len() {
            assert(r[i + 1] == b[i + 1]);
        }
    }
}

/// A hold state that asserts no keycode has an all-zero keycode bitmap, so a key
/// pressed on top of it has the bitmap of the key alone.
proof fn lemma_keyless_press_bitmap(h: Seq<u8>, m: u8, k: u8)
    requires
        h.len() == KEY_PACKET_LEN,
        !has_any_key(h),
    ensures
        forall|i: int|
            1 <= i < KEY_PACKET_LEN ==> #[trigger] with_key(h, m, k)[i] == with_key(
                empty_report(),
                m,
                k,
            )[i],
{
    lemma_key_position(k);
    lemma_collides_symmetric(h, h);
    assert forall|i: int| 1 <= i < KEY_PACKET_LEN implies #[trigger] with_key(h, m, k)[i]
        == with_key(empty_report(), m, k)[i] by {
        assert((h[i] & h[i]) == 0);
        lemma_byte_bits(h[i], h[i], 0);
    }
}

/// Pressing the same key twice in a row, with a hold state that asserts no keycode,
/// leaves no two neighbouring queued reports colliding (when none did before): the
/// second press is preceded by a bare hold-state report.
pub proof fn lemma_repeated_press_collision_free(q: Seq<Seq<u8>>, h: Seq<u8>, m: u8, k: u8)
    requires
        forall|i: int| 0 <= i < q.len() ==> #[trigger] q[i].len() == KEY_PACKET_LEN,
        h.len() == KEY_PACKET_LEN,
        !has_any_key(h),
        collision_free(q),
    ensures
        collision_free(pressed_key(pressed_key(q, h, m, k), h, m, k)),
        pressed_key(pressed_key(q, h, m, k), h, m, k) == pressed_key(q, h, m, k).push(h).push(
            with_key(h, m, k),
        ),
{
    let t = with_key(empty_report(), m, k);
    let p = with_key(h, m, k);
    lemma_key_position(k);
    lemma_key_bits(empty_report(), m, k);
    lemma_key_bits(h, m, k);
    lemma_keyless_press_bitmap(h, m, k);
    lemma_press_keeps_collision_free(q, h, t, p);
    lemma_press_keeps_collision_free(pressed_key(q, h, m, k), h, t, p);
    assert(pressed_key(q, h, m, k).last() == p);
    assert(collides(p, t)) by {
        let i = key_byte_index(k);
        assert(p[i] == t[i]);
        lemma_byte_bits(t[i], t[i], key_mask(k));
        assert((p[i] & t[i]) != 0);
    }
}

/// The reports that a flush writes: the queue, then the bare hold state.
pub open spec fn flush_reports(q: Seq<Seq<u8>>, h: Seq<u8>) -> Seq<Seq<u8>> {
    q.push(h)
}

/// The bytes of each report of `s`, in order.
pub open spec fn report_views(s: Seq<KeyPacket>) -> Seq<Seq<u8>> {
    Seq::new(s.len(), |i: int| s[i]@)
}

/// Virtual Keyboard: the keys held across flushes, and the reports queued for the
/// next flush.
pub struct Keyboard {
    packets: Vec<KeyPacket>,
    holding: KeyPacket,
    led_states: LEDStatePacket,
}

impl std::str::FromStr for Keyboard {
    type Err = ();

    /// A keyboard whose queue types `s` with the built-in keyboard table.
    fn from_str(s: &str) -> Result<Self, Self::Err> {
        let mut keyboard = Keyboard::new();
        keyboard.press_basic_string(s);
        Ok(keyboard)
    }
}

impl Keyboard {
    /// The queued reports, oldest first.
    pub closed spec fn queue(&self) -> Seq<Seq<u8>> {
        report_views(self.packets@)
    }

    /// The hold state: the keys and modifiers kept down across flushes.
    pub closed spec fn holding(&self) -> Seq<u8> {
        self.holding@
    }

    /// The last LED byte received.
    pub closed spec fn leds(&self) -> u8 {
        self.led_states@
    }

    /// Every report of a keyboard has 33 bytes.
    pub proof fn lemma_report_lens(&self)
        ensures
            self.holding().len() == KEY_PACKET_LEN,
            forall|i: int| 0 <= i < self.queue().len() ==> #[trigger] self.queue()[i].len() == KEY_PACKET_LEN,
    {
    }

    /// New
    pub fn new() -> (r: Keyboard)
        ensures
            r.queue() == Seq::<Seq<u8>>::empty(),
            r.holding() == empty_report(),
            r.leds() == 0,
    {
        let r = Keyboard {
            packets: Vec::new(),
            holding: KeyPacket::new(),
            led_states: LEDStatePacket::new(),
        };
        assert(r.queue() =~= Seq::<Seq<u8>>::empty());
        r
    }

    /// Get the current LED state
    pub fn led_state(&self, state: &LEDState) -> (r: bool)
        ensures
            r == (self.leds() & state.led_mask() != 0),
    {
        self.led_states.get_state(state)
    }

    /// Update LED states with what one bounded read of the LED channel returned: a
    /// byte replaces the state, nothing (a timeout) keeps it.
    pub fn update_led_state(&mut self, packet: Option<u8>)
        ensures
            final(self).leds() == match packet {
                Some(b) => b,
                None => old(self).leds(),
            },
            final(self).queue() == old(self).queue(),
            final(self).holding() == old(self).holding(),
    {
        self.led_states.update(packet)
    }

    fn push_packet(&mut self, packet: KeyPacket)
        ensures
            final(self).queue() == old(self).queue().push(packet@),
            final(self).holding() == old(self).holding(),
            final(self).leds() == old(self).leds(),
    {
        self.packets.push(packet);
        assert(self.queue() =~= old(self).queue().push(packet@));
    }

    fn push_release_packet(&mut self)
        ensures
            final(self).queue() == old(self).queue().push(old(self).holding()),
            final(self).holding() == old(self).holding(),
            final(self).leds() == old(self).leds(),
    {
        let packet = self.create_release_packet();
        self.push_packet(packet);
    }

    fn add_buffer(&mut self, keys: &KeyPacket)
        ensures
            final(self).queue() == buffered(old(self).queue(), old(self).holding(), keys@),
            final(self).holding() == old(self).holding(),
            final(self).leds() == old(self).leds(),
    {
        let n = self.packets.len();
        if n > 0 {
            assert(self.queue().last() == self.packets@[n - 1]@);
            if self.packets[n - 1].contains_any(keys) {
                self.push_release_packet();
            }
        }
    }

    /// Hold key down; returns its keycode, or `None` (nothing changes) when the key
    /// has no key bytes.
    pub fn hold_key(&mut self, key: &BasicKey) -> (r: Option<u8>)
        ensures
            match basic_kbytes(*key) {
                Some((m, k)) => {
                    &&& r == Some(k)
                    &&& final(self).holding() == with_key(old(self).holding(), m, k)
                    &&& final(self).queue() == old(self).queue().push(final(self).holding())
                },
                None => r is None && final(self).holding() == old(self).holding()
                    && final(self).queue() == old(self).queue(),
            },
            final(self).leds() == old(self).leds(),
    {
        let kbytes = match key {
            BasicKey::Char(c, key_origin) => match c.to_kbytes(key_origin) {
                Some(kbytes) => kbytes,
                None => return None,
            },
            BasicKey::Special(special) => [0, special.to_kbyte()],
        };
        self.holding.add_key(&kbytes);
        self.push_release_packet();
        Some(kbytes[1])
    }

    /// Release Key; a key without key bytes changes nothing.
    pub fn release_key(&mut self, key: &BasicKey)
        ensures
            match basic_kbytes(*key) {
                Some((m, k)) => {
                    &&& final(self).holding() == without_key(old(self).holding(), m, k)
                    &&& final(self).queue() == old(self).queue().push(final(self).holding())
                },
                None => final(self).holding() == old(self).holding() && final(self).queue()
                    == old(self).queue(),
            },
            final(self).leds() == old(self).leds(),
    {
        let kbytes = match key {
            BasicKey::Char(c, key_origin) => match c.to_kbytes(key_origin) {
                Some(kbytes) => kbytes,
                None => return ,
            },
            BasicKey::Special(special) => [0, special.to_kbyte()],
        };
        self.holding.remove_key(&kbytes);
        self.push_release_packet();
    }

    /// Hold all keys in string (characters without a key are skipped)
    pub fn hold_string(&mut self, str: &str)
        ensures
            final(self).holding() == held_chars(old(self).holding(), str@),
            final(self).queue() == old(self).queue().push(final(self).holding()),
            final(self).leds() == old(self).leds(),
    {
        let n = str.unicode_len();
        let mut i: usize = 0;
        while i < n
            invariant
                n == str@.len(),
                i <= n,
                self.holding() == held_chars(old(self).holding(), str@.subrange(0, i as int)),
                self.queue() == old(self).queue(),
                self.leds() == old(self).leds(),
            decreases n - i,
        {
            let c = str.get_char(i);
            assert(str@.subrange(0, i + 1).drop_last() =~= str@.subrange(0, i as int));
            if let Some(kbytes) = c.to_kbytes(&KeyOrigin::Keyboard) {
                self.holding.add_key(&kbytes);
            }
            i = i + 1;
        }
        assert(str@.subrange(0, n as int) =~= str@);
        self.push_release_packet();
    }

    /// Release all keys in string (characters without a key are skipped)
    pub fn release_string(&mut self, str: &str)
        ensures
            final(self).holding() == released_chars(old(self).holding(), str@),
            final(self).queue() == old(self).queue().push(final(self).holding()),
            final(self).leds() == old(self).leds(),
    {
        let n = str.unicode_len();
        let mut i: usize = 0;
        while i < n
            invariant
                n == str@.len(),
                i <= n,
                self.holding() == released_chars(old(self).holding(), str@.subrange(0, i as int)),
                self.queue() == old(self).queue(),
                self.leds() == old(self).leds(),
            decreases n - i,
        {
            let c = str.get_char(i);
            assert(str@.subrange(0, i + 1).drop_last() =~= str@.subrange(0, i as int));
            if let Some(kbytes) = c.to_kbytes(&KeyOrigin::Keyboard) {
                self.holding.remove_key(&kbytes);
            }
            i = i + 1;
        }
        assert(str@.subrange(0, n as int) =~= str@);
        self.push_release_packet();
    }

    /// Hold key with keycode
    pub fn hold_keycode(&mut self, key: u8)
        ensures
            final(self).holding() == with_key(old(self).holding(), 0, key),
            final(self).queue() == old(self).queue().push(final(self).holding()),
            final(self).leds() == old(self).leds(),
    {
        self.holding.add_key(&[0, key]);
        self.push_release_packet();
    }

    /// Release key with keycode
    pub fn release_keycode(&mut self, key: u8)
        ensures
            final(self).holding() == without_key(old(self).holding(), 0, key),
            final(self).queue() == old(self).queue().push(final(self).holding()),
            final(self).leds() == old(self).leds(),
    {
        self.holding.remove_key(&[0, key]);
        self.push_release_packet();
    }

    /// Hold modifier key
    pub fn hold_mod(&mut self, modifier: &Modifier)
        ensures
            final(self).holding() == with_modifiers(old(self).holding(), modifier.spec_mkbyte()),
            final(self).queue() == old(self).queue().push(final(self).holding()),
            final(self).leds() == old(self).leds(),
    {
        self.holding.push_modifier(modifier);
        self.push_release_packet();
    }

    /// Release modifier key
    pub fn release_mod(&mut self, modifier: &Modifier)
        ensures
            final(self).holding() == without_modifiers(old(self).holding(), modifier.spec_mkbyte()),
            final(self).queue() == old(self).queue().push(final(self).holding()),
            final(self).leds() == old(self).leds(),
    {
        self.holding.remove_mod(modifier);
        self.push_release_packet();
    }

    fn add_held_keys(&self, packet: &mut KeyPacket)
        ensures
            final(packet)@ == merged(old(packet)@, self.holding()),
    {
        let mut i: usize = 0;
        while i < KEY_PACKET_LEN
            invariant
                i <= KEY_PACKET_LEN,
                forall|j: int| 0 <= j < i ==> packet@[j] == old(packet)@[j] | self.holding()[j],
                forall|j: int| i <= j < KEY_PACKET_LEN ==> packet@[j] == old(packet)@[j],
            decreases KEY_PACKET_LEN - i,
        {
            let ghost before = packet@;
            packet.data[i] = packet.data[i] | self.holding.data[i];
            assert(packet@ == before.update(i as int, before[i as int] | self.holding()[i as int]));
            i = i + 1;
        }
        assert(packet@ =~= merged(old(packet)@, self.holding()));
    }

    fn create_release_packet(&self) -> (r: KeyPacket)
        ensures
            r@ == self.holding(),
    {
        self.holding.clone()
    }

    /// Press the keystroke that types `c` on the keyboard layout named `layout_key`.
    /// `None`, with nothing changed, when the layout is unknown or cannot type `c`.
    pub fn press(&mut self, layout_key: &str, c: char) -> (r: Option<()>)
        ensures
            r is Some <==> layout_strokes(layout_key@, seq![c]) is Some,
            final(self).queue() == press_on_layout(
                old(self).queue(),
                old(self).holding(),
                layout_key@,
                c,
            ),
            final(self).holding() == old(self).holding(),
            final(self).leds() == old(self).leds(),
    {
        match strokes_for_char(layout_key, c) {
            Ok(strokes) => {
                self.press_strokes(&strokes);
                Some(())
            },
            Err(_) => None,
        }
    }

    /// Press the strokes of a layout lookup: each lone stroke, and each combination
    /// of strokes that share a modifier, becomes one report merged with the hold
    /// state, collision-checked, and followed by the bare hold state.
    pub fn press_strokes(&mut self, strokes: &Vec<KeyStroke>)
        ensures
            final(self).queue() == play_strokes(old(self).queue(), old(self).holding(), strokes@).0,
            final(self).holding() == old(self).holding(),
            final(self).leds() == old(self).leds(),
    {
        let mut combo: Option<KeyPacket> = None;
        let mut i: usize = 0;
        while i < strokes.len()
            invariant
                i <= strokes@.len(),
                self.holding() == old(self).holding(),
                self.leds() == old(self).leds(),
                self.queue() == play_strokes(
                    old(self).queue(),
                    old(self).holding(),
                    strokes@.subrange(0, i as int),
                ).0,
                match combo {
                    Some(p) => play_strokes(
                        old(self).queue(),
                        old(self).holding(),
                        strokes@.subrange(0, i as int),
                    ).1 == Some(p@),
                    None => play_strokes(
                        old(self).queue(),
                        old(self).holding(),
                        strokes@.subrange(0, i as int),
                    ).1 is None,
                },
            decreases strokes@.len() - i,
        {
            let stroke = strokes[i];
            assert(strokes@.subrange(0, i + 1).drop_last() =~= strokes@.subrange(0, i as int));
            match stroke.release {
                StrokeRelease::Keys => {
                    let mut packet = match combo {
                        Some(p) => p,
                        None => KeyPacket::from_mod_keycode(stroke.modifier),
                    };
                    packet.push_modifier_key_keycode(stroke.modifier, stroke.key);
                    combo = Some(packet);
                },
                StrokeRelease::Nothing => {
                    if let Some(p) = combo {
                        self.stroke(p);
                    }
                    combo = None;
                },
                StrokeRelease::All => {
                    let packet = KeyPacket::from_keycodes(stroke.modifier, stroke.key);
                    self.stroke(packet);
                },
            }
            i = i + 1;
        }
        assert(strokes@.subrange(0, i as int) =~= strokes@);
    }

    fn stroke(&mut self, packet: KeyPacket)
        ensures
            final(self).queue() == stroked(old(self).queue(), old(self).holding(), packet@),
            final(self).holding() == old(self).holding(),
            final(self).leds() == old(self).leds(),
    {
        self.press_packet(packet);
        self.push_release_packet();
    }

    /// Send keystroke in packet: the packet merged with the hold state, queued after
    /// a bare hold-state report when the last queued report shares a keycode with the
    /// packet itself.
    pub fn press_packet(&mut self, packet: KeyPacket)
        ensures
            final(self).queue() == pressed(
                old(self).queue(),
                old(self).holding(),
                packet@,
                merged(packet@, old(self).holding()),
            ),
            final(self).holding() == old(self).holding(),
            final(self).leds() == old(self).leds(),
    {
        self.add_buffer(&packet);
        let mut packet = packet;
        self.add_held_keys(&mut packet);
        self.push_packet(packet);
    }

    /// Send modifier keystroke
    pub fn press_modifier(&mut self, modifier: &Modifier)
        ensures
            final(self).queue() == old(self).queue().push(
                with_modifiers(old(self).holding(), modifier.spec_mkbyte()),
            ).push(old(self).holding()),
            final(self).holding() == old(self).holding(),
            final(self).leds() == old(self).leds(),
    {
        let mut packet = self.create_release_packet();
        packet.push_modifier(modifier);
        self.push_packet(packet);
        self.push_release_packet();
    }

    /// Send shortcut keystroke: the bare hold state, the hold state with every
    /// modifier and the key, then the bare hold state again.
    pub fn press_shortcut(&mut self, modifiers: &[Modifier], key: &BasicKey) -> (r: Option<()>)
        ensures
            r == Some(()),
            final(self).queue() == old(self).queue().push(old(self).holding()).push(
                with_basic_key(
                    with_modifiers(old(self).holding(), modifiers_byte(modifiers@)),
                    *key,
                ),
            ).push(old(self).holding()),
            final(self).holding() == old(self).holding(),
            final(self).leds() == old(self).leds(),
    {
        let mut packet = self.create_release_packet();
        packet.data[KEY_PACKET_MOD_IDX] = packet.data[KEY_PACKET_MOD_IDX] | Modifier::all_to_byte(
            modifiers,
        );
        assert(packet@ =~= with_modifiers(self.holding(), modifiers_byte(modifiers@)));
        packet.push_key(key);
        self.push_release_packet();
        self.push_packet(packet);
        self.push_release_packet();
        Some(())
    }

    fn press_kbytes(&mut self, kbytes: &[u8; 2])
        ensures
            final(self).queue() == pressed_key(
                old(self).queue(),
                old(self).holding(),
                kbytes[0],
                kbytes[1],
            ),
            final(self).holding() == old(self).holding(),
            final(self).leds() == old(self).leds(),
    {
        let keys = KeyPacket::from_keycodes(kbytes[0], kbytes[1]);
        self.add_buffer(&keys);
        let mut packet = self.create_release_packet();
        packet.add_key(kbytes);
        self.push_packet(packet);
    }

    fn press_special(&mut self, special: &SpecialKey)
        ensures
            final(self).queue() == pressed_key(
                old(self).queue(),
                old(self).holding(),
                0,
                special.spec_kbyte(),
            ),
            final(self).holding() == old(self).holding(),
            final(self).leds() == old(self).leds(),
    {
        self.press_kbytes(&[0x00, special.to_kbyte()]);
    }

    fn press_char(&mut self, c: &char, key_origin: &KeyOrigin) -> (r: Option<()>)
        ensures
            match char_kbytes(*c, *key_origin) {
                Some((m, k)) => r is Some && final(self).queue() == pressed_key(
                    old(self).queue(),
                    old(self).holding(),
                    m,
                    k,
                ),
                None => r is None && final(self).queue() == old(self).queue(),
            },
            final(self).holding() == old(self).holding(),
            final(self).leds() == old(self).leds(),
    {
        let kbytes = c.to_kbytes(key_origin)?;
        self.press_kbytes(&kbytes);
        Some(())
    }

    /// Send keystroke: the hold state plus the key, queued after a bare hold-state
    /// report when the last queued report already has the key's bit. `None`, with
    /// nothing changed, when the key has no key bytes.
    pub fn press_key(&mut self, key: &BasicKey) -> (r: Option<()>)
        ensures
            match basic_kbytes(*key) {
                Some((m, k)) => r is Some && final(self).queue() == pressed_key(
                    old(self).queue(),
                    old(self).holding(),
                    m,
                    k,
                ),
                None => r is None && final(self).queue() == old(self).queue(),
            },
            final(self).holding() == old(self).holding(),
            final(self).leds() == old(self).leds(),
    {
        match key {
            BasicKey::Char(c, key_origin) => self.press_char(c, key_origin)?,
            BasicKey::Special(special) => self.press_special(special),
        }
        Some(())
    }

    /// Send keystroke of keycode: the hold state plus the key, queued after a bare
    /// hold-state report when the last queued report already has the key's bit.
    pub fn press_keycode(&mut self, key: u8)
        ensures
            final(self).queue() == pressed_key(old(self).queue(), old(self).holding(), 0, key),
            final(self).holding() == old(self).holding(),
            final(self).leds() == old(self).leds(),
    {
        self.press_kbytes(&[0x00, key]);
    }

    /// Send keystrokes of keys in string: each character with a key is pressed on top
    /// of the hold state (after a bare hold-state report when the last queued report
    /// already has its bit), then the bare hold state follows; the others are skipped.
    pub fn press_basic_string(&mut self, str: &str)
        ensures
            final(self).queue() == typed_basic(old(self).queue(), old(self).holding(), str@),
            final(self).holding() == old(self).holding(),
            final(self).leds() == old(self).leds(),
    {
        let n = str.unicode_len();
        let mut i: usize = 0;
        while i < n
            invariant
                n == str@.len(),
                i <= n,
                self.holding() == old(self).holding(),
                self.leds() == old(self).leds(),
                self.queue() == typed_basic(
                    old(self).queue(),
                    old(self).holding(),
                    str@.subrange(0, i as int),
                ),
            decreases n - i,
        {
            let c = str.get_char(i);
            assert(str@.subrange(0, i + 1).drop_last() =~= str@.subrange(0, i as int));
            if let Some(kbytes) = c.to_kbytes(&KeyOrigin::Keyboard) {
                let keys = KeyPacket::from_keycodes(kbytes[0], kbytes[1]);
                self.add_buffer(&keys);
                let mut packet = self.create_release_packet();
                packet.add_key(&kbytes);
                let needs_space = packet.get_key(&kbytes);
                proof {
                    lemma_key_bits(self.holding(), kbytes[0], kbytes[1]);
                }
                self.push_packet(packet);
                if needs_space {
                    self.push_release_packet();
                }
            }
            i = i + 1;
        }
        assert(str@.subrange(0, n as int) =~= str@);
    }

    /// Send keystrokes of keys in string with layout support; characters that the
    /// layout cannot type are skipped.
    pub fn press_string(&mut self, layout_key: &str, str: &str)
        ensures
            final(self).queue() == press_text_on_layout(
                old(self).queue(),
                old(self).holding(),
                layout_key@,
                str@,
            ),
            final(self).holding() == old(self).holding(),
            final(self).leds() == old(self).leds(),
    {
        let n = str.unicode_len();
        let mut i: usize = 0;
        while i < n
            invariant
                n == str@.len(),
                i <= n,
                self.holding() == old(self).holding(),
                self.leds() == old(self).leds(),
                self.queue() == press_text_on_layout(
                    old(self).queue(),
                    old(self).holding(),
                    layout_key@,
                    str@.subrange(0, i as int),
                ),
            decreases n - i,
        {
            let c = str.get_char(i);
            assert(str@.subrange(0, i + 1).drop_last() =~= str@.subrange(0, i as int));
            self.press(layout_key, c);
            i = i + 1;
        }
        assert(str@.subrange(0, n as int) =~= str@);
    }

    /// First half of a flush: queue the bare hold state, so that the device ends in
    /// the hold state, and return every queued report in order, to be written to the
    /// keyboard endpoint.
    pub fn prepare_send(&mut self) -> (r: Vec<KeyPacket>)
        ensures
            final(self).queue() == flush_reports(old(self).queue(), old(self).holding()),
            report_views(r@) == final(self).queue(),
            final(self).holding() == old(self).holding(),
            final(self).leds() == old(self).leds(),
    {
        self.push_release_packet();
        let mut out: Vec<KeyPacket> = Vec::new();
        let mut i: usize = 0;
        while i < self.packets.len()
            invariant
                i <= self.packets@.len(),
                report_views(out@) == self.queue().subrange(0, i as int),
            decreases self.packets@.len() - i,
        {
            let ghost prev = out@;
            assert(report_views(prev).len() == i);
            let packet = self.packets[i].clone();
            assert(packet@ == self.queue()[i as int]);
            out.push(packet);
            assert(out@ == prev.push(packet));
            assert forall|j: int| 0 <= j < i + 1 implies #[trigger] report_views(out@)[j]
                == self.queue().subrange(0, i + 1)[j] by {
                if j < i {
                    assert(report_views(prev)[j] == self.queue().subrange(0, i as int)[j]);
                }
            }
            assert(report_views(out@) =~= self.queue().subrange(0, i + 1));
            i = i + 1;
        }
        assert(self.queue().subrange(0, i as int) =~= self.queue());
        out
    }

    /// Second half of a flush, once every report was written: the queue is emptied;
    /// the hold state stays.
    pub fn finish_send(&mut self)
        ensures
            final(self).queue() == Seq::<Seq<u8>>::empty(),
            final(self).holding() == old(self).holding(),
            final(self).leds() == old(self).leds(),
    {
        self.packets.clear();
        assert(self.queue() =~= Seq::<Seq<u8>>::empty());
    }

    /// The reports that a flush which keeps the queue writes: every queued report and
    /// then the bare hold state. Neither the queue nor the hold state changes.
    pub fn keep_reports(&self) -> (r: Vec<KeyPacket>)
        ensures
            report_views(r@) == flush_reports(self.queue(), self.holding()),
    {
        let mut out: Vec<KeyPacket> = Vec::new();
        let mut i: usize = 0;
        while i < self.packets.len()
            invariant
                i <= self.packets@.len(),
                report_views(out@) == self.queue().subrange(0, i as int),
            decreases self.packets@.len() - i,
        {
            let ghost prev = out@;
            assert(report_views(prev).len() == i);
            let packet = self.packets[i].clone();
            assert(packet@ == self.queue()[i as int]);
            out.push(packet);
            assert(out@ == prev.push(packet));
            assert forall|j: int| 0 <= j < i + 1 implies #[trigger] report_views(out@)[j]
                == self.queue().subrange(0, i + 1)[j] by {
                if j < i {
                    assert(report_views(prev)[j] == self.queue().subrange(0, i as int)[j]);
                }
            }
            assert(report_views(out@) =~= self.queue().subrange(0, i + 1));
            i = i + 1;
        }
        assert(self.queue().subrange(0, i as int) =~= self.queue());
        let ghost prev = out@;
        out.push(self.create_release_packet());
        assert forall|j: int| 0 <= j < out@.len() implies #[trigger] report_views(out@)[j]
            == flush_reports(self.queue(), self.holding())[j] by {
            if j < i {
                assert(report_views(prev)[j] == self.queue()[j]);
            }
        }
        assert(report_views(out@) =~= flush_reports(self.queue(), self.holding()));
        out
    }
}

} // verus!
