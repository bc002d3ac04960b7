use vstd::arithmetic::div_mod::{
    lemma_add_mod_noop, lemma_fundamental_div_mod, lemma_mod_add_multiples_vanish,
    lemma_mod_bound, lemma_mod_equivalence, lemma_mod_multiples_vanish, lemma_small_mod,
};
use vstd::prelude::*;

verus! {

/// The magic number that will not change. It is always `0xAD01` and marks the
/// start of a packet that belongs to this protocol.
pub const MAGIC_NUMBER: u16 = 0xAD01;

/// Current version of the packet layout. Incremented whenever the header or
/// the meaning of the payload-type registry changes incompatibly.
pub const VERSION: u8 = 0;

/// Size of the trailing checksum in bytes (a `u16`). It is also counted in
/// the `length` field of the packet, so it must stay consistent.
pub const CHECKSUM_SIZE: usize = 2;

/// The closed registry of payload types. Each member is bound to a fixed
/// 8-bit wire value; the values are part of the wire contract and are never
/// renumbered without a version bump.
#[derive(Debug, Clone, Copy, PartialEq, Eq, Structural)]
pub enum PacketType {
    /// The `NoneType` payload type (wire value `0xFF`) carries no meaning of
    /// its own and is mostly used for testing.
    NoneType,
}

/// The wire value of a payload type.
pub open spec fn spec_to_wire(t: PacketType) -> u8 {
    match t {
        PacketType::NoneType => 0xFF,
    }
}

/// The payload type registered for a wire value, if any.
pub open spec fn spec_from_wire(v: u8) -> Option<PacketType> {
    if v == 0xFF {
        Some(PacketType::NoneType)
    } else {
        None
    }
}

/// Looking a payload type's wire value back up yields the same payload type.
pub proof fn lemma_registry_round_trip(t: PacketType)
    ensures
        spec_from_wire(spec_to_wire(t)) == Some(t),
{
}

impl PacketType {
    /// The fixed 8-bit wire value of this payload type; total over the
    /// registry.
    pub fn to_wire_value(self) -> (v: u8)
        ensures
            v == spec_to_wire(self),
    {
        match self {
            PacketType::NoneType => 0xFF,
        }
    }

    /// The payload type registered for a wire value. Unknown values are
    /// rejected explicitly so that they are never misread as another type.
    pub fn from_wire_value(v: u8) -> (r: Result<PacketType, PacketError>)
        ensures
            match r {
                Ok(t) => spec_from_wire(v) == Some(t),
                Err(e) => spec_from_wire(v) is None && e == PacketError::InvalidPayloadType(v),
            },
    {
        if v == 0xFF {
            Ok(PacketType::NoneType)
        } else {
            Err(PacketError::InvalidPayloadType(v))
        }
    }
}

/// Everything that can go wrong while decoding a wire buffer. Every failure
/// is reported to the caller as a value; decoding never panics.
#[derive(Debug, Clone, Copy, PartialEq, Eq, Structural)]
pub enum PacketError {
    /// The buffer does not start with `MAGIC_NUMBER`: it is not a buffer of
    /// this protocol at all.
    NotThisProtocol,
    /// The buffer has fewer than the minimum 8 bytes (6-byte header plus
    /// 2-byte checksum); carries the actual length.
    TooShort(usize),
    /// The version byte differs from `VERSION`; prevents misreading an older
    /// or newer layout. Carries the version found.
    UnsupportedVersion(u8),
    /// The payload-type byte is not in the registry. Carries the value found.
    InvalidPayloadType(u8),
    /// The declared length disagrees with the buffer's actual size. Carries
    /// the expected and the actual total size.
    LengthMismatch(usize, usize),
    /// The recomputed checksum differs from the transmitted one. Carries the
    /// received and the computed value.
    ChecksumMismatch(u16, u16),
}

/// The 16-bit big-endian value of two bytes.
pub open spec fn be16(hi: u8, lo: u8) -> int {
    hi * 0x100 + lo
}

/// The 16-bit word starting at index `i`: two consecutive bytes big-endian,
/// or, for a final lone byte, that byte as the high half of a word whose low
/// half is zero.
pub open spec fn word_at(s: Seq<u8>, i: int) -> int
    recommends
        0 <= i < s.len(),
{
    if i + 1 < s.len() {
        s[i] * 0x100 + s[i + 1]
    } else {
        s[i] * 0x100
    }
}

/// The words of `s` from even index `i` on, accumulated into a running
/// 32-bit sum exactly as the checksum engine does: each addition is taken
/// modulo 2^32, so carries beyond 32 bits wrap.
pub open spec fn sum_words(s: Seq<u8>, i: int) -> int
    decreases s.len() - i + 1,
{
    if i < 0 || i >= s.len() {
        0
    } else {
        (word_at(s, i) + sum_words(s, i + 2)) % 0x1_0000_0000
    }
}

/// The same words summed without any wrapping; equal to `sum_words` whenever
/// the buffer is short enough that no wrap can occur.
pub open spec fn sum_words_pure(s: Seq<u8>, i: int) -> int
    decreases s.len() - i + 1,
{
    if i < 0 || i >= s.len() {
        0
    } else {
        word_at(s, i) + sum_words_pure(s, i + 2)
    }
}

/// End-around carry folding: add the high 16 bits into the low 16 bits until
/// the value fits in 16 bits.
pub open spec fn fold16(x: int) -> int
    recommends
        0 <= x,
    decreases x,
    when x >= 0
{
    if x < 0x1_0000 {
        x
    } else {
        fold16(x % 0x1_0000 + x / 0x1_0000)
    }
}

/// The 16-bit ones'-complement checksum of a byte sequence: sum the 16-bit
/// big-endian words into a wrapping 32-bit accumulator, fold the carries in,
/// and complement the result.
pub open spec fn spec_checksum(s: Seq<u8>) -> u16 {
    !(fold16(sum_words(s, 0)) as u16)
}

/// How much one unit of the byte at index `j` contributes to the word sum:
/// bytes at even offsets are high halves of their word, bytes at odd offsets
/// low halves.
pub open spec fn byte_scale(j: int) -> int {
    if j % 2 == 0 {
        0x100
    } else {
        1
    }
}

/// Folding keeps a value inside 16 bits, preserves its residue modulo
/// `0xFFFF`, and never turns a positive sum into zero.
pub proof fn lemma_fold16_props(x: int)
    requires
        0 <= x,
    ensures
        0 <= fold16(x) < 0x1_0000,
        fold16(x) % 0xFFFF == x % 0xFFFF,
        x > 0 ==> fold16(x) > 0,
    decreases x,
{
    if x >= 0x1_0000 {
        let q = x / 0x1_0000;
        let r = x % 0x1_0000;
        lemma_fundamental_div_mod(x, 0x1_0000);
        lemma_mod_bound(x, 0x1_0000);
        assert(q >= 1);
        assert(r + q < x);
        lemma_fold16_props(r + q);
        lemma_mod_multiples_vanish(q, r + q, 0xFFFF);
        assert(0xFFFF * q + (r + q) == x);
    }
}

/// The unwrapped word sum from even index `i` is non-negative and at most
/// `0xFFFF` per remaining word.
pub proof fn lemma_sum_words_pure_bounds(s: Seq<u8>, i: int)
    requires
        0 <= i <= s.len() + 1,
    ensures
        0 <= sum_words_pure(s, i) <= 0xFFFF * ((s.len() - i + 1) / 2),
    decreases s.len() - i + 1,
{
    if i < s.len() {
        lemma_sum_words_pure_bounds(s, i + 2);
        assert((s.len() - i + 1) / 2 == (s.len() - (i + 2) + 1) / 2 + 1);
    }
}

/// For buffers short enough that the 32-bit accumulator cannot wrap, the
/// wrapping word sum equals the unwrapped one.
pub proof fn lemma_sum_words_eq_pure(s: Seq<u8>, i: int)
    requires
        s.len() <= 0x1_0005,
        0 <= i <= s.len() + 1,
    ensures
        sum_words(s, i) == sum_words_pure(s, i),
    decreases s.len() - i + 1,
{
    if i < s.len() {
        lemma_sum_words_eq_pure(s, i + 2);
        lemma_sum_words_pure_bounds(s, i + 2);
        lemma_sum_words_pure_bounds(s, i);
        lemma_small_mod((word_at(s, i) + sum_words_pure(s, i + 2)) as nat, 0x1_0000_0000);
    }
}

/// Updating a byte below index `i` leaves the word sum from `i` on unchanged.
proof fn lemma_sum_words_pure_unchanged(s: Seq<u8>, j: int, b: u8, i: int)
    requires
        0 <= j < s.len(),
        j < i,
    ensures
        sum_words_pure(s.update(j, b), i) == sum_words_pure(s, i),
    decreases s.len() - i + 1,
{
    assert(s.update(j, b).len() == s.len());
    if i < s.len() {
        lemma_sum_words_pure_unchanged(s, j, b, i + 2);
        assert(word_at(s.update(j, b), i) == word_at(s, i));
    }
}

/// Replacing the byte at index `j` shifts the word sum by the byte
/// difference times the byte's scale within its word.
pub proof fn lemma_sum_words_pure_update(s: Seq<u8>, j: int, b: u8, i: int)
    requires
        0 <= i <= j < s.len(),
        i % 2 == 0,
    ensures
        sum_words_pure(s.update(j, b), i) == sum_words_pure(s, i) + (b - s[j]) * byte_scale(j),
    decreases j - i,
{
    let s2 = s.update(j, b);
    if i + 2 <= j - (j % 2) {
        lemma_sum_words_pure_update(s, j, b, i + 2);
        assert(word_at(s2, i) == word_at(s, i));
    } else {
        assert(i == j - j % 2);
        lemma_sum_words_pure_unchanged(s, j, b, i + 2);
        if j % 2 == 0 {
            assert(word_at(s2, i) == word_at(s, i) + (b - s[j]) * 0x100);
        } else {
            assert(word_at(s2, i) == word_at(s, i) + (b - s[j]) * 1);
        }
    }
}

/// Changing any single byte of a buffer that is at most `0x1_0005` bytes
/// long changes its checksum: the word sum moves by less than `0xFFFF`, so
/// its residue — and with it the folded, complemented value — moves too.
pub proof fn lemma_checksum_byte_change(s: Seq<u8>, j: int, b: u8)
    requires
        s.len() <= 0x1_0005,
        0 <= j < s.len(),
        b != s[j],
    ensures
        spec_checksum(s.update(j, b)) != spec_checksum(s),
{
    let s2 = s.update(j, b);
    let d = (b - s[j]) * byte_scale(j);
    lemma_sum_words_eq_pure(s, 0);
    lemma_sum_words_eq_pure(s2, 0);
    lemma_sum_words_pure_update(s, j, b, 0);
    lemma_sum_words_pure_bounds(s, 0);
    lemma_sum_words_pure_bounds(s2, 0);
    let x = sum_words_pure(s, 0);
    let y = sum_words_pure(s2, 0);
    assert(y == x + d);
    assert(d != 0 && -0xFF00 <= d <= 0xFF00);
    lemma_fold16_props(x);
    lemma_fold16_props(y);
    if fold16(x) == fold16(y) {
        lemma_mod_equivalence(y, x, 0xFFFF);
        assert(d % 0xFFFF == 0);
        if d > 0 {
            lemma_small_mod(d as nat, 0xFFFF);
        } else {
            lemma_mod_add_multiples_vanish(d, 0xFFFF);
            lemma_small_mod((0xFFFF + d) as nat, 0xFFFF);
        }
        assert(false);
    }
    assert(fold16(x) as u16 != fold16(y) as u16);
    assert(forall|a: u16, c: u16| a != c ==> !a != !c) by (bit_vector);
}

impl Packet {
    /// Computes the 16-bit ones'-complement checksum of `data`, exactly as
    /// `spec_checksum` describes it.
    pub fn calculate_checksum(data: &[u8]) -> (checksum: u16)
        ensures
            checksum == spec_checksum(data@),
    {
        let ghost total: int = sum_words(data@, 0);
        let mut checksum: u32 = 0;
        let mut i: usize = 0;
        while i < data.len()
            invariant
                i <= data.len(),
                i % 2 == 0 || i == data@.len(),
                (checksum + sum_words(data@, i as int)) % 0x1_0000_0000 == total,
            decreases data.len() - i,
        {
            let pair = i + 1 < data.len();
            let word: u32 = if pair {
                (data[i] as u32) * 0x100 + (data[i + 1] as u32)
            } else {
                (data[i] as u32) * 0x100
            };
            proof {
                let r = sum_words(data@, i + 2);
                lemma_add_mod_noop(checksum as int, word_at(data@, i as int) + r, 0x1_0000_0000);
                lemma_add_mod_noop(checksum + word_at(data@, i as int), r, 0x1_0000_0000);
                lemma_mod_bound(r, 0x1_0000_0000);
                lemma_small_mod(r as nat, 0x1_0000_0000);
                lemma_small_mod(checksum as nat, 0x1_0000_0000);
                if i + 2 > data@.len() {
                    assert(sum_words(data@, i + 2) == 0);
                    assert(sum_words(data@, data@.len() as int) == 0);
                }
            }
            checksum = (((checksum as u64) + (word as u64)) % 0x1_0000_0000) as u32;
            if pair {
                i = i + 2;
            } else {
                i = data.len();
            }
        }
        proof {
            lemma_mod_bound(total, 0x1_0000_0000);
            lemma_small_mod(checksum as nat, 0x1_0000_0000);
        }
        while checksum >= 0x1_0000
            invariant
                fold16(checksum as int) == fold16(total),
            decreases checksum,
        {
            checksum = checksum % 0x1_0000 + checksum / 0x1_0000;
        }
        !(checksum as u16)
    }
}

/// A packet: one complete framed message of this protocol, either built for
/// encoding or recovered from a validated wire buffer. A value object: no
/// mutation after construction.
#[derive(Debug)]
pub struct Packet {
    /// Determines how a consumer is to interpret the payload; written to the
    /// wire as its registered 8-bit value.
    p_type: PacketType,
    /// The payload bytes, owned by the packet and independent of any buffer
    /// the packet was decoded from.
    data: Vec<u8>,
}

impl View for Packet {
    type V = (PacketType, Seq<u8>);

    closed spec fn view(&self) -> (PacketType, Seq<u8>) {
        (self.p_type, self.data@)
    }
}

/// The 6-byte header for payload type `t` and a payload of `n` bytes:
/// magic number, version, wire value of the type, and the length field
/// `n + 2`, all multi-byte values big-endian.
pub open spec fn spec_header_bytes(t: PacketType, n: int) -> Seq<u8> {
    seq![
        ((MAGIC_NUMBER / 0x100) as u8),
        ((MAGIC_NUMBER % 0x100) as u8),
        VERSION,
        spec_to_wire(t),
        (((n + 2) / 0x100) as u8),
        (((n + 2) % 0x100) as u8),
    ]
}

/// The candidate buffer the checksum is computed over: header, payload, and
/// a zeroed checksum slot.
pub open spec fn spec_candidate(t: PacketType, payload: Seq<u8>) -> Seq<u8> {
    spec_header_bytes(t, payload.len() as int) + payload + seq![0u8, 0u8]
}

/// The wire bytes that encoding payload type `t` with `payload` produces:
/// the candidate buffer with the checksum of the candidate written, big-
/// endian, into its last two bytes.
pub open spec fn spec_encode(t: PacketType, payload: Seq<u8>) -> Seq<u8> {
    let c = spec_checksum(spec_candidate(t, payload));
    spec_header_bytes(t, payload.len() as int) + payload + seq![
        ((c / 0x100) as u8),
        ((c % 0x100) as u8),
    ]
}

/// `s` with its last two bytes — the checksum slot — zeroed.
pub open spec fn spec_zeroed(s: Seq<u8>) -> Seq<u8>
    recommends
        s.len() >= 2,
{
    s.update(s.len() - 2, 0u8).update(s.len() - 1, 0u8)
}

/// The decode pipeline as one total function: the stages run in order and
/// the first failing stage decides the error. A buffer decodes successfully
/// exactly when it is at least 8 bytes, starts with the magic number,
/// carries the supported version, a registered payload type, a length field
/// that matches the buffer size, and a checksum equal to the one recomputed
/// over the buffer with its checksum slot zeroed.
pub open spec fn spec_decode(s: Seq<u8>) -> Result<(PacketType, Seq<u8>), PacketError> {
    if s.len() < 8 {
        Err(PacketError::TooShort(s.len() as usize))
    } else if be16(s[0], s[1]) != MAGIC_NUMBER {
        Err(PacketError::NotThisProtocol)
    } else if s[2] != VERSION {
        Err(PacketError::UnsupportedVersion(s[2]))
    } else {
        match spec_from_wire(s[3]) {
            None => Err(PacketError::InvalidPayloadType(s[3])),
            Some(t) => {
                if 6 + be16(s[4], s[5]) != s.len() {
                    Err(
                        PacketError::LengthMismatch(
                            (6 + be16(s[4], s[5])) as usize,
                            s.len() as usize,
                        ),
                    )
                } else if spec_checksum(spec_zeroed(s)) != be16(
                    s[s.len() - 2],
                    s[s.len() - 1],
                ) {
                    Err(
                        PacketError::ChecksumMismatch(
                            be16(s[s.len() - 2], s[s.len() - 1]) as u16,
                            spec_checksum(spec_zeroed(s)),
                        ),
                    )
                } else {
                    Ok((t, s.subrange(6, s.len() - 2)))
                }
            },
        }
    }
}

impl Packet {
    /// The payload type this packet carries.
    pub fn get_p_type(&self) -> (t: PacketType)
        ensures
            t == self@.0,
    {
        self.p_type
    }

    /// The payload bytes this packet carries.
    pub fn get_data(&self) -> (d: &[u8])
        ensures
            d@ == self@.1,
    {
        self.data.as_slice()
    }

    /// Creates a packet directly from its fields; used by the decoder once
    /// a wire buffer has been validated.
    pub fn from_data(p_type: PacketType, data: Vec<u8>) -> (p: Self)
        ensures
            p@ == (p_type, data@),
    {
        Self { p_type, data }
    }

    /// Builds the wire bytes for `p_type` and `data`: header, payload, and
    /// the checksum of the candidate buffer, exactly as `spec_encode` lays
    /// them out. Total over its precondition — a payload must leave room
    /// for the checksum in the 16-bit length field.
    pub fn encode(p_type: PacketType, data: &[u8]) -> (packet: Vec<u8>)
        requires
            data@.len() + CHECKSUM_SIZE <= 0xFFFF,
        ensures
            packet@ == spec_encode(p_type, data@),
    {
        let mut packet: Vec<u8> = Vec::with_capacity(6 + data.len() + CHECKSUM_SIZE);

        // Magic number
        packet.push((MAGIC_NUMBER / 0x100) as u8);
        packet.push((MAGIC_NUMBER % 0x100) as u8);
        // Version
        packet.push(VERSION);
        // Packet type
        packet.push(p_type.to_wire_value());

        // Length
        let length: u16 = (data.len() + CHECKSUM_SIZE) as u16;
        packet.push((length / 0x100) as u8);
        packet.push((length % 0x100) as u8);

        assert(packet@ =~= spec_header_bytes(p_type, data@.len() as int) + data@.take(0));

        // Data
        let mut i: usize = 0;
        while i < data.len()
            invariant
                i <= data@.len(),
                packet@ == spec_header_bytes(p_type, data@.len() as int) + data@.take(i as int),
            decreases data@.len() - i,
        {
            packet.push(data[i]);
            assert(data@.take(i + 1) =~= data@.take(i as int).push(data@[i as int]));
            i = i + 1;
        }

        // Zero checksum slot
        packet.push(0);
        packet.push(0);
        assert(packet@ =~= spec_candidate(p_type, data@));

        let checksum = Self::calculate_checksum(packet.as_slice());

        // Checksum
        let total_len = packet.len();
        packet[total_len - 2] = (checksum / 0x100) as u8;
        packet[total_len - 1] = (checksum % 0x100) as u8;

        assert(packet@ =~= spec_encode(p_type, data@));
        packet
    }

    /// Parses and validates a wire buffer. Runs the decode stages in order
    /// — size, magic number, version, payload type, length, checksum — and
    /// returns the first failure as a distinguishable error; on success the
    /// packet holds the validated payload type and an owned copy of the
    /// payload bytes. Never panics.
    pub fn decode_packet(packet: &[u8]) -> (r: Result<Packet, PacketError>)
        ensures
            match r {
                Ok(p) => spec_decode(packet@) == Ok::<(PacketType, Seq<u8>), PacketError>(p@),
                Err(e) => spec_decode(packet@) == Err::<(PacketType, Seq<u8>), PacketError>(e),
            },
    {
        // A packet holds at least a header and a checksum
        if packet.len() < 8 {
            return Err(PacketError::TooShort(packet.len()));
        }
        // The buffer must belong to this protocol
        let magic_number: u16 = (packet[0] as u16) * 0x100 + (packet[1] as u16);
        if magic_number != MAGIC_NUMBER {
            return Err(PacketError::NotThisProtocol);
        }
        // The version must match
        let version = packet[2];
        if version != VERSION {
            return Err(PacketError::UnsupportedVersion(version));
        }
        // The payload type must be registered
        let p_type = match PacketType::from_wire_value(packet[3]) {
            Ok(t) => t,
            Err(e) => {
                return Err(e);
            },
        };
        // The length field counts payload plus checksum, so the whole
        // buffer is the 6-byte header plus the declared length
        let header_size: usize = 6;
        let length: u16 = (packet[4] as u16) * 0x100 + (packet[5] as u16);
        let total_len: usize = header_size + length as usize;
        if packet.len() != total_len {
            return Err(PacketError::LengthMismatch(total_len, packet.len()));
        }

        // Copy the payload: everything between header and checksum
        let mut data: Vec<u8> = Vec::new();
        let mut i: usize = header_size;
        while i < total_len - CHECKSUM_SIZE
            invariant
                packet@.len() == total_len,
                8 <= total_len <= 0x1_0005,
                header_size <= i <= total_len - CHECKSUM_SIZE,
                header_size == 6,
                data@ == packet@.subrange(6, i as int),
            decreases total_len - i,
        {
            data.push(packet[i]);
            assert(packet@.subrange(6, i + 1) =~= packet@.subrange(6, i as int).push(
                packet@[i as int],
            ));
            i = i + 1;
        }

        // Recompute the checksum over the buffer with a zeroed checksum slot
        let mut zeroed: Vec<u8> = Vec::new();
        let mut j: usize = 0;
        while j < total_len - CHECKSUM_SIZE
            invariant
                packet@.len() == total_len,
                8 <= total_len <= 0x1_0005,
                j <= total_len - CHECKSUM_SIZE,
                zeroed@ == packet@.take(j as int),
            decreases total_len - j,
        {
            zeroed.push(packet[j]);
            assert(packet@.take(j + 1) =~= packet@.take(j as int).push(packet@[j as int]));
            j = j + 1;
        }
        zeroed.push(0);
        zeroed.push(0);
        assert(zeroed@ =~= spec_zeroed(packet@));

        let computed = Self::calculate_checksum(zeroed.as_slice());
        let received: u16 = (packet[total_len - 2] as u16) * 0x100 + (packet[total_len - 1]
            as u16);
        if computed != received {
            return Err(PacketError::ChecksumMismatch(received, computed));
        }

        let p = Packet::from_data(p_type, data);
        Ok(p)
    }
}

/// Two big-endian byte pairs with the same 16-bit value are the same pair.
pub proof fn lemma_be16_injective(h1: u8, l1: u8, h2: u8, l2: u8)
    requires
        be16(h1, l1) == be16(h2, l2),
    ensures
        h1 == h2 && l1 == l2,
{
}

/// Round trip: encoding any registered payload type with any payload that
/// fits the length field yields a buffer that decodes back to exactly that
/// payload type and payload.
pub proof fn lemma_round_trip(t: PacketType, payload: Seq<u8>)
    requires
        payload.len() + 2 <= 0xFFFF,
    ensures
        spec_decode(spec_encode(t, payload)) == Ok::<(PacketType, Seq<u8>), PacketError>(
            (t, payload),
        ),
{
    let n = payload.len() as int;
    let e = spec_encode(t, payload);
    let cand = spec_candidate(t, payload);
    let c = spec_checksum(cand);
    let lf = n + 2;
    assert(e.len() == n + 8);
    assert(e[0] == 0xADu8 && e[1] == 0x01u8 && e[2] == 0x00u8 && e[3] == spec_to_wire(t));
    assert(be16(e[0], e[1]) == 0xAD01);
    lemma_registry_round_trip(t);
    assert(e[4] == ((lf / 0x100) as u8) && e[5] == ((lf % 0x100) as u8));
    lemma_fundamental_div_mod(lf, 0x100);
    lemma_mod_bound(lf, 0x100);
    assert(be16(e[4], e[5]) == lf);
    assert(6 + be16(e[4], e[5]) == e.len());
    assert(e[e.len() - 2] == ((c / 0x100) as u8) && e[e.len() - 1] == ((c % 0x100) as u8));
    lemma_fundamental_div_mod(c as int, 0x100);
    lemma_mod_bound(c as int, 0x100);
    assert(be16(e[e.len() - 2], e[e.len() - 1]) == c);
    assert(spec_zeroed(e) =~= cand);
    assert(e.subrange(6, e.len() - 2) =~= payload);
}

/// Checksum determinism: the checksum is a pure function of its bytes, so
/// any two results computed over equal inputs — as `calculate_checksum`'s
/// contract ties every result to `spec_checksum` — are equal.
pub proof fn lemma_checksum_deterministic(b1: Seq<u8>, b2: Seq<u8>, r1: u16, r2: u16)
    requires
        b1 == b2,
        r1 == spec_checksum(b1),
        r2 == spec_checksum(b2),
    ensures
        r1 == r2,
{
}

/// The buffer `s` with bit `k` of the byte at index `i` flipped.
pub open spec fn spec_flip_bit(s: Seq<u8>, i: int, k: int) -> Seq<u8>
    recommends
        0 <= i < s.len(),
        0 <= k < 8,
{
    s.update(i, s[i] ^ (1u8 << k as u8))
}

/// Flipping one bit of a byte changes the byte.
proof fn lemma_flip_changes_byte(b: u8, k: int)
    requires
        0 <= k < 8,
    ensures
        b ^ (1u8 << k as u8) != b,
{
    let kk = k as u8;
    assert(kk < 8 ==> b ^ (1u8 << kk) != b) by (bit_vector);
}

/// Corruption detection: flipping any single bit at offset 4 or beyond —
/// the length field, the payload, or the stored checksum — of a buffer that
/// decodes successfully makes decoding fail with `LengthMismatch` or
/// `ChecksumMismatch`; it never silently succeeds with altered bytes.
pub proof fn lemma_corruption_detected(s: Seq<u8>, i: int, k: int)
    requires
        spec_decode(s) is Ok,
        4 <= i < s.len(),
        0 <= k < 8,
    ensures
        ({
            let r = spec_decode(spec_flip_bit(s, i, k));
            r matches Err(PacketError::LengthMismatch(_, _)) || r matches Err(
                PacketError::ChecksumMismatch(_, _),
            )
        }),
{
    let b2 = s[i] ^ (1u8 << k as u8);
    lemma_flip_changes_byte(s[i], k);
    let s2 = spec_flip_bit(s, i, k);
    let n = s.len() as int;
    assert(s2.len() == n);
    assert(6 + be16(s[4], s[5]) == n);
    assert(n <= 0x1_0005);
    if i <= 5 {
        // The length field changed, so the declared and the actual size
        // disagree now
        assert(be16(s2[4], s2[5]) != be16(s[4], s[5]));
        assert(spec_decode(s2) matches Err(PacketError::LengthMismatch(_, _)));
    } else if i < n - 2 {
        // A payload byte changed: the recomputed checksum moves, the stored
        // one does not
        assert(spec_zeroed(s2) =~= spec_zeroed(s).update(i, b2));
        assert(spec_zeroed(s)[i] == s[i]);
        lemma_checksum_byte_change(spec_zeroed(s), i, b2);
        assert(be16(s2[n - 2], s2[n - 1]) == be16(s[n - 2], s[n - 1]));
        assert(spec_decode(s2) matches Err(PacketError::ChecksumMismatch(_, _)));
    } else {
        // A stored checksum byte changed: the recomputed checksum stays,
        // the stored one moves
        assert(spec_zeroed(s2) =~= spec_zeroed(s));
        assert(be16(s2[n - 2], s2[n - 1]) != be16(s[n - 2], s[n - 1]));
        assert(spec_decode(s2) matches Err(PacketError::ChecksumMismatch(_, _)));
    }
}

/// Flipping any single bit anywhere in a buffer that decodes successfully
/// makes decoding fail: bits in the first four bytes trip the magic,
/// version, or payload-type gate (or, for a flip that lands on another
/// registered type, the checksum), and all later bits fall under
/// `lemma_corruption_detected`.
pub proof fn lemma_bit_flip_rejected(s: Seq<u8>, i: int, k: int)
    requires
        spec_decode(s) is Ok,
        0 <= i < s.len(),
        0 <= k < 8,
    ensures
        spec_decode(spec_flip_bit(s, i, k)) is Err,
{
    let b2 = s[i] ^ (1u8 << k as u8);
    lemma_flip_changes_byte(s[i], k);
    let s2 = spec_flip_bit(s, i, k);
    let n = s.len() as int;
    assert(6 + be16(s[4], s[5]) == n);
    assert(n <= 0x1_0005);
    if i >= 4 {
        lemma_corruption_detected(s, i, k);
    } else if i <= 1 {
        if be16(s2[0], s2[1]) == 0xAD01 {
            lemma_be16_injective(s2[0], s2[1], s[0], s[1]);
            assert(false);
        }
    } else if i == 2 {
        assert(s2[2] != 0);
    } else {
        // The payload-type byte changed: either the new value is not
        // registered, or the checksum over the changed header fails
        if spec_from_wire(b2) is Some {
            assert(spec_zeroed(s2) =~= spec_zeroed(s).update(i, b2));
            assert(spec_zeroed(s)[i] == s[i]);
            lemma_checksum_byte_change(spec_zeroed(s), i, b2);
            assert(be16(s2[n - 2], s2[n - 1]) == be16(s[n - 2], s[n - 1]));
        }
    }
}

/// Truncation: decoding any strict prefix of a buffer that decodes
/// successfully fails — with `TooShort` if fewer than 8 bytes remain, and
/// with `LengthMismatch` otherwise, since the declared length survives in
/// the prefix while the bytes do not.
pub proof fn lemma_truncation_rejected(s: Seq<u8>, n: int)
    requires
        spec_decode(s) is Ok,
        0 <= n < s.len(),
    ensures
        ({
            let r = spec_decode(s.take(n));
            r matches Err(PacketError::TooShort(_)) || r matches Err(
                PacketError::LengthMismatch(_, _),
            )
        }),
{
    let p = s.take(n);
    assert(p.len() == n);
    if n >= 8 {
        assert(p[0] == s[0] && p[1] == s[1] && p[2] == s[2] && p[3] == s[3] && p[4] == s[4]
            && p[5] == s[5]);
        assert(6 + be16(p[4], p[5]) == s.len());
        assert(6 + be16(p[4], p[5]) != p.len());
    }
}

/// Magic gating: replacing the first two bytes of a buffer that decodes
/// successfully with any other pair makes decoding fail with
/// `NotThisProtocol`.
pub proof fn lemma_magic_gating(s: Seq<u8>, b0: u8, b1: u8)
    requires
        spec_decode(s) is Ok,
        (b0, b1) != (s[0], s[1]),
    ensures
        spec_decode(s.update(0, b0).update(1, b1)) == Err::<(PacketType, Seq<u8>), PacketError>(
            PacketError::NotThisProtocol,
        ),
{
    let s2 = s.update(0, b0).update(1, b1);
    assert(s2.len() == s.len());
    assert(be16(s[0], s[1]) == 0xAD01);
    if be16(s2[0], s2[1]) == 0xAD01 {
        lemma_be16_injective(s2[0], s2[1], s[0], s[1]);
        assert(false);
    }
}

/// Version gating: replacing the version byte of a buffer that decodes
/// successfully with any other value makes decoding fail with
/// `UnsupportedVersion` carrying that value.
pub proof fn lemma_version_gating(s: Seq<u8>, v: u8)
    requires
        spec_decode(s) is Ok,
        v != s[2],
    ensures
        spec_decode(s.update(2, v)) == Err::<(PacketType, Seq<u8>), PacketError>(
            PacketError::UnsupportedVersion(v),
        ),
{
    let s2 = s.update(2, v);
    assert(s2.len() == s.len());
    assert(be16(s2[0], s2[1]) == be16(s[0], s[1]));
    assert(s2[2] != 0);
}

} // verus!
