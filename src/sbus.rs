//! SBUS radio frames: 25-byte packets carrying sixteen 11-bit channels.
//!
//! A packet is laid out as a header byte, 22 data bytes, a flag byte and a
//! footer byte. The data bytes form a little-endian bit stream in which
//! channel `k` occupies the eleven bits starting at bit `11 k`.
//!
//! A packet is sent every 14 ms and takes 2 ms to arrive, so a buffer of two
//! packets' length always holds at least one whole packet.

use vstd::arithmetic::div_mod::lemma_div_denominator;
use vstd::arithmetic::power2::{lemma2_to64, lemma_pow2_pos, lemma_pow2_strictly_increases, lemma_pow2_unfold, pow2};
use vstd::bits::{lemma_u16_shr_is_div, lemma_u8_shr_is_div};
use vstd::prelude::*;

verus! {

pub const PACKET_SIZE: usize = 25;

pub const BUFFER_SIZE: usize = 2 * PACKET_SIZE;

pub const CHANNELS: usize = 16;

pub const HEADER: u8 = 0x0F;

pub const FOOTER: u8 = 0x00;

/// Bits of the flag byte that must be clear in a well-formed packet.
pub const FLAG_MASK: u8 = 0xF0;

/// Lowest raw channel value that transmitters produce in practice.
pub const CHANNEL_MIN: u16 = 172;

/// Highest raw channel value that transmitters produce in practice.
pub const CHANNEL_MAX: u16 = 1811;

/// One decoded packet, channels as raw 11-bit values.
#[derive(Debug, Clone, Copy, PartialEq, Eq)]
pub struct RawPacket {
    pub channels: [u16; CHANNELS],
    pub digital_channels: [bool; 2],
    pub failsafe: bool,
    pub frame_lost: bool,
}

#[derive(Debug, Clone, Copy, PartialEq, Eq)]
pub enum SbusErrorType {
    /// The buffer holds no footer byte.
    HeaderNotFound,
    /// The last footer byte does not close a well-formed packet.
    InvalidPacket,
}

#[derive(Debug, Clone, Copy, PartialEq, Eq)]
pub struct SbusError {
    pub error_type: SbusErrorType,
}

impl SbusError {
    pub fn new(error_type: SbusErrorType) -> (r: Self)
        ensures
            r.error_type == error_type,
    {
        Self { error_type }
    }
}

/// Bit `i` of `x`, least significant first.
pub open spec fn bit(x: int, i: nat) -> int {
    (x / pow2(i) as int) % 2
}

/// The value whose bit `j` is `digits(start + j)`, for `j < len`.
pub open spec fn bits_from(digits: spec_fn(int) -> int, start: int, len: nat) -> int
    decreases len,
{
    if len == 0 {
        0
    } else {
        digits(start) + 2 * bits_from(digits, start + 1, (len - 1) as nat)
    }
}

/// Bit `n` of the data stream of `packet`: the bytes after the header, each
/// read least significant bit first.
pub open spec fn stream_bit(packet: Seq<u8>, n: int) -> int {
    bit(packet[1 + n / 8] as int, (n % 8) as nat)
}

pub open spec fn channel_digits(packet: Seq<u8>, k: int) -> spec_fn(int) -> int {
    |j: int| stream_bit(packet, 11 * k + j)
}

/// Channel `k` of `packet`: the eleven stream bits that start at bit `11 k`.
pub open spec fn channel_value(packet: Seq<u8>, k: int) -> int {
    bits_from(channel_digits(packet, k), 0, 11)
}

/// Flag `i` of `packet`: bit `i` of its flag byte.
pub open spec fn flag_bit(packet: Seq<u8>, i: nat) -> bool {
    bit(packet[23] as int, i) == 1
}

/// `r` is what the 25 bytes of `packet` say.
pub open spec fn decodes_to(packet: Seq<u8>, r: RawPacket) -> bool {
    &&& forall|k: int| 0 <= k < CHANNELS ==> r.channels@[k] == channel_value(packet, k)
    &&& r.digital_channels@[0] == flag_bit(packet, 0)
    &&& r.digital_channels@[1] == flag_bit(packet, 1)
    &&& r.frame_lost == flag_bit(packet, 2)
    &&& r.failsafe == flag_bit(packet, 3)
}

/// A well-formed packet: header, flag byte with its upper nibble clear, footer.
pub open spec fn valid_packet(packet: Seq<u8>) -> bool {
    &&& packet.len() == PACKET_SIZE
    &&& packet[0] == HEADER
    &&& packet[23] & FLAG_MASK == 0
    &&& packet[24] == FOOTER
}

pub open spec fn has_footer(buffer: Seq<u8>) -> bool {
    exists|i: int| 0 <= i < buffer.len() && buffer[i] == FOOTER
}

/// `f` is the index of the last footer byte of `buffer`.
pub open spec fn is_last_footer(buffer: Seq<u8>, f: int) -> bool {
    &&& 0 <= f < buffer.len()
    &&& buffer[f] == FOOTER
    &&& forall|j: int| f < j < buffer.len() ==> buffer[j] != FOOTER
}

/// The footer at `f` closes a packet: room for a whole packet before it, a
/// flag byte with its upper nibble clear just before it, and the header
/// 24 bytes back.
pub open spec fn closes_packet(buffer: Seq<u8>, f: int) -> bool {
    &&& f + 1 >= PACKET_SIZE
    &&& buffer[f - 1] & FLAG_MASK == 0
    &&& buffer[f - 24] == HEADER
}

/// The packet that ends at the last footer of `buffer`.
pub open spec fn last_packet(buffer: Seq<u8>, f: int) -> Seq<u8> {
    buffer.subrange(f - 24, f + 1)
}

/// `r` is what `buffer` yields: its last footer closes a packet that decodes to `r`.
pub open spec fn parses_to(buffer: Seq<u8>, r: RawPacket) -> bool {
    exists|f: int|
        is_last_footer(buffer, f) && closes_packet(buffer, f) && decodes_to(
            #[trigger] last_packet(buffer, f),
            r,
        )
}

/// The flag byte that carries the flags of `r`.
pub open spec fn flag_byte(r: RawPacket) -> int {
    (if r.digital_channels@[0] { 1int } else { 0 }) + (if r.digital_channels@[1] { 2int } else { 0 })
        + (if r.frame_lost { 4int } else { 0 }) + (if r.failsafe { 8int } else { 0 })
}

pub open spec fn byte_digits(channels: Seq<u16>, i: int) -> spec_fn(int) -> int {
    |m: int| bit(channels[(8 * i + m) / 11] as int, ((8 * i + m) % 11) as nat)
}

/// Data byte `i` of the stream that carries `channels`, eleven bits each.
pub open spec fn data_byte(channels: Seq<u16>, i: int) -> int {
    bits_from(byte_digits(channels, i), 0, 8)
}

/// The 25 bytes that carry `r`.
pub open spec fn packet_bytes(r: RawPacket) -> Seq<u8> {
    Seq::new(
        PACKET_SIZE as nat,
        |i: int|
            if i == 0 {
                HEADER
            } else if i == 24 {
                FOOTER
            } else if i == 23 {
                flag_byte(r) as u8
            } else {
                data_byte(r.channels@, i - 1) as u8
            },
    )
}

proof fn lemma_bit_zero(x: int)
    requires
        0 <= x,
    ensures
        bit(x, 0) == x % 2,
{
    lemma2_to64();
}

proof fn lemma_bit_succ(x: int, i: nat)
    requires
        0 <= x,
    ensures
        bit(x, i + 1) == bit(x / 2, i),
{
    lemma_pow2_unfold(i + 1);
    lemma_pow2_pos(i);
    lemma_div_denominator(x, 2, pow2(i) as int);
}

/// Bits taken from digits that are each 0 or 1 read back as those digits,
/// and the value fits in `len` bits.
proof fn lemma_bits_from_bits(digits: spec_fn(int) -> int, start: int, len: nat)
    requires
        forall|j: int| start <= j < start + len ==> 0 <= #[trigger] digits(j) <= 1,
    ensures
        0 <= bits_from(digits, start, len) < pow2(len),
        forall|r: nat| r < len ==> #[trigger] bit(bits_from(digits, start, len), r) == digits(start + r),
    decreases len,
{
    if len == 0 {
        lemma2_to64();
    } else {
        let rest = bits_from(digits, start + 1, (len - 1) as nat);
        lemma_bits_from_bits(digits, start + 1, (len - 1) as nat);
        lemma_pow2_unfold(len);
        let v = bits_from(digits, start, len);
        assert(v == digits(start) + 2 * rest);
        assert forall|r: nat| r < len implies #[trigger] bit(v, r) == digits(start + r) by {
            if r == 0 {
                lemma_bit_zero(v);
            } else {
                let q = (r - 1) as nat;
                lemma_bit_succ(v, q);
                assert(v / 2 == rest);
                assert(bit(rest, q) == digits(start + 1 + q));
            }
        }
    }
}

/// Digits that agree with the bits of `x` build `x` back.
proof fn lemma_bits_from_value(digits: spec_fn(int) -> int, start: int, len: nat, x: int)
    requires
        0 <= x < pow2(len),
        forall|j: nat| j < len ==> #[trigger] digits(start + j) == bit(x, j),
    ensures
        bits_from(digits, start, len) == x,
    decreases len,
{
    if len == 0 {
        lemma2_to64();
    } else {
        lemma_pow2_unfold(len);
        let half = x / 2;
        assert forall|j: nat| j < (len - 1) as nat implies #[trigger] digits(start + 1 + j) == bit(
            half,
            j,
        ) by {
            lemma_bit_succ(x, j);
            assert(digits(start + (j + 1) as nat) == bit(x, (j + 1) as nat));
        }
        lemma_bits_from_value(digits, start + 1, (len - 1) as nat, half);
        assert(digits(start + 0nat) == bit(x, 0));
        lemma_bit_zero(x);
    }
}

/// Bit `i` of `x`, for `i < 16`.
fn bit_at(x: u16, i: u16) -> (b: u16)
    requires
        i < 16,
    ensures
        b == bit(x as int, i as nat),
        b <= 1,
{
    let shifted = x >> i;
    proof {
        lemma_u16_shr_is_div(x, i);
        assert(shifted & 1 == shifted % 2) by (bit_vector);
    }
    shifted & 1
}

/// Whether bit `idx` of the flag byte is set.
pub fn is_flag_set(flag_byte: u8, idx: u8) -> (r: bool)
    requires
        idx < 8,
    ensures
        r == (bit(flag_byte as int, idx as nat) == 1),
{
    let shifted = flag_byte >> idx;
    proof {
        lemma_u8_shr_is_div(flag_byte, idx);
        assert(shifted & 1 == shifted % 2) by (bit_vector);
    }
    shifted & 1 == 1
}

/// Reads channel `k` of the packet whose header stands at `header`.
fn read_channel(buffer: &[u8; BUFFER_SIZE], header: usize, k: usize) -> (v: u16)
    requires
        header + PACKET_SIZE <= BUFFER_SIZE,
        k < CHANNELS,
    ensures
        v == channel_value(buffer@.subrange(header as int, header + PACKET_SIZE), k as int),
{
    let ghost packet = buffer@.subrange(header as int, header + PACKET_SIZE);
    let ghost digits = channel_digits(packet, k as int);
    let mut value: u16 = 0;
    let mut j: usize = 11;
    proof {
        lemma2_to64();
    }
    while j > 0
        invariant
            j <= 11,
            header + PACKET_SIZE <= BUFFER_SIZE,
            k < CHANNELS,
            packet == buffer@.subrange(header as int, header + PACKET_SIZE),
            digits == channel_digits(packet, k as int),
            value == bits_from(digits, j as int, (11 - j) as nat),
            value < pow2((11 - j) as nat),
        decreases j,
    {
        let n: usize = 11 * k + j - 1;
        let byte = buffer[header + 1 + n / 8];
        let b = bit_at(byte as u16, (n % 8) as u16);
        proof {
            lemma_pow2_unfold((11 - j + 1) as nat);
            lemma2_to64();
            if j < 2 {
                assert(pow2((11 - j) as nat) == pow2(10));
            } else {
                lemma_pow2_strictly_increases((11 - j) as nat, 10);
            }
            assert(digits(j - 1) == b);
        }
        value = b + 2 * value;
        j = j - 1;
    }
    value
}

/// Decodes the packet whose header stands at `header`.
fn decode_at(buffer: &[u8; BUFFER_SIZE], header: usize) -> (r: RawPacket)
    requires
        header + PACKET_SIZE <= BUFFER_SIZE,
    ensures
        decodes_to(buffer@.subrange(header as int, header + PACKET_SIZE), r),
{
    let ghost packet = buffer@.subrange(header as int, header + PACKET_SIZE);
    let mut channels = [0u16; CHANNELS];
    let mut k: usize = 0;
    while k < CHANNELS
        invariant
            k <= CHANNELS,
            header + PACKET_SIZE <= BUFFER_SIZE,
            packet == buffer@.subrange(header as int, header + PACKET_SIZE),
            forall|c: int| 0 <= c < k ==> channels@[c] == channel_value(packet, c),
        decreases CHANNELS - k,
    {
        channels[k] = read_channel(buffer, header, k);
        k = k + 1;
    }
    let flags = buffer[header + 23];
    RawPacket {
        channels,
        digital_channels: [is_flag_set(flags, 0), is_flag_set(flags, 1)],
        frame_lost: is_flag_set(flags, 2),
        failsafe: is_flag_set(flags, 3),
    }
}

/// Index of the last footer byte of the buffer, if any.
fn last_footer(buffer: &[u8; BUFFER_SIZE]) -> (r: Option<usize>)
    ensures
        r is None <==> !has_footer(buffer@),
        r matches Some(f) ==> is_last_footer(buffer@, f as int),
{
    let mut i: usize = BUFFER_SIZE;
    while i > 0
        invariant
            i <= BUFFER_SIZE,
            forall|j: int| i <= j < BUFFER_SIZE ==> buffer@[j] != FOOTER,
        decreases i,
    {
        if buffer[i - 1] == FOOTER {
            return Some(i - 1);
        }
        i = i - 1;
    }
    None
}

/// Parses the packet that ends at the last footer byte of the buffer.
///
/// Fails with `HeaderNotFound` when the buffer holds no footer byte, and
/// with `InvalidPacket` when the last footer does not close a well-formed
/// packet.
pub fn try_parse(buffer: &[u8; BUFFER_SIZE]) -> (r: Result<RawPacket, SbusError>)
    ensures
        !has_footer(buffer@) <==> r == Err::<RawPacket, SbusError>(
            SbusError { error_type: SbusErrorType::HeaderNotFound },
        ),
        forall|f: int|
            is_last_footer(buffer@, f) ==> (closes_packet(buffer@, f) <==> r is Ok) && (!closes_packet(
                buffer@,
                f,
            ) ==> r == Err::<RawPacket, SbusError>(
                SbusError { error_type: SbusErrorType::InvalidPacket },
            )),
        r matches Ok(p) ==> parses_to(buffer@, p),
{
    match last_footer(buffer) {
        None => Err(SbusError::new(SbusErrorType::HeaderNotFound)),
        Some(footer) => {
            if footer + 1 >= PACKET_SIZE && buffer[footer - 1] & FLAG_MASK == 0 && buffer[footer
                - 24] == HEADER {
                let header = footer - 24;
                let packet = decode_at(buffer, header);
                assert(last_packet(buffer@, footer as int) == buffer@.subrange(
                    header as int,
                    header + PACKET_SIZE,
                ));
                Ok(packet)
            } else {
                Err(SbusError::new(SbusErrorType::InvalidPacket))
            }
        },
    }
}

/// Data byte `i` of the stream that carries the channels.
fn data_byte_of(channels: &[u16; CHANNELS], i: usize) -> (b: u8)
    requires
        i < 22,
    ensures
        b == data_byte(channels@, i as int),
{
    let ghost digits = byte_digits(channels@, i as int);
    let mut value: u16 = 0;
    let mut m: usize = 8;
    proof {
        lemma2_to64();
    }
    while m > 0
        invariant
            m <= 8,
            i < 22,
            digits == byte_digits(channels@, i as int),
            value == bits_from(digits, m as int, (8 - m) as nat),
            value < pow2((8 - m) as nat),
        decreases m,
    {
        let n: usize = 8 * i + m - 1;
        let b = bit_at(channels[n / 11], (n % 11) as u16);
        proof {
            lemma_pow2_unfold((8 - m + 1) as nat);
            lemma2_to64();
            if m < 2 {
                assert(pow2((8 - m) as nat) == pow2(7));
            } else {
                lemma_pow2_strictly_increases((8 - m) as nat, 7);
            }
            assert(digits(m - 1) == b);
        }
        value = b + 2 * value;
        m = m - 1;
    }
    value as u8
}

impl RawPacket {
    /// Distance of a raw channel value from `CHANNEL_MIN`, after clamping it
    /// to `CHANNEL_MIN ..= CHANNEL_MAX`. Normalising divides it by
    /// `CHANNEL_MAX - CHANNEL_MIN` and maps the result to `[-1, 1]`.
    pub fn channel_offset(channel: u16) -> (r: u16)
        ensures
            channel <= CHANNEL_MIN ==> r == 0,
            channel >= CHANNEL_MAX ==> r == CHANNEL_MAX - CHANNEL_MIN,
            CHANNEL_MIN <= channel <= CHANNEL_MAX ==> r == channel - CHANNEL_MIN,
    {
        if channel <= CHANNEL_MIN {
            0
        } else if channel >= CHANNEL_MAX {
            CHANNEL_MAX - CHANNEL_MIN
        } else {
            channel - CHANNEL_MIN
        }
    }

    /// The 25 bytes that carry this packet; each channel contributes its low
    /// eleven bits.
    pub fn encode(&self) -> (bytes: [u8; PACKET_SIZE])
        ensures
            bytes@ == packet_bytes(*self),
    {
        let mut bytes = [0u8; PACKET_SIZE];
        bytes[0] = HEADER;
        let mut i: usize = 0;
        while i < 22
            invariant
                i <= 22,
                bytes@.len() == PACKET_SIZE,
                bytes@[0] == HEADER,
                forall|t: int| 1 <= t < i + 1 ==> bytes@[t] == data_byte(self.channels@, t - 1) as u8,
            decreases 22 - i,
        {
            bytes[i + 1] = data_byte_of(&self.channels, i);
            i = i + 1;
        }
        let mut flags: u8 = 0;
        if self.digital_channels[0] {
            flags = flags + 1;
        }
        if self.digital_channels[1] {
            flags = flags + 2;
        }
        if self.frame_lost {
            flags = flags + 4;
        }
        if self.failsafe {
            flags = flags + 8;
        }
        bytes[23] = flags;
        bytes[24] = FOOTER;
        assert(bytes@ =~= packet_bytes(*self));
        bytes
    }
}

/// Decoding a well-formed packet and encoding the result gives back the
/// packet's bytes.
pub proof fn lemma_decode_encode(packet: Seq<u8>, r: RawPacket)
    requires
        valid_packet(packet),
        decodes_to(packet, r),
    ensures
        packet_bytes(r) == packet,
{
    lemma2_to64();
    let channels = r.channels@;
    assert forall|t: int| 1 <= t < 23 implies #[trigger] packet_bytes(r)[t] == packet[t] by {
        let i = t - 1;
        let digits = byte_digits(channels, i);
        assert forall|m: nat| m < 8 implies #[trigger] digits(0int + m) == bit(packet[1 + i] as int, m) by {
            let n = 8 * i + m;
            let c = n / 11;
            let q = n % 11;
            assert(0 <= c < 16);
            let cd = channel_digits(packet, c);
            assert forall|j: int| 0 <= j < 0 + 11 implies 0 <= #[trigger] cd(j) <= 1 by {}
            lemma_bits_from_bits(cd, 0, 11);
            assert(channels[c] == channel_value(packet, c));
            assert(bit(channels[c] as int, q as nat) == cd(0 + q));
            assert(11 * c + q == n);
            assert(n / 8 == i && n % 8 == m);
        }
        lemma_bits_from_value(digits, 0, 8, packet[t] as int);
    }
    let x = packet[23];
    assert(x & 0xF0 == 0 ==> x < 16) by (bit_vector);
    let fd = |j: int| bit(x as int, j as nat);
    assert forall|j: nat| j < 4 implies #[trigger] fd(0int + j) == bit(x as int, j) by {}
    lemma_bits_from_value(fd, 0, 4, x as int);
    assert(bits_from(fd, 0, 4) == fd(0) + 2 * (fd(1) + 2 * (fd(2) + 2 * (fd(3) + 2 * bits_from(fd, 4, 0))))) by {
        reveal_with_fuel(bits_from, 5);
    }
    assert(packet_bytes(r) =~= packet);
}

/// A well-formed packet at the tail of a buffer is the one that is parsed:
/// its footer is the last footer of the buffer and closes a packet.
pub proof fn lemma_tail_packet_parses(buffer: Seq<u8>)
    requires
        buffer.len() == BUFFER_SIZE,
        valid_packet(buffer.subrange(PACKET_SIZE as int, BUFFER_SIZE as int)),
    ensures
        is_last_footer(buffer, BUFFER_SIZE - 1),
        closes_packet(buffer, BUFFER_SIZE - 1),
        last_packet(buffer, BUFFER_SIZE - 1) == buffer.subrange(PACKET_SIZE as int, BUFFER_SIZE as int),
{
    let tail = buffer.subrange(PACKET_SIZE as int, BUFFER_SIZE as int);
    assert(buffer[49] == tail[24]);
    assert(buffer[48] == tail[23]);
    assert(buffer[25] == tail[0]);
    assert(last_packet(buffer, BUFFER_SIZE - 1) =~= tail);
}

/// Raw bytes, parsed, then re-encoded: whatever packet a buffer parses to
/// encodes back to the bytes it was read from.
pub proof fn lemma_parse_encode_round_trip(buffer: Seq<u8>, r: RawPacket)
    requires
        parses_to(buffer, r),
    ensures
        forall|f: int| is_last_footer(buffer, f) ==> packet_bytes(r) == #[trigger] last_packet(buffer, f),
{
    let f = choose|f: int|
        is_last_footer(buffer, f) && closes_packet(buffer, f) && decodes_to(
            #[trigger] last_packet(buffer, f),
            r,
        );
    let packet = last_packet(buffer, f);
    assert(packet[0] == buffer[f - 24]);
    assert(packet[23] == buffer[f - 1]);
    assert(packet[24] == buffer[f]);
    lemma_decode_encode(packet, r);
    assert forall|g: int| is_last_footer(buffer, g) implies packet_bytes(r) == #[trigger] last_packet(buffer, g) by {
        if g < f {
            assert(buffer[f] != FOOTER);
        } else if g > f {
            assert(buffer[g] != FOOTER);
        }
    }
}

/// Encoding a packet whose channels fit in eleven bits gives a well-formed
/// packet that decodes back to it.
pub proof fn lemma_encode_decode(r: RawPacket)
    requires
        forall|k: int| 0 <= k < CHANNELS ==> r.channels@[k] < 2048,
    ensures
        valid_packet(packet_bytes(r)),
        decodes_to(packet_bytes(r), r),
{
    lemma2_to64();
    let pb = packet_bytes(r);
    let channels = r.channels@;
    assert forall|i: int| 0 <= i < 22 implies 0 <= #[trigger] data_byte(channels, i) < 256 && (
    forall|m: nat| m < 8 ==> #[trigger] bit(data_byte(channels, i), m) == byte_digits(channels, i)(
        0int + m,
    )) by {
        let bd = byte_digits(channels, i);
        assert forall|j: int| 0 <= j < 0 + 8 implies 0 <= #[trigger] bd(j) <= 1 by {}
        lemma_bits_from_bits(bd, 0, 8);
    }
    assert forall|k: int| 0 <= k < CHANNELS implies r.channels@[k] == channel_value(pb, k) by {
        let cd = channel_digits(pb, k);
        assert forall|j: nat| j < 11 implies #[trigger] cd(0int + j) == bit(channels[k] as int, j) by {
            let n = 11 * k + j;
            let i = n / 8;
            let m = (n % 8) as nat;
            assert(0 <= i < 22);
            assert(pb[1 + i] == data_byte(channels, i) as u8);
            assert(bit(data_byte(channels, i), m) == byte_digits(channels, i)(0int + m));
            assert(8 * i + m == n);
            assert(n / 11 == k && n % 11 == j);
        }
        lemma_bits_from_value(cd, 0, 11, channels[k] as int);
    }
    let fd = |j: int|
        if j == 0 {
            if r.digital_channels@[0] { 1int } else { 0 }
        } else if j == 1 {
            if r.digital_channels@[1] { 1int } else { 0 }
        } else if j == 2 {
            if r.frame_lost { 1int } else { 0 }
        } else {
            if r.failsafe { 1int } else { 0 }
        };
    assert forall|j: int| 0 <= j < 0 + 4 implies 0 <= #[trigger] fd(j) <= 1 by {}
    lemma_bits_from_bits(fd, 0, 4);
    assert(bits_from(fd, 0, 4) == fd(0) + 2 * (fd(1) + 2 * (fd(2) + 2 * (fd(3) + 2 * bits_from(fd, 4, 0))))) by {
        reveal_with_fuel(bits_from, 5);
    }
    assert(bits_from(fd, 0, 4) == flag_byte(r));
    assert(pb[23] == flag_byte(r) as u8);
    assert(bit(flag_byte(r), 0) == fd(0int + 0nat));
    assert(bit(flag_byte(r), 1) == fd(0int + 1nat));
    assert(bit(flag_byte(r), 2) == fd(0int + 2nat));
    assert(bit(flag_byte(r), 3) == fd(0int + 3nat));
    let x = pb[23];
    assert(x < 16 ==> x & 0xF0 == 0) by (bit_vector);
}

/// Encoded bytes, parsed: a buffer whose last 25 bytes are the encoding of
/// a packet with eleven-bit channels parses to that packet.
pub proof fn lemma_encode_parse_round_trip(buffer: Seq<u8>, r: RawPacket)
    requires
        buffer.len() == BUFFER_SIZE,
        buffer.subrange(PACKET_SIZE as int, BUFFER_SIZE as int) == packet_bytes(r),
        forall|k: int| 0 <= k < CHANNELS ==> r.channels@[k] < 2048,
    ensures
        has_footer(buffer),
        is_last_footer(buffer, BUFFER_SIZE - 1),
        closes_packet(buffer, BUFFER_SIZE - 1),
        forall|p: RawPacket|
            parses_to(buffer, p) ==> p.channels@ == r.channels@ && p.digital_channels@
                == r.digital_channels@ && p.frame_lost == r.frame_lost && p.failsafe == r.failsafe,
{
    lemma_encode_decode(r);
    lemma_tail_packet_parses(buffer);
    assert(buffer[BUFFER_SIZE - 1] == FOOTER);
    assert forall|p: RawPacket| parses_to(buffer, p) implies p.channels@ == r.channels@
        && p.digital_channels@ == r.digital_channels@ && p.frame_lost == r.frame_lost && p.failsafe
        == r.failsafe by {
        let f = choose|f: int|
            is_last_footer(buffer, f) && closes_packet(buffer, f) && decodes_to(
                #[trigger] last_packet(buffer, f),
                p,
            );
        if f < BUFFER_SIZE - 1 {
            assert(buffer[BUFFER_SIZE - 1] != FOOTER);
        }
        assert(f == BUFFER_SIZE - 1);
        let packet = last_packet(buffer, f);
        assert(packet == packet_bytes(r));
        assert forall|k: int| 0 <= k < CHANNELS implies p.channels@[k] == r.channels@[k] by {
            assert(p.channels@[k] == channel_value(packet, k));
            assert(r.channels@[k] == channel_value(packet_bytes(r), k));
        }
        assert(p.channels@ =~= r.channels@);
        assert(p.digital_channels@ =~= r.digital_channels@);
    }
}

} // verus!
