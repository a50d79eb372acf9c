use vstd::prelude::*;

use crate::error::Error;

verus! {

/// Synchronization byte that starts every CCNET frame.
pub const SYNC: u8 = 0x02;

/// Default address of a bill validator peripheral.
pub const DEFAULT_ADDR: u8 = 0x03;

/// ACK byte sent to acknowledge a frame.
pub const ACK: u8 = 0x00;

/// NAK byte sent to reject a frame.
pub const NAK: u8 = 0xFF;

/// One bit step of the reflected CRC-16 (polynomial `0x8408`).
pub open spec fn crc_bit_step(crc: u16) -> u16 {
    if crc & 1 != 0 { (crc >> 1) ^ 0x8408u16 } else { crc >> 1 }
}

/// `n` bit steps.
pub open spec fn crc_bit_steps(crc: u16, n: nat) -> u16
    decreases n,
{
    if n == 0 { crc } else { crc_bit_steps(crc_bit_step(crc), (n - 1) as nat) }
}

/// Folds one byte into the running checksum.
pub open spec fn crc_byte(crc: u16, byte: u8) -> u16 {
    crc_bit_steps(crc ^ (byte as u16), 8)
}

/// CRC-16/KERMIT of a byte sequence: initial value `0x0000`, reflected
/// polynomial `0x8408`, bytes taken in order.
pub open spec fn crc16_spec(data: Seq<u8>) -> u16
    decreases data.len(),
{
    if data.len() == 0 { 0u16 } else { crc_byte(crc16_spec(data.drop_last()), data.last()) }
}

/// CRC-16/KERMIT over `data`; the checksum of every CCNET frame.
pub fn crc16(data: &[u8]) -> (crc: u16)
    ensures
        crc == crc16_spec(data@),
{
    let mut crc: u16 = 0;
    let mut i: usize = 0;
    while i < data.len()
        invariant
            i <= data@.len(),
            crc == crc16_spec(data@.take(i as int)),
        decreases data@.len() - i,
    {
        assert(data@.take(i + 1).drop_last() =~= data@.take(i as int));
        let byte = data[i];
        crc = crc ^ (byte as u16);
        let mut k: u32 = 0;
        while k < 8
            invariant
                k <= 8,
                crc_bit_steps(crc, (8 - k) as nat) == crc_byte(crc16_spec(data@.take(i as int)), byte),
            decreases 8 - k,
        {
            if crc & 1 != 0 {
                crc = (crc >> 1) ^ 0x8408;
            } else {
                crc = crc >> 1;
            }
            k = k + 1;
        }
        i = i + 1;
    }
    assert(data@.take(data@.len() as int) =~= data@);
    crc
}

/// Appends `src` to `dst`.
fn append_bytes(dst: &mut Vec<u8>, src: &[u8])
    ensures
        final(dst)@ == old(dst)@ + src@,
{
    let mut i: usize = 0;
    while i < src.len()
        invariant
            i <= src@.len(),
            dst@ == old(dst)@ + src@.take(i as int),
        decreases src@.len() - i,
    {
        dst.push(src[i]);
        i = i + 1;
        assert(dst@ =~= old(dst)@ + src@.take(i as int));
    }
    assert(src@.take(src@.len() as int) =~= src@);
}

/// The bytes covered by the checksum of a frame: SYNC, ADR, LNG and DATA.
pub open spec fn frame_body(addr: u8, data: Seq<u8>) -> Seq<u8> {
    seq![SYNC, addr, (data.len() + 5) as u8] + data
}

/// The two checksum bytes, least significant first.
pub open spec fn crc_bytes(crc: u16) -> Seq<u8> {
    seq![(crc & 0xFFu16) as u8, (crc >> 8u16) as u8]
}

/// The wire encoding of a frame with address `addr` and payload `data`.
pub open spec fn encode_spec(addr: u8, data: Seq<u8>) -> Seq<u8> {
    frame_body(addr, data) + crc_bytes(crc16_spec(frame_body(addr, data)))
}

/// The checksum carried in the two bytes before position `lng` of `raw`.
pub open spec fn carried_crc(raw: Seq<u8>, lng: int) -> u16 {
    ((raw[lng - 2] as u16) | ((raw[lng - 1] as u16) << 8u16)) as u16
}

/// What decoding `raw` yields: the address and payload of the frame at its
/// start, or the error that rejects it.
pub open spec fn decode_spec(raw: Seq<u8>) -> Result<(u8, Seq<u8>), Error> {
    if raw.len() < 6 {
        Err(Error::InvalidFrame("frame shorter than minimum 6 bytes"))
    } else if raw[0] != SYNC {
        Err(Error::InvalidFrame("missing SYNC byte (0x02)"))
    } else if raw[2] < 6 {
        Err(Error::InvalidFrame("LNG field is below minimum (6)"))
    } else if raw.len() < raw[2] {
        Err(Error::InvalidFrame("buffer shorter than LNG field indicates"))
    } else if crc16_spec(raw.take(raw[2] - 2)) != carried_crc(raw, raw[2] as int) {
        Err(Error::CrcMismatch {
            expected: crc16_spec(raw.take(raw[2] - 2)),
            actual: carried_crc(raw, raw[2] as int),
        })
    } else {
        Ok((raw[1], raw.subrange(3, raw[2] - 2)))
    }
}

/// A decoding result seen through the frames' views.
pub open spec fn decode_result_view(r: Result<Frame, Error>) -> Result<(u8, Seq<u8>), Error> {
    match r {
        Ok(f) => Ok(f@),
        Err(e) => Err(e),
    }
}

/// A CCNET frame: `[SYNC][ADR][LNG][DATA...][CRC_L][CRC_H]`.
#[derive(Debug, Clone)]
pub struct Frame {
    pub addr: u8,
    pub data: Vec<u8>,
}

impl View for Frame {
    type V = (u8, Seq<u8>);

    open spec fn view(&self) -> (u8, Seq<u8>) {
        (self.addr, self.data@)
    }
}

impl Frame {
    /// A frame addressed to the default bill validator address.
    pub fn new(data: Vec<u8>) -> (f: Frame)
        ensures
            f.addr == DEFAULT_ADDR,
            f.data@ == data@,
    {
        Frame { addr: DEFAULT_ADDR, data }
    }

    /// The bytes that carry this frame on the wire.
    ///
    /// A frame whose total length would exceed 255 bytes has no encoding.
    pub fn encode(&self) -> (bytes: Vec<u8>)
        requires
            self.data@.len() + 5 <= 255,
        ensures
            bytes@ == encode_spec(self.addr, self.data@),
    {
        let lng: usize = self.data.len() + 5;
        let mut bytes: Vec<u8> = Vec::with_capacity(lng);
        bytes.push(SYNC);
        bytes.push(self.addr);
        bytes.push(lng as u8);
        append_bytes(&mut bytes, self.data.as_slice());
        assert(bytes@ =~= frame_body(self.addr, self.data@));
        let crc = crc16(bytes.as_slice());
        bytes.push((crc & 0xFF) as u8);
        bytes.push((crc >> 8) as u8);
        assert(bytes@ =~= encode_spec(self.addr, self.data@));
        bytes
    }

    /// Decodes the frame at the start of `raw`, checking SYNC, LNG and CRC.
    pub fn decode(raw: &[u8]) -> (r: Result<Frame, Error>)
        ensures
            decode_result_view(r) == decode_spec(raw@),
    {
        if raw.len() < 6 {
            return Err(Error::InvalidFrame("frame shorter than minimum 6 bytes"));
        }
        if raw[0] != SYNC {
            return Err(Error::InvalidFrame("missing SYNC byte (0x02)"));
        }
        let lng: usize = raw[2] as usize;
        if lng < 6 {
            return Err(Error::InvalidFrame("LNG field is below minimum (6)"));
        }
        if raw.len() < lng {
            return Err(Error::InvalidFrame("buffer shorter than LNG field indicates"));
        }
        let crc_calculated = crc16(&raw[0..lng - 2]);
        assert(raw@.subrange(0, lng - 2) =~= raw@.take(lng - 2));
        let crc_received: u16 = (raw[lng - 2] as u16) | ((raw[lng - 1] as u16) << 8);
        if crc_calculated != crc_received {
            return Err(Error::CrcMismatch { expected: crc_calculated, actual: crc_received });
        }
        let mut data: Vec<u8> = Vec::new();
        append_bytes(&mut data, &raw[3..lng - 2]);
        Ok(Frame { addr: raw[1], data })
    }
}

/// The decoder's refusals, in the order it checks: fewer than 6 bytes,
/// then a first byte other than SYNC, then LNG below 6, then fewer bytes
/// than LNG, then a checksum mismatch carrying the checksum computed over
/// the first LNG − 2 bytes and the one read from the next two, low first.
pub proof fn lemma_decode_refusals(raw: Seq<u8>)
    ensures
        raw.len() < 6 ==> decode_spec(raw) == Err::<(u8, Seq<u8>), Error>(
            Error::InvalidFrame("frame shorter than minimum 6 bytes"),
        ),
        raw.len() >= 6 && raw[0] != 0x02 ==> decode_spec(raw) == Err::<(u8, Seq<u8>), Error>(
            Error::InvalidFrame("missing SYNC byte (0x02)"),
        ),
        raw.len() >= 6 && raw[0] == 0x02 && raw[2] < 6 ==> decode_spec(raw) == Err::<(u8, Seq<u8>), Error>(
            Error::InvalidFrame("LNG field is below minimum (6)"),
        ),
        raw.len() >= 6 && raw[0] == 0x02 && raw[2] >= 6 && raw.len() < raw[2] ==> decode_spec(raw)
            == Err::<(u8, Seq<u8>), Error>(Error::InvalidFrame("buffer shorter than LNG field indicates")),
        raw.len() >= 6 && raw[0] == 0x02 && raw[2] >= 6 && raw.len() >= raw[2] ==> ({
            let lng = raw[2] as int;
            let computed = crc16_spec(raw.take(lng - 2));
            let carried = raw[lng - 2] as int + 256 * raw[lng - 1] as int;
            &&& computed != carried ==> decode_spec(raw) == Err::<(u8, Seq<u8>), Error>(
                Error::CrcMismatch { expected: computed, actual: carried as u16 },
            )
            &&& computed == carried ==> decode_spec(raw) == Ok::<(u8, Seq<u8>), Error>(
                (raw[1], raw.subrange(3, lng - 2)),
            )
        }),
{
    if raw.len() >= 6 && raw[0] == 0x02 && raw[2] >= 6 && raw.len() >= raw[2] {
        let lng = raw[2] as int;
        let lo = raw[lng - 2];
        let hi = raw[lng - 1];
        assert((lo as u16 | ((hi as u16) << 8u16)) as int == lo as int + 256 * hi as int) by (bit_vector);
    }
}

/// The two checksum bytes of a frame, read back least significant first,
/// give the checksum that was written.
proof fn lemma_crc_bytes_roundtrip(crc: u16)
    ensures
        (((crc & 0xFFu16) as u8) as u16 | ((((crc >> 8u16) as u8) as u16) << 8u16)) == crc,
{
    assert((((crc & 0xFFu16) as u8) as u16 | ((((crc >> 8u16) as u8) as u16) << 8u16)) == crc)
        by (bit_vector);
}

/// Decoding what `encode` produced gives back the frame's address and
/// payload, whatever bytes follow it in the buffer. (A frame with an empty
/// payload encodes to 5 bytes, which `decode` rejects as too short.)
pub proof fn lemma_decode_encode(addr: u8, data: Seq<u8>, rest: Seq<u8>)
    requires
        1 <= data.len(),
        data.len() + 5 <= 255,
    ensures
        decode_spec(encode_spec(addr, data) + rest) == Ok::<(u8, Seq<u8>), Error>((addr, data)),
{
    let body = frame_body(addr, data);
    let crc = crc16_spec(body);
    let raw = encode_spec(addr, data) + rest;
    let lng = data.len() + 5;
    assert(raw[0] == SYNC);
    assert(raw[2] == lng);
    assert(raw.take(lng - 2) =~= body);
    assert(raw[lng - 2] == (crc & 0xFFu16) as u8);
    assert(raw[lng - 1] == (crc >> 8u16) as u8);
    lemma_crc_bytes_roundtrip(crc);
    assert(raw.subrange(3, lng - 2) =~= data);
}

/// A buffer that decodes successfully starts with exactly the encoding of
/// the decoded frame.
pub proof fn lemma_encode_decode(raw: Seq<u8>)
    requires
        decode_spec(raw) is Ok,
    ensures
        ({
            let (addr, data) = decode_spec(raw)->Ok_0;
            &&& 1 <= data.len()
            &&& data.len() + 5 <= 255
            &&& encode_spec(addr, data) == raw.take(raw[2] as int)
        }),
{
    let lng = raw[2] as int;
    let (addr, data) = decode_spec(raw)->Ok_0;
    let crc = crc16_spec(raw.take(lng - 2));
    assert(frame_body(addr, data) =~= raw.take(lng - 2));
    let lo = raw[lng - 2];
    let hi = raw[lng - 1];
    assert(((lo as u16 | ((hi as u16) << 8u16)) & 0xFFu16) as u8 == lo
        && ((lo as u16 | ((hi as u16) << 8u16)) >> 8u16) as u8 == hi) by (bit_vector);
    assert(encode_spec(addr, data) =~= raw.take(lng));
}

/// One bit step of the checksum is linear over xor.
proof fn lemma_bit_step_linear(a: u16, b: u16)
    ensures
        crc_bit_step(a) ^ crc_bit_step(b) == crc_bit_step(a ^ b),
{
    assert(((if a & 1 != 0 { (a >> 1) ^ 0x8408u16 } else { a >> 1 }) ^ (if b & 1 != 0 {
        (b >> 1) ^ 0x8408u16
    } else {
        b >> 1
    })) == (if (a ^ b) & 1 != 0 { ((a ^ b) >> 1) ^ 0x8408u16 } else { (a ^ b) >> 1 }))
        by (bit_vector);
}

/// One bit step of the checksum maps a non-zero value to a non-zero one.
proof fn lemma_bit_step_nonzero(a: u16)
    requires
        a != 0,
    ensures
        crc_bit_step(a) != 0,
{
    assert(a != 0 ==> (if a & 1 != 0 { (a >> 1) ^ 0x8408u16 } else { a >> 1 }) != 0)
        by (bit_vector);
}

proof fn lemma_bit_steps_linear(a: u16, b: u16, n: nat)
    ensures
        crc_bit_steps(a, n) ^ crc_bit_steps(b, n) == crc_bit_steps(a ^ b, n),
    decreases n,
{
    if n > 0 {
        lemma_bit_step_linear(a, b);
        lemma_bit_steps_linear(crc_bit_step(a), crc_bit_step(b), (n - 1) as nat);
    }
}

proof fn lemma_bit_steps_nonzero(a: u16, n: nat)
    requires
        a != 0,
    ensures
        crc_bit_steps(a, n) != 0,
    decreases n,
{
    if n > 0 {
        lemma_bit_step_nonzero(a);
        lemma_bit_steps_nonzero(crc_bit_step(a), (n - 1) as nat);
    }
}

proof fn lemma_bit_steps_zero(n: nat)
    ensures
        crc_bit_steps(0, n) == 0,
    decreases n,
{
    if n > 0 {
        assert(crc_bit_step(0) == 0) by {
            assert((if 0u16 & 1 != 0 { (0u16 >> 1) ^ 0x8408u16 } else { 0u16 >> 1 }) == 0u16)
                by (bit_vector);
        }
        lemma_bit_steps_zero((n - 1) as nat);
    }
}

/// The checksum of `x`, xor the checksum of `y`, for two sequences that
/// differ only in byte `i`, is the checksum of the sequence that is zero
/// except for the difference at `i`; and that checksum is non-zero once
/// the difference is taken in.
proof fn lemma_crc_single_difference(x: Seq<u8>, y: Seq<u8>, i: int, k: int)
    requires
        x.len() == y.len(),
        0 <= i < x.len(),
        x[i] != y[i],
        forall|j: int| 0 <= j < x.len() && j != i ==> x[j] == y[j],
        0 <= k <= x.len(),
    ensures
        k <= i ==> crc16_spec(x.take(k)) == crc16_spec(y.take(k)),
        k > i ==> crc16_spec(x.take(k)) != crc16_spec(y.take(k)),
    decreases k,
{
    if k > 0 {
        lemma_crc_single_difference(x, y, i, k - 1);
        assert(x.take(k).drop_last() =~= x.take(k - 1));
        assert(y.take(k).drop_last() =~= y.take(k - 1));
        let cx = crc16_spec(x.take(k - 1));
        let cy = crc16_spec(y.take(k - 1));
        let bx = x[k - 1];
        let by = y[k - 1];
        lemma_bit_steps_linear(cx ^ (bx as u16), cy ^ (by as u16), 8);
        assert((cx ^ (bx as u16)) ^ (cy ^ (by as u16)) == (cx ^ cy) ^ ((bx ^ by) as u16))
            by (bit_vector);
        if k - 1 < i {
            assert(bx == by);
        } else if k - 1 == i {
            assert(cx == cy);
            assert(cx == cy && bx != by ==> (cx ^ cy) ^ ((bx ^ by) as u16) != 0) by (bit_vector);
            lemma_bit_steps_nonzero((cx ^ cy) ^ ((bx ^ by) as u16), 8);
            assert(crc_byte(cx, bx) ^ crc_byte(cy, by) != 0);
            assert(crc_byte(cx, bx) ^ crc_byte(cy, by) != 0 ==> crc_byte(cx, bx) != crc_byte(cy, by))
                by (bit_vector);
        } else {
            assert(bx == by);
            assert(cx != cy && bx == by ==> (cx ^ cy) ^ ((bx ^ by) as u16) != 0) by (bit_vector);
            lemma_bit_steps_nonzero((cx ^ cy) ^ ((bx ^ by) as u16), 8);
            assert(crc_byte(cx, bx) ^ crc_byte(cy, by) != 0 ==> crc_byte(cx, bx) != crc_byte(cy, by))
                by (bit_vector);
        }
    }
}

/// Every frame whose encoding reaches the decoder with exactly one byte
/// changed, anywhere but in LNG, is rejected: a changed SYNC byte is seen
/// as such, and the checksum detects every single corrupted byte of the
/// address, the payload or the checksum itself.
pub proof fn lemma_single_byte_corruption_detected(addr: u8, data: Seq<u8>, i: int, v: u8)
    requires
        1 <= data.len(),
        data.len() + 5 <= 255,
        0 <= i < encode_spec(addr, data).len(),
        i != 2,
        v != encode_spec(addr, data)[i],
    ensures
        decode_spec(encode_spec(addr, data).update(i, v)) is Err,
{
    let raw = encode_spec(addr, data);
    let bad = raw.update(i, v);
    let lng = data.len() + 5;
    let body = frame_body(addr, data);
    let crc = crc16_spec(body);
    assert(raw.take(lng - 2) =~= body);
    if i == 0 {
        assert(bad[0] != SYNC);
    } else {
        assert(bad[0] == SYNC);
        assert(bad[2] == lng);
        if i < lng - 2 {
            lemma_crc_single_difference(raw.take(lng - 2), bad.take(lng - 2), i, lng - 2);
            assert(raw.take(lng - 2).take(lng - 2) =~= raw.take(lng - 2));
            assert(bad.take(lng - 2).take(lng - 2) =~= bad.take(lng - 2));
            lemma_crc_bytes_roundtrip(crc);
            assert(carried_crc(bad, lng as int) == crc);
        } else {
            assert(bad.take(lng - 2) =~= body);
            let lo = raw[lng - 2];
            let hi = raw[lng - 1];
            let lo2 = bad[lng - 2];
            let hi2 = bad[lng - 1];
            assert(lo != lo2 || hi != hi2);
            assert((lo != lo2 || hi != hi2) ==> (lo as u16 | ((hi as u16) << 8u16)) != (lo2 as u16 | ((hi2 as u16) << 8u16)))
                by (bit_vector);
            lemma_crc_bytes_roundtrip(crc);
        }
    }
}

/// The low-byte mask of `n` bits, for `n <= 8`.
pub open spec fn low_bits_mask(n: u16) -> u16 {
    ((1u16 << n) - 1u16) as u16
}

/// Bit steps over a value whose low `n` bits are clear only shift it.
proof fn lemma_bit_steps_shift(x: u16, n: u16)
    requires
        n <= 8,
        x & low_bits_mask(n) == 0,
    ensures
        crc_bit_steps(x, n as nat) == x >> n,
    decreases n,
{
    if n == 0 {
        assert(x >> 0u16 == x) by (bit_vector);
    } else {
        assert(1 <= n <= 8 && x & (((1u16 << n) - 1u16) as u16) == 0 ==> x & 1 == 0) by (bit_vector);
        assert(crc_bit_step(x) == x >> 1u16);
        assert(1 <= n <= 8 && x & (((1u16 << n) - 1u16) as u16) == 0 ==> (x >> 1u16) & (((1u16 << ((n - 1) as u16)) - 1u16) as u16) == 0)
            by (bit_vector);
        lemma_bit_steps_shift(x >> 1u16, (n - 1) as u16);
        assert(1 <= n <= 8 ==> (x >> 1u16) >> ((n - 1) as u16) == x >> n) by (bit_vector);
    }
}

/// The checksum of a body followed by its own checksum bytes, least
/// significant first, is zero.
proof fn lemma_crc_residue(body: Seq<u8>)
    ensures
        crc16_spec(body + crc_bytes(crc16_spec(body))) == 0,
{
    let c = crc16_spec(body);
    let lo = (c & 0xFFu16) as u8;
    let hi = (c >> 8u16) as u8;
    let full = body + crc_bytes(c);
    assert(full.drop_last() =~= body.push(lo));
    assert(full.last() == hi);
    assert(body.push(lo).drop_last() =~= body);
    assert(body.push(lo).last() == lo);
    assert(c ^ (lo as u16) == c & 0xFF00u16) by (bit_vector)
        requires lo == (c & 0xFFu16) as u8;
    assert((c & 0xFF00u16) & (((1u16 << 8u16) - 1u16) as u16) == 0) by (bit_vector);
    lemma_bit_steps_shift(c & 0xFF00u16, 8);
    assert((c & 0xFF00u16) >> 8u16 == hi as u16) by (bit_vector)
        requires hi == (c >> 8u16) as u8;
    assert((hi as u16) ^ (hi as u16) == 0) by (bit_vector);
    lemma_bit_steps_zero(8);
    assert(crc16_spec(body.push(lo)) == crc_byte(c, lo));
    assert(crc_byte(c, lo) == crc_bit_steps(c & 0xFF00u16, 8));
    assert(crc16_spec(body.push(lo)) == hi as u16);
    assert(crc16_spec(full) == crc_byte(crc16_spec(body.push(lo)), hi));
    assert(crc_byte(hi as u16, hi) == crc_bit_steps(0u16, 8));
}

/// The checksum over a whole encoded frame, its checksum bytes included,
/// is zero.
pub proof fn lemma_encoded_frame_residue(addr: u8, data: Seq<u8>)
    ensures
        crc16_spec(encode_spec(addr, data)) == 0,
{
    lemma_crc_residue(frame_body(addr, data));
}

} // verus!
