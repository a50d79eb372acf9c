use vstd::prelude::*;

use crate::error::Error;
use crate::frame::{decode_result_view, decode_spec, encode_spec, lemma_decode_encode, Frame, SYNC};

verus! {

/// What one received byte does: the buffer after it, and the frame that
/// it completes, if any.
pub open spec fn rx_step(buf: Seq<u8>, byte: u8) -> (Seq<u8>, Option<Result<(u8, Seq<u8>), Error>>) {
    if buf.len() == 0 {
        if byte == SYNC {
            (seq![byte], None)
        } else {
            (buf, None)
        }
    } else if buf.len() == 1 {
        (buf.push(byte), None)
    } else if buf.len() == 2 {
        if byte < 6 {
            (Seq::empty(), Some(Err(Error::InvalidFrame("LNG < 6 in received frame"))))
        } else {
            (buf.push(byte), None)
        }
    } else if buf.len() + 1 == buf[2] {
        (Seq::empty(), Some(decode_spec(buf.push(byte))))
    } else {
        (buf.push(byte), None)
    }
}

/// Receiving the bytes of `bytes` one after the other from buffer `buf`:
/// the final buffer and what each byte yielded.
pub open spec fn rx_run(buf: Seq<u8>, bytes: Seq<u8>) -> (Seq<u8>, Seq<Option<Result<(u8, Seq<u8>), Error>>>)
    decreases bytes.len(),
{
    if bytes.len() == 0 {
        (buf, Seq::empty())
    } else {
        let (b1, outs) = rx_run(buf, bytes.drop_last());
        let (b2, out) = rx_step(b1, bytes.last());
        (b2, outs.push(out))
    }
}

/// How many bytes the receiver needs before it can take its next decision:
/// one while it hunts for SYNC, the rest of the ADR and LNG header, then
/// the rest of the frame.
pub open spec fn wanted_spec(buf: Seq<u8>) -> int {
    if buf.len() == 0 {
        1
    } else if buf.len() < 3 {
        3 - buf.len()
    } else {
        buf[2] - buf.len()
    }
}

/// The byte-level receiver of CCNET frames. Bytes before a SYNC byte are
/// discarded; after SYNC, ADR and LNG it collects the frame that LNG
/// announces and decodes it.
pub struct FrameReceiver {
    buf: Vec<u8>,
}

impl View for FrameReceiver {
    type V = Seq<u8>;

    closed spec fn view(&self) -> Seq<u8> {
        self.buf@
    }
}

/// Whether `buf` is a buffer the receiver can be in: empty, or the start
/// of a frame that is not complete yet.
pub open spec fn rx_buffer_ok(buf: Seq<u8>) -> bool {
    buf.len() == 0 || (buf[0] == SYNC && (buf.len() < 3 || (buf[2] >= 6 && buf.len() < buf[2])))
}

impl FrameReceiver {
    #[verifier::type_invariant]
    spec fn buffer_ok(self) -> bool {
        rx_buffer_ok(self.buf@)
    }

    /// A receiver hunting for the next SYNC byte.
    pub fn new() -> (rx: FrameReceiver)
        ensures
            rx@ == Seq::<u8>::empty(),
    {
        FrameReceiver { buf: Vec::new() }
    }

    /// Whether the receiver is still looking for a SYNC byte.
    pub fn is_hunting(&self) -> (b: bool)
        ensures
            b == (self@.len() == 0),
    {
        self.buf.len() == 0
    }

    /// How many bytes to read before the next decision (at least one).
    pub fn bytes_wanted(&self) -> (n: usize)
        ensures
            n == wanted_spec(self@),
            n >= 1,
    {
        proof {
            use_type_invariant(self);
        }
        let len = self.buf.len();
        if len == 0 {
            1
        } else if len < 3 {
            3 - len
        } else {
            self.buf[2] as usize - len
        }
    }

    /// Takes one received byte; returns the decoded frame, or the error
    /// that rejects it, when this byte completes one.
    pub fn feed(&mut self, byte: u8) -> (r: Option<Result<Frame, Error>>)
        ensures
            (final(self)@, match r {
                Some(x) => Some(decode_result_view(x)),
                None => None,
            }) == rx_step(old(self)@, byte),
    {
        proof {
            use_type_invariant(&*self);
        }
        let mut buf: Vec<u8> = Vec::new();
        std::mem::swap(&mut buf, &mut self.buf);
        let len = buf.len();
        if len == 0 {
            if byte == SYNC {
                buf.push(byte);
            }
            self.buf = buf;
            return None;
        }
        if len == 2 && byte < 6 {
            return Some(Err(Error::InvalidFrame("LNG < 6 in received frame")));
        }
        if len >= 3 && len + 1 == buf[2] as usize {
            buf.push(byte);
            return Some(Frame::decode(buf.as_slice()));
        }
        buf.push(byte);
        self.buf = buf;
        None
    }
}

/// Bytes without a SYNC byte among them leave a hunting receiver hunting,
/// and yield nothing.
pub proof fn lemma_noise_ignored(noise: Seq<u8>)
    requires
        forall|i: int| 0 <= i < noise.len() ==> noise[i] != SYNC,
    ensures
        rx_run(Seq::empty(), noise).0 == Seq::<u8>::empty(),
        forall|i: int| 0 <= i < noise.len() ==> #[trigger] rx_run(Seq::empty(), noise).1[i] is None,
        rx_run(Seq::empty(), noise).1.len() == noise.len(),
    decreases noise.len(),
{
    if noise.len() > 0 {
        lemma_noise_ignored(noise.drop_last());
    }
}

/// Running the receiver over `prefix + more` is running it over `prefix`,
/// then over `more` from where it stopped.
proof fn lemma_run_append(buf: Seq<u8>, prefix: Seq<u8>, more: Seq<u8>)
    ensures
        rx_run(buf, prefix + more).0 == rx_run(rx_run(buf, prefix).0, more).0,
        rx_run(buf, prefix + more).1 == rx_run(buf, prefix).1 + rx_run(rx_run(buf, prefix).0, more).1,
    decreases more.len(),
{
    if more.len() == 0 {
        assert(prefix + more =~= prefix);
        assert(rx_run(buf, prefix).1 + Seq::empty() =~= rx_run(buf, prefix).1);
    } else {
        lemma_run_append(buf, prefix, more.drop_last());
        assert((prefix + more).drop_last() =~= prefix + more.drop_last());
        assert((prefix + more).last() == more.last());
        let inner = rx_run(rx_run(buf, prefix).0, more.drop_last());
        assert(rx_run(buf, prefix).1 + inner.1.push(rx_step(inner.0, more.last()).1)
            =~= (rx_run(buf, prefix).1 + inner.1).push(rx_step(inner.0, more.last()).1));
    }
}

/// The first `k` bytes of a frame's encoding, received from a hunting
/// receiver, are buffered and yield nothing.
proof fn lemma_frame_prefix(raw: Seq<u8>, k: int)
    requires
        raw.len() >= 6,
        raw[0] == SYNC,
        raw[2] == raw.len(),
        1 <= k < raw.len(),
    ensures
        rx_run(Seq::empty(), raw.take(k)).0 == raw.take(k),
        rx_run(Seq::empty(), raw.take(k)).1.len() == k,
        forall|i: int| 0 <= i < k ==> #[trigger] rx_run(Seq::empty(), raw.take(k)).1[i] is None,
    decreases k,
{
    let e = Seq::<u8>::empty();
    if k > 1 {
        lemma_frame_prefix(raw, k - 1);
        let prev = raw.take(k - 1);
        assert(raw.take(k).drop_last() =~= prev);
        assert(raw.take(k).last() == raw[k - 1]);
        assert(prev.push(raw[k - 1]) =~= raw.take(k));
        if k - 1 >= 3 {
            assert(prev[2] == raw[2]);
        }
        assert(rx_step(prev, raw[k - 1]).0 == raw.take(k));
    } else {
        assert(raw.take(k).drop_last() =~= e);
        assert(raw.take(k).last() == raw[0]);
        assert(rx_run(e, e) == (e, Seq::<Option<Result<(u8, Seq<u8>), Error>>>::empty()));
        assert(seq![raw[0]] =~= raw.take(1));
    }
}

/// While a frame is being received, the count of bytes the receiver asks
/// for never reaches past the frame: after SYNC it asks for the two header
/// bytes, after the header for exactly the rest of the frame.
pub proof fn lemma_wanted_within_frame(raw: Seq<u8>, k: int)
    requires
        raw.len() >= 6,
        raw[0] == SYNC,
        raw[2] == raw.len(),
        1 <= k < raw.len(),
    ensures
        wanted_spec(raw.take(k)) >= 1,
        k < 3 ==> k + wanted_spec(raw.take(k)) == 3,
        k >= 3 ==> k + wanted_spec(raw.take(k)) == raw.len(),
        wanted_spec(Seq::empty()) == 1,
{
}

/// A hunting receiver that gets noise without SYNC bytes and then the
/// encoding of a frame yields nothing until the frame's last byte, which
/// yields that frame; the receiver is then hunting again.
pub proof fn lemma_receive_frame(noise: Seq<u8>, addr: u8, data: Seq<u8>)
    requires
        forall|i: int| 0 <= i < noise.len() ==> noise[i] != SYNC,
        1 <= data.len(),
        data.len() + 5 <= 255,
    ensures
        ({
            let bytes = noise + encode_spec(addr, data);
            let (buf, outs) = rx_run(Seq::empty(), bytes);
            &&& buf == Seq::<u8>::empty()
            &&& outs.len() == bytes.len()
            &&& forall|i: int| 0 <= i < bytes.len() - 1 ==> #[trigger] outs[i] is None
            &&& outs[bytes.len() - 1] == Some(Ok::<(u8, Seq<u8>), Error>((addr, data)))
        }),
{
    let raw = encode_spec(addr, data);
    let n = raw.len() as int;
    lemma_noise_ignored(noise);
    lemma_run_append(Seq::empty(), noise, raw);
    lemma_frame_prefix(raw, n - 1);
    assert(raw.drop_last() =~= raw.take(n - 1));
    lemma_decode_encode(addr, data, Seq::empty());
    assert(raw + Seq::<u8>::empty() =~= raw);
    assert(raw.take(n - 1).push(raw.last()) =~= raw);
    let bytes = noise + raw;
    let outs = rx_run(Seq::empty(), bytes).1;
    assert forall|i: int| 0 <= i < bytes.len() - 1 implies #[trigger] outs[i] is None by {
        if i >= noise.len() {
            assert(outs[i] == rx_run(Seq::empty(), raw).1[i - noise.len()]);
        }
    }
}

} // verus!
