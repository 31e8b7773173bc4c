//! Framing of the messages sent over a named pipe: each message is its
//! length, as an eight-byte little-endian number, followed by its bytes.
use vstd::prelude::*;

verus! {

/// Number of bytes in a frame's length header.
pub const FRAME_HEADER_LEN: usize = 8;

/// 256 to the power `k`.
pub open spec fn pow256(k: nat) -> nat
    decreases k,
{
    if k == 0 {
        1
    } else {
        256 * pow256((k - 1) as nat)
    }
}

/// The `k` lowest base-256 digits of `n`, least significant first.
pub open spec fn le_bytes(n: nat, k: nat) -> Seq<u8>
    decreases k,
{
    if k == 0 {
        Seq::empty()
    } else {
        seq![(n % 256) as u8] + le_bytes(n / 256, (k - 1) as nat)
    }
}

/// The number whose base-256 digits, least significant first, are `s`.
pub open spec fn le_value(s: Seq<u8>) -> nat
    decreases s.len(),
{
    if s.len() == 0 {
        0
    } else {
        s[0] as nat + 256 * le_value(s.drop_first())
    }
}

/// The bytes of a frame that carries `payload`.
pub open spec fn frame_bytes(payload: Seq<u8>) -> Seq<u8> {
    le_bytes(payload.len(), FRAME_HEADER_LEN as nat) + payload
}

/// What reading one frame from the start of `buf` gives: the payload and the
/// number of bytes the frame takes, or nothing where `buf` does not hold a
/// whole frame.
pub open spec fn spec_decode_frame(buf: Seq<u8>) -> Option<(Seq<u8>, nat)> {
    if buf.len() < FRAME_HEADER_LEN {
        None
    } else {
        let n = le_value(buf.subrange(0, FRAME_HEADER_LEN as int));
        if FRAME_HEADER_LEN + n <= buf.len() {
            Some((buf.subrange(FRAME_HEADER_LEN as int, FRAME_HEADER_LEN + n), (FRAME_HEADER_LEN + n) as nat))
        } else {
            None
        }
    }
}

proof fn lemma_pow256_positive(k: nat)
    ensures
        pow256(k) >= 1,
    decreases k,
{
    if k > 0 {
        lemma_pow256_positive((k - 1) as nat);
    }
}

proof fn lemma_le_bytes_len(n: nat, k: nat)
    ensures
        le_bytes(n, k).len() == k,
    decreases k,
{
    if k > 0 {
        lemma_le_bytes_len(n / 256, (k - 1) as nat);
    }
}

/// Reading back the `k` digits of a number below `256^k` gives the number.
pub proof fn lemma_le_roundtrip(n: nat, k: nat)
    requires
        n < pow256(k),
    ensures
        le_bytes(n, k).len() == k,
        le_value(le_bytes(n, k)) == n,
    decreases k,
{
    lemma_le_bytes_len(n, k);
    if k > 0 {
        let q = n / 256;
        let p = pow256((k - 1) as nat);
        vstd::arithmetic::div_mod::lemma_fundamental_div_mod(n as int, 256);
        assert(q < p) by (nonlinear_arith)
            requires
                n == 256 * q + n % 256,
                n < 256 * p,
                n % 256 >= 0,
        ;
        lemma_le_roundtrip(q, (k - 1) as nat);
        let s = le_bytes(n, k);
        assert(s.drop_first() =~= le_bytes(q, (k - 1) as nat));
        assert(s[0] as nat == n % 256);
    }
}

/// A value read from `k` bytes is below `256^k`.
pub proof fn lemma_le_value_bound(s: Seq<u8>)
    ensures
        le_value(s) < pow256(s.len()),
    decreases s.len(),
{
    if s.len() > 0 {
        lemma_le_value_bound(s.drop_first());
        let v = le_value(s.drop_first());
        let p = pow256(s.drop_first().len());
        assert(s[0] as nat + 256 * v < 256 * p) by (nonlinear_arith)
            requires
                v < p,
                s[0] < 256,
        ;
    }
}

/// The bytes of a frame carrying `payload`.
pub fn encode_frame(payload: &[u8]) -> (r: Vec<u8>)
    ensures
        r@ == frame_bytes(payload@),
{
    let len: u64 = payload.len() as u64;
    let mut v: u64 = len;
    let mut r: Vec<u8> = Vec::new();
    let mut i: usize = 0;
    while i < FRAME_HEADER_LEN
        invariant
            i <= FRAME_HEADER_LEN,
            len == payload@.len(),
            r@ + le_bytes(v as nat, (FRAME_HEADER_LEN - i) as nat) == le_bytes(len as nat, FRAME_HEADER_LEN as nat),
        decreases FRAME_HEADER_LEN - i,
    {
        let ghost k = (FRAME_HEADER_LEN - i) as nat;
        let ghost before = r@;
        let digit: u8 = (v % 256) as u8;
        r.push(digit);
        let ghost vv = v;
        v = v / 256;
        proof {
            assert(le_bytes(vv as nat, k) == seq![(vv as nat % 256) as u8] + le_bytes(v as nat, (k - 1) as nat));
            assert(r@ + le_bytes(v as nat, (k - 1) as nat) =~= before + le_bytes(vv as nat, k));
        }
        i = i + 1;
    }
    assert(r@ =~= r@ + le_bytes(v as nat, 0));
    let mut j: usize = 0;
    let ghost header = r@;
    while j < payload.len()
        invariant
            j <= payload@.len(),
            r@ == header + payload@.subrange(0, j as int),
        decreases payload@.len() - j,
    {
        r.push(payload[j]);
        j = j + 1;
        proof {
            assert(r@ =~= header + payload@.subrange(0, j as int));
        }
    }
    assert(payload@.subrange(0, payload@.len() as int) =~= payload@);
    r
}

/// The payload length that a frame's header announces, or nothing where the
/// header is not exactly `FRAME_HEADER_LEN` bytes long.
pub fn frame_payload_len(header: &[u8]) -> (r: Option<u64>)
    ensures
        header@.len() == FRAME_HEADER_LEN ==> (r matches Some(n) && n == le_value(header@)),
        header@.len() != FRAME_HEADER_LEN ==> r is None,
{
    if header.len() != FRAME_HEADER_LEN {
        return None;
    }
    let n = read_le(header, FRAME_HEADER_LEN);
    assert(header@.subrange(0, FRAME_HEADER_LEN as int) =~= header@);
    Some(n)
}

fn read_le(buf: &[u8], k: usize) -> (r: u64)
    requires
        k <= FRAME_HEADER_LEN,
        k <= buf@.len(),
    ensures
        r == le_value(buf@.subrange(0, k as int)),
{
    let mut acc: u64 = 0;
    let mut i: usize = k;
    proof {
        lemma_pow256_eight();
    }
    while i > 0
        invariant
            i <= k <= FRAME_HEADER_LEN,
            k <= buf@.len(),
            pow256(8) == 0x1_0000_0000_0000_0000,
            acc == le_value(buf@.subrange(i as int, k as int)),
        decreases i,
    {
        let ghost rest = buf@.subrange(i as int, k as int);
        let ghost s = buf@.subrange(i - 1, k as int);
        proof {
            assert(s.drop_first() =~= rest);
            lemma_le_value_bound(s);
            lemma_pow_mono(s.len(), 8);
        }
        acc = acc * 256 + buf[i - 1] as u64;
        i = i - 1;
    }
    acc
}

proof fn lemma_pow256_eight()
    ensures
        pow256(8) == 0x1_0000_0000_0000_0000,
{
    reveal_with_fuel(pow256, 9);
}

proof fn lemma_pow_mono(a: nat, b: nat)
    requires
        a <= b,
    ensures
        pow256(a) <= pow256(b),
    decreases b,
{
    if a < b {
        lemma_pow_mono(a, (b - 1) as nat);
        lemma_pow256_positive((b - 1) as nat);
    }
}

/// Reads one frame from the start of `buf`: its payload and the number of
/// bytes the frame takes, or `None` where `buf` does not hold a whole frame.
pub fn decode_frame(buf: &[u8]) -> (r: Option<(Vec<u8>, usize)>)
    ensures
        match r {
            Some((p, used)) => spec_decode_frame(buf@) == Some((p@, used as nat)),
            None => spec_decode_frame(buf@) is None,
        },
{
    if buf.len() < FRAME_HEADER_LEN {
        return None;
    }
    let n = read_le(buf, FRAME_HEADER_LEN);
    let avail: usize = buf.len() - FRAME_HEADER_LEN;
    if n > avail as u64 {
        return None;
    }
    let n: usize = n as usize;
    let mut p: Vec<u8> = Vec::new();
    let mut j: usize = 0;
    while j < n
        invariant
            j <= n,
            FRAME_HEADER_LEN + n <= buf@.len(),
            FRAME_HEADER_LEN + n <= buf.len(),
            p@ == buf@.subrange(FRAME_HEADER_LEN as int, FRAME_HEADER_LEN + j),
        decreases n - j,
    {
        p.push(buf[FRAME_HEADER_LEN + j]);
        j = j + 1;
        proof {
            assert(p@ =~= buf@.subrange(FRAME_HEADER_LEN as int, FRAME_HEADER_LEN + j));
        }
    }
    Some((p, FRAME_HEADER_LEN + n))
}

/// Law: a frame read back from the start of a buffer gives the payload it was
/// made from and its own length, whatever bytes follow it.
pub proof fn law_frame_roundtrip(payload: Seq<u8>, rest: Seq<u8>)
    requires
        payload.len() < pow256(FRAME_HEADER_LEN as nat),
    ensures
        spec_decode_frame(frame_bytes(payload) + rest) == Some((payload, (FRAME_HEADER_LEN + payload.len()) as nat)),
{
    lemma_le_roundtrip(payload.len(), FRAME_HEADER_LEN as nat);
    let buf = frame_bytes(payload) + rest;
    let h = le_bytes(payload.len(), FRAME_HEADER_LEN as nat);
    assert(buf.subrange(0, FRAME_HEADER_LEN as int) =~= h);
    assert(buf.subrange(FRAME_HEADER_LEN as int, FRAME_HEADER_LEN + payload.len()) =~= payload);
}

/// The bytes of a series of frames, one after another, carrying the payloads
/// in order.
pub open spec fn frames_bytes(payloads: Seq<Seq<u8>>) -> Seq<u8>
    decreases payloads.len(),
{
    if payloads.len() == 0 {
        Seq::empty()
    } else {
        frame_bytes(payloads[0]) + frames_bytes(payloads.drop_first())
    }
}

/// The payloads of the whole frames at the start of `buf`, read one after
/// another until no whole frame is left.
pub open spec fn decode_frames(buf: Seq<u8>) -> Seq<Seq<u8>>
    decreases buf.len(),
{
    match spec_decode_frame(buf) {
        Some((p, used)) => if 0 < used <= buf.len() {
            seq![p] + decode_frames(buf.skip(used as int))
        } else {
            Seq::empty()
        },
        None => Seq::empty(),
    }
}

/// Law: frames sent one after another are read back as their payloads, in
/// the order they were sent.
pub proof fn law_frames_in_order(payloads: Seq<Seq<u8>>)
    requires
        forall|i: int| 0 <= i < payloads.len() ==> (#[trigger] payloads[i]).len() < pow256(FRAME_HEADER_LEN as nat),
    ensures
        decode_frames(frames_bytes(payloads)) == payloads,
    decreases payloads.len(),
{
    if payloads.len() == 0 {
        assert(spec_decode_frame(Seq::<u8>::empty()) is None);
        assert(decode_frames(frames_bytes(payloads)) =~= payloads);
    } else {
        let first = payloads[0];
        let rest = payloads.drop_first();
        assert forall|i: int| 0 <= i < rest.len() implies (#[trigger] rest[i]).len() < pow256(FRAME_HEADER_LEN as nat) by {
            assert(rest[i] == payloads[i + 1]);
        }
        law_frames_in_order(rest);
        law_frame_roundtrip(first, frames_bytes(rest));
        lemma_le_roundtrip(first.len(), FRAME_HEADER_LEN as nat);
        let buf = frames_bytes(payloads);
        let used = FRAME_HEADER_LEN + first.len();
        assert(buf.skip(used as int) =~= frames_bytes(rest));
        assert(seq![first] + rest =~= payloads);
    }
}

/// Law: a buffer shorter than a whole frame yields no frame.
pub proof fn law_frame_incomplete(payload: Seq<u8>, cut: nat)
    requires
        payload.len() < pow256(FRAME_HEADER_LEN as nat),
        cut < frame_bytes(payload).len(),
    ensures
        spec_decode_frame(frame_bytes(payload).subrange(0, cut as int)) is None,
{
    lemma_le_roundtrip(payload.len(), FRAME_HEADER_LEN as nat);
    let buf = frame_bytes(payload).subrange(0, cut as int);
    if cut >= FRAME_HEADER_LEN {
        assert(buf.subrange(0, FRAME_HEADER_LEN as int) =~= le_bytes(payload.len(), FRAME_HEADER_LEN as nat));
    }
}

} // verus!
