// UBX field types: u1/i1/x1 are 8-bit unsigned, signed and bitfield values,
// u2/i2/x2 and u4/i4/x4 their 16- and 32-bit versions, r4/r8 IEEE floats,
// ch a character, and s_n an n-bit sign-magnitude integer.
use crate::neom9n::config::CfgStorage;
use vstd::arithmetic::div_mod::{lemma_add_mod_noop, lemma_add_mod_noop_right, lemma_mul_mod_noop_right};
use vstd::prelude::*;

verus! {

/// The UBX checksum (an 8-bit Fletcher sum) of `data`: over the bytes in
/// order, `a` accumulates each byte and `b` accumulates `a`, both modulo 256.
pub open spec fn spec_checksum(data: Seq<u8>) -> (u8, u8)
    decreases data.len(),
{
    if data.len() == 0 {
        (0, 0)
    } else {
        let prev = spec_checksum(data.drop_last());
        let a = ((prev.0 + data.last()) % 256) as u8;
        (a, ((prev.1 + a) % 256) as u8)
    }
}

/// The sum of the bytes of `s`.
pub open spec fn byte_sum(s: Seq<u8>) -> int
    decreases s.len(),
{
    if s.len() == 0 {
        0
    } else {
        byte_sum(s.drop_last()) + s.last()
    }
}

/// The sum, over every non-empty prefix of `s`, of the bytes in that prefix.
pub open spec fn prefix_sum_total(s: Seq<u8>) -> int
    decreases s.len(),
{
    if s.len() == 0 {
        0
    } else {
        prefix_sum_total(s.drop_last()) + byte_sum(s)
    }
}

/// Computes the UBX checksum of `data`.
pub fn checksum(data: &[u8]) -> (r: (u8, u8))
    ensures
        r == spec_checksum(data@),
{
    let mut check_a: u8 = 0;
    let mut check_b: u8 = 0;
    let n = data.len();
    for i in 0..n
        invariant
            n == data@.len(),
            (check_a, check_b) == spec_checksum(data@.take(i as int)),
    {
        assert(data@.take(i + 1).drop_last() =~= data@.take(i as int));
        check_a = check_a.wrapping_add(data[i]);
        check_b = check_b.wrapping_add(check_a);
    }
    assert(data@.take(n as int) =~= data@);
    (check_a, check_b)
}

/// The first checksum byte is the sum of the bytes modulo 256, and the second
/// is the sum of the running sums modulo 256.
pub proof fn lemma_checksum_sums(data: Seq<u8>)
    ensures
        spec_checksum(data).0 == byte_sum(data) % 256,
        spec_checksum(data).1 == prefix_sum_total(data) % 256,
    decreases data.len(),
{
    if data.len() > 0 {
        let d = data.drop_last();
        lemma_checksum_sums(d);
        lemma_add_mod_noop(byte_sum(d), data.last() as int, 256);
        lemma_add_mod_noop(prefix_sum_total(d), byte_sum(data), 256);
    }
}

/// The byte sum and the sum of running sums of a concatenation, from those
/// of its parts.
pub proof fn lemma_sums_concat(a: Seq<u8>, b: Seq<u8>)
    ensures
        byte_sum(a + b) == byte_sum(a) + byte_sum(b),
        prefix_sum_total(a + b) == prefix_sum_total(a) + b.len() * byte_sum(a) + prefix_sum_total(b),
    decreases b.len(),
{
    if b.len() == 0 {
        assert(a + b =~= a);
    } else {
        let b1 = b.drop_last();
        assert((a + b).drop_last() =~= a + b1);
        lemma_sums_concat(a, b1);
        let n = b1.len() as int;
        let s = byte_sum(a);
        assert((n + 1) * s == n * s + s) by (nonlinear_arith);
    }
}

/// Checksumming `a` followed by `b` continues from the checksum of `a`: the
/// first byte adds the bytes of `b`, and the second adds, for each byte of
/// `b`, the first byte of `a`'s checksum plus the running sum within `b`.
pub proof fn lemma_checksum_concat(a: Seq<u8>, b: Seq<u8>)
    ensures
        spec_checksum(a + b).0 == (spec_checksum(a).0 + byte_sum(b)) % 256,
        spec_checksum(a + b).1 == (spec_checksum(a).1 + b.len() * spec_checksum(a).0 + prefix_sum_total(b))
            % 256,
{
    lemma_checksum_sums(a + b);
    lemma_checksum_sums(a);
    lemma_sums_concat(a, b);
    let sa = byte_sum(a);
    let pa = prefix_sum_total(a);
    let n = b.len() as int;
    lemma_add_mod_noop_right(byte_sum(b), sa, 256);
    lemma_mul_mod_noop_right(n, sa, 256);
    lemma_add_mod_noop(pa, n * sa + prefix_sum_total(b), 256);
    lemma_add_mod_noop(n * sa, prefix_sum_total(b), 256);
    lemma_add_mod_noop(n * (sa % 256), prefix_sum_total(b), 256);
    lemma_add_mod_noop(pa % 256, n * (sa % 256) + prefix_sum_total(b), 256);
    assert(pa % 256 % 256 == pa % 256) by {
        lemma_add_mod_noop_right(0, pa, 256);
    }
}

/// The bytes of a buffer of length `old.len()` after `ubx_cfg_valset` has
/// written the header and the first `k` payload bytes into it.
pub open spec fn spec_valset_partial(layers: CfgStorage, payload: Seq<u8>, old: Seq<u8>, k: int) -> Seq<u8> {
    Seq::new(
        old.len(),
        |i: int|
            if i == 0 {
                0xb5u8
            } else if i == 1 {
                0x62u8
            } else if i == 2 {
                0x06u8
            } else if i == 3 {
                0x8au8
            } else if i == 4 {
                ((4 + payload.len()) % 256) as u8
            } else if i == 5 {
                0u8
            } else if i == 6 {
                layers.spec_bits()
            } else if i == 7 {
                0u8
            } else if 8 <= i < 8 + k {
                payload[i - 8]
            } else if i == 8 {
                0u8
            } else {
                old[i]
            },
    )
}

/// The buffer after `ubx_cfg_valset`: sync chars `b5 62`, class and id
/// `06 8a`, the payload length plus 4 (modulo 256) in byte 4, zero in byte 5,
/// the layer mask in byte 6, zero in bytes 7 and 8, then the payload from
/// byte 8 on (over byte 8), and the rest of the buffer as it was.
pub open spec fn spec_valset_frame(layers: CfgStorage, payload: Seq<u8>, old: Seq<u8>) -> Seq<u8> {
    spec_valset_partial(layers, payload, old, payload.len() as int)
}

/// Writes a UBX-CFG-VALSET header for `layers` and the key/value `payload` into `buf`.
///
/// The buffer must hold the header and the payload; bytes past them keep
/// their values, and no checksum is written.
pub fn ubx_cfg_valset(layers: CfgStorage, payload: &[u8], buf: &mut [u8])
    requires
        old(buf)@.len() >= 9,
        old(buf)@.len() >= 8 + payload@.len(),
    ensures
        final(buf)@ == spec_valset_frame(layers, payload@, old(buf)@),
{
    let ghost old_buf = buf@;
    // ubx header
    buf[0] = 0xb5;
    buf[1] = 0x62;

    // cfg valset id
    buf[2] = 0x06;
    buf[3] = 0x8a;

    // payload length
    buf[4] = ((4 + payload.len()) % 256) as u8;

    // version
    buf[5] = 0x00;

    // layers
    buf[6] = layers.bits();

    // reserved
    buf[7] = 0;
    buf[8] = 0;

    assert(buf@ =~= spec_valset_partial(layers, payload@, old_buf, 0));
    let n = payload.len();
    let len = buf.len();
    for i in 0..n
        invariant
            n == payload@.len(),
            len == old_buf.len(),
            old_buf.len() >= 8 + n,
            buf@ == spec_valset_partial(layers, payload@, old_buf, i as int),
    {
        buf[8 + i] = payload[i];
        assert(buf@ =~= spec_valset_partial(layers, payload@, old_buf, i + 1));
    }
}

/// The layout of a CFG-VALSET message: the sync chars and the message id,
/// the length (payload plus 4, modulo 256) in byte 4, the layer mask in
/// byte 6, the payload itself from byte 8 on, and the buffer past the
/// payload as it was.
pub proof fn lemma_valset_layout(layers: CfgStorage, payload: Seq<u8>, old: Seq<u8>)
    requires
        old.len() >= 9,
        old.len() >= 8 + payload.len(),
    ensures
        spec_valset_frame(layers, payload, old).len() == old.len(),
        spec_valset_frame(layers, payload, old).subrange(0, 4) == seq![0xb5u8, 0x62u8, 0x06u8, 0x8au8],
        spec_valset_frame(layers, payload, old)[4] as int == (payload.len() + 4) % 256,
        spec_valset_frame(layers, payload, old)[6] == layers.spec_bits(),
        spec_valset_frame(layers, payload, old).subrange(8, 8 + payload.len() as int) == payload,
        payload.len() > 0 ==> spec_valset_frame(layers, payload, old).subrange(
            8 + payload.len() as int,
            old.len() as int,
        ) == old.subrange(8 + payload.len() as int, old.len() as int),
{
    let f = spec_valset_frame(layers, payload, old);
    assert(f.subrange(0, 4) =~= seq![0xb5u8, 0x62u8, 0x06u8, 0x8au8]);
    assert(f.subrange(8, 8 + payload.len() as int) =~= payload);
    if payload.len() > 0 {
        assert(f.subrange(8 + payload.len() as int, old.len() as int) =~= old.subrange(
            8 + payload.len() as int,
            old.len() as int,
        ));
    }
}

} // verus!
