//! Sensor-data unpacker for the packed 12-bit single-plane family.
//!
//! Two 12-bit samples are packed big-endian into each three-byte group:
//! the first sample is the first byte and the high nibble of the second,
//! the second sample is the low nibble of the second byte and the third
//! byte. Rows are packed contiguously at `raw_width` samples per row, so
//! a row of odd width would end in a partial group — that is corrupt
//! data, never silently dropped. Samples are widened to the common
//! 16-bit storage type. In strict mode a stream shorter than the full
//! sensor area is an `UnpackFailure`; in lenient mode the decodable
//! whole groups are unpacked and every remaining sample is set to the
//! declared black level — never a silent short buffer.

use vstd::prelude::*;
use crate::error::LibrawError;

verus! {

/// The sample stored in the first 12 bits of a group: byte `b0` and the
/// high nibble of `b1`, widened to 16 bits.
pub open spec fn sample_hi(b0: u8, b1: u8) -> u16 {
    (b0 as int * 16 + b1 as int / 16) as u16
}

/// The sample stored in the last 12 bits of a group: the low nibble of
/// `b1` and byte `b2`, widened to 16 bits.
pub open spec fn sample_lo(b1: u8, b2: u8) -> u16 {
    ((b1 as int % 16) * 256 + b2 as int) as u16
}

/// The `i`th sample of the packed stream that starts at byte `off` of
/// `b`: sample `i` lives in group `i / 2`.
pub open spec fn sample_at(b: Seq<u8>, off: int, i: int) -> u16
    recommends
        0 <= off,
        0 <= i,
        off + 3 * (i / 2) + 3 <= b.len(),
{
    if i % 2 == 0 {
        sample_hi(b[off + 3 * (i / 2)], b[off + 3 * (i / 2) + 1])
    } else {
        sample_lo(b[off + 3 * (i / 2) + 1], b[off + 3 * (i / 2) + 2])
    }
}

/// All samples of a self-contained packed stream: two per whole
/// three-byte group.
pub open spec fn spec_unpack12(b: Seq<u8>) -> Seq<u16> {
    Seq::new(2 * (b.len() / 3) as nat, |i: int| sample_at(b, 0, i))
}

/// Bytes a full sensor area of `w` by `h` samples occupies when packed:
/// three bytes for every two samples of every row.
pub open spec fn spec_needed_bytes(w: int, h: int) -> int {
    3 * (w / 2) * h
}

/// Bytes actually available for the sensor stream: the declared window
/// `[off, off + declared)` clipped to the end of the buffer.
pub open spec fn spec_avail_bytes(len: int, off: int, declared: int) -> int {
    if off > len {
        0
    } else if off + declared > len {
        len - off
    } else {
        declared
    }
}

/// Whole groups that will be decoded: all of them when the stream is
/// complete, otherwise every whole group the available bytes hold.
pub open spec fn spec_groups_decoded(len: int, off: int, declared: int, w: int, h: int) -> int {
    if spec_needed_bytes(w, h) <= spec_avail_bytes(len, off, declared) {
        (w / 2) * h
    } else {
        spec_avail_bytes(len, off, declared) / 3
    }
}

/// The full unpacked sample buffer: `w * h` samples in raw row-major
/// order, decoded samples first, every undecoded tail sample equal to
/// the declared black level.
pub open spec fn spec_unpack_result(
    b: Seq<u8>,
    off: int,
    declared: int,
    w: int,
    h: int,
    black: u16,
) -> Seq<u16> {
    Seq::new(
        (w * h) as nat,
        |i: int|
            if i < 2 * spec_groups_decoded(b.len() as int, off, declared, w, h) {
                sample_at(b, off, i)
            } else {
                black
            },
    )
}

/// Whether the sensor area's sample count and packed byte count both
/// fit the machine's address width.
pub open spec fn spec_area_fits(w: int, h: int) -> bool {
    w * h <= usize::MAX && spec_needed_bytes(w, h) <= usize::MAX
}

/// Unpack the packed 12-bit sensor stream of `data` declared at byte
/// window `[off, off + declared_len)` into a flat buffer of exactly
/// `raw_width * raw_height` widened samples in raw row-major order.
///
/// An odd `raw_width` means every row ends in a partial group: corrupt
/// data. A sensor area whose byte count overflows the address width is
/// rejected rather than decoded out of bounds. A window that holds
/// fewer bytes than the full area is an `UnpackFailure` in strict mode;
/// in lenient mode the whole groups present are decoded and the rest of
/// the buffer is filled with `black`.
pub fn unpack(
    data: &[u8],
    off: u32,
    declared_len: u32,
    raw_width: u16,
    raw_height: u16,
    black: u16,
    lenient: bool,
) -> (r: Result<Vec<u16>, LibrawError>)
    ensures
        raw_width % 2 != 0 ==> r == Err::<Vec<u16>, LibrawError>(LibrawError::UnpackFailure),
        raw_width % 2 == 0 && !spec_area_fits(raw_width as int, raw_height as int) ==> r == Err::<
            Vec<u16>,
            LibrawError,
        >(LibrawError::UnpackFailure),
        raw_width % 2 == 0 && spec_area_fits(raw_width as int, raw_height as int) && !lenient
            && spec_needed_bytes(raw_width as int, raw_height as int) > spec_avail_bytes(
            data@.len() as int,
            off as int,
            declared_len as int,
        ) ==> r == Err::<Vec<u16>, LibrawError>(LibrawError::UnpackFailure),
        raw_width % 2 == 0 && spec_area_fits(raw_width as int, raw_height as int) && (lenient
            || spec_needed_bytes(raw_width as int, raw_height as int) <= spec_avail_bytes(
            data@.len() as int,
            off as int,
            declared_len as int,
        )) ==> (r matches Ok(v) && v@ == spec_unpack_result(
            data@,
            off as int,
            declared_len as int,
            raw_width as int,
            raw_height as int,
            black,
        )),
{
    if raw_width % 2 != 0 {
        return Err(LibrawError::UnpackFailure);
    }
    let w64: u64 = raw_width as u64;
    let h64: u64 = raw_height as u64;
    proof {
        assert((w64 as int / 2) * h64 as int <= 0x8000 * 0x10000 && 0 <= (w64 as int / 2)
            * h64 as int && w64 as int * h64 as int <= 0x10000 * 0x10000 && 0 <= w64 as int
            * h64 as int) by (nonlinear_arith)
            requires
                0 <= w64 <= 0xffff,
                0 <= h64 <= 0xffff,
        ;
    }
    let groups_all: u64 = (w64 / 2) * h64;
    let needed: u64 = 3 * groups_all;
    let total: u64 = w64 * h64;
    proof {
        assert(3 * ((raw_width as int / 2) * raw_height as int) == 3 * (raw_width as int / 2)
            * raw_height as int) by (nonlinear_arith);
        assert(needed == spec_needed_bytes(raw_width as int, raw_height as int));
        assert(total == raw_width as int * raw_height as int);
    }
    if total > usize::MAX as u64 || needed > usize::MAX as u64 {
        return Err(LibrawError::UnpackFailure);
    }
    let len64: u64 = data.len() as u64;
    let off64: u64 = off as u64;
    let avail: u64 = if off64 > len64 {
        0
    } else if off64 + declared_len as u64 > len64 {
        len64 - off64
    } else {
        declared_len as u64
    };
    assert(avail == spec_avail_bytes(data@.len() as int, off as int, declared_len as int));
    if needed > avail && !lenient {
        return Err(LibrawError::UnpackFailure);
    }
    let groups: u64 = if needed <= avail {
        groups_all
    } else {
        avail / 3
    };
    proof {
        assert(groups == spec_groups_decoded(
            data@.len() as int,
            off as int,
            declared_len as int,
            raw_width as int,
            raw_height as int,
        ));
        assert(3 * (avail as int / 3) <= avail as int) by (nonlinear_arith);
        assert(2 * (avail as int / 3) <= 3 * (avail as int / 3)) by (nonlinear_arith)
            requires
                avail as int / 3 >= 0,
        ;
        assert(2 * groups <= total && 3 * groups <= needed) by (nonlinear_arith)
            requires
                groups == (if needed <= avail {
                    groups_all as int
                } else {
                    avail as int / 3
                }),
                groups_all == (raw_width as int / 2) * (raw_height as int),
                needed == 3 * groups_all,
                total == raw_width as int * raw_height as int,
                raw_width as int % 2 == 0,
                3 * (avail as int / 3) <= avail as int,
                2 * (avail as int / 3) <= 3 * (avail as int / 3),
                avail < needed || groups == groups_all,
                avail >= 0,
        ;
        assert(groups <= avail as int / 3 || 3 * groups <= avail) by (nonlinear_arith)
            requires
                groups == (if needed <= avail {
                    groups_all as int
                } else {
                    avail as int / 3
                }),
                needed == 3 * groups_all,
                needed <= avail || groups == avail as int / 3,
        ;
        assert(3 * groups <= avail as int) by (nonlinear_arith)
            requires
                groups <= avail as int / 3 || 3 * groups <= avail as int,
                3 * (avail as int / 3) <= avail as int,
                groups >= 0,
        ;
        assert(groups > 0 ==> avail > 0);
        assert(avail > 0 ==> off as int + avail <= data@.len());
        assert(groups > 0 ==> off as int + 3 * groups <= data@.len());
    }
    let gcount: usize = groups as usize;
    let total_us: usize = total as usize;
    let base: usize = off as usize;
    let mut out: Vec<u16> = Vec::with_capacity(total_us);
    let mut k: usize = 0;
    while k < gcount
        invariant
            k <= gcount,
            out@.len() == 2 * k,
            base == off as int,
            gcount > 0 ==> base + 3 * gcount <= data@.len(),
            data@.len() <= usize::MAX,
            forall|i: int| 0 <= i < 2 * k ==> out@[i] == sample_at(data@, base as int, i),
        decreases gcount - k,
    {
        let p: usize = base + 3 * k;
        let b0 = data[p];
        let b1 = data[p + 1];
        let b2 = data[p + 2];
        let s0: u16 = b0 as u16 * 16 + b1 as u16 / 16;
        let s1: u16 = (b1 as u16 % 16) * 256 + b2 as u16;
        out.push(s0);
        out.push(s1);
        proof {
            assert(2 * (k + 1) == 2 * k + 2);
            assert((2 * k as int) / 2 == k as int);
            assert((2 * k as int + 1) / 2 == k as int);
            assert(out@[2 * k as int] == sample_at(data@, base as int, 2 * k as int));
            assert(out@[2 * k as int + 1] == sample_at(data@, base as int, 2 * k as int + 1));
        }
        k = k + 1;
    }
    while out.len() < total_us
        invariant
            2 * gcount <= out@.len() <= total_us,
            forall|i: int|
                0 <= i < 2 * gcount ==> out@[i] == sample_at(data@, off as int, i),
            forall|i: int| 2 * gcount <= i < out@.len() ==> out@[i] == black,
        decreases total_us - out.len(),
    {
        out.push(black);
    }
    proof {
        assert(out@ =~= spec_unpack_result(
            data@,
            off as int,
            declared_len as int,
            raw_width as int,
            raw_height as int,
            black,
        ));
    }
    Ok(out)
}

/// Unpacking has no hidden state: the sample buffer is a function of
/// the input bytes and declared geometry alone, so re-unpacking the
/// same byte buffer yields an identical sample buffer.
pub proof fn lemma_unpack_deterministic(
    v1: Seq<u16>,
    v2: Seq<u16>,
    b: Seq<u8>,
    off: int,
    declared: int,
    w: int,
    h: int,
    black: u16,
)
    requires
        v1 == spec_unpack_result(b, off, declared, w, h, black),
        v2 == spec_unpack_result(b, off, declared, w, h, black),
    ensures
        v1 == v2,
{
}

/// When the declared window holds the whole packed area, the result is
/// exactly the stream-level unpacking of those bytes: every sample
/// decoded, none filled in.
pub proof fn lemma_complete_stream_unpacks_fully(
    b: Seq<u8>,
    off: int,
    declared: int,
    w: int,
    h: int,
    black: u16,
)
    requires
        0 <= off,
        0 <= w,
        0 <= h,
        w % 2 == 0,
        off + spec_needed_bytes(w, h) <= b.len(),
        spec_needed_bytes(w, h) <= spec_avail_bytes(b.len() as int, off, declared),
    ensures
        spec_unpack_result(b, off, declared, w, h, black) == spec_unpack12(
            b.subrange(off, off + spec_needed_bytes(w, h)),
        ),
{
    let g = (w / 2) * h;
    let needed = spec_needed_bytes(w, h);
    let sub = b.subrange(off, off + needed);
    assert(needed == 3 * g) by (nonlinear_arith)
        requires
            needed == 3 * (w / 2) * h,
            g == (w / 2) * h,
    ;
    assert(g >= 0) by (nonlinear_arith)
        requires
            g == (w / 2) * h,
            0 <= w,
            0 <= h,
    ;
    assert((3 * g) / 3 == g) by (nonlinear_arith)
        requires
            g >= 0,
    ;
    assert(sub.len() == needed);
    assert(spec_unpack12(sub).len() == 2 * g);
    assert(w * h == 2 * g) by (nonlinear_arith)
        requires
            g == (w / 2) * h,
            w % 2 == 0,
    ;
    assert(spec_groups_decoded(b.len() as int, off, declared, w, h) == g);
    let res = spec_unpack_result(b, off, declared, w, h, black);
    assert forall|i: int| 0 <= i < 2 * g implies res[i] == spec_unpack12(sub)[i] by {
        assert(0 <= i / 2 < g) by (nonlinear_arith)
            requires
                0 <= i < 2 * g,
        ;
        assert(3 * (i / 2) + 3 <= 3 * g) by (nonlinear_arith)
            requires
                i / 2 < g,
        ;
        assert(sub[3 * (i / 2)] == b[off + 3 * (i / 2)]);
        assert(sub[3 * (i / 2) + 1] == b[off + 3 * (i / 2) + 1]);
        assert(sub[3 * (i / 2) + 2] == b[off + 3 * (i / 2) + 2]);
        assert(sample_at(sub, 0, i) == sample_at(b, off, i));
    }
    assert(res =~= spec_unpack12(sub));
}

/// A truncated stream never yields a silent short buffer: the lenient
/// result still holds every one of the `w * h` samples, and each sample
/// past the decoded whole groups equals the declared black level.
pub proof fn lemma_lenient_tail_is_black(
    b: Seq<u8>,
    off: int,
    declared: int,
    w: int,
    h: int,
    black: u16,
)
    requires
        0 <= w,
        0 <= h,
    ensures
        spec_unpack_result(b, off, declared, w, h, black).len() == w * h,
        forall|i: int|
            0 <= i < w * h && 2 * spec_groups_decoded(b.len() as int, off, declared, w, h) <= i
                ==> spec_unpack_result(b, off, declared, w, h, black)[i] == black,
{
    assert(w * h >= 0) by (nonlinear_arith)
        requires
            0 <= w,
            0 <= h,
    ;
}

} // verus!
