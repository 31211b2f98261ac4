//! Bit-exact encoder and decoder for the zfp compression filter's binary
//! header block, and the pure decisions of the compression adapter.
//!
//! The parameter block persisted for a zfp filter slot is one version word
//! followed by the codec's self-describing header bitstream: a 32-bit
//! magic, 52 bits of field metadata (scalar type, dimensionality and
//! per-dimension extents), and a compression-mode code of 12 bits for the
//! common configurations or 64 bits otherwise.  The layouts here follow
//! the codec's own header protocol word for word, so a block produced
//! here decodes identically in independent implementations and vice
//! versa.  The words carry the header bitstream in its little-endian
//! memory layout, the form the decoder's single byte-swap retry also
//! accepts from the other byte order.  Floating-point parameters
//! (rate, tolerance) are carried as
//! IEEE 754 double-precision bit patterns and all arithmetic on them is
//! integer arithmetic on those patterns.

use vstd::arithmetic::power2::{
    lemma2_to64, lemma2_to64_rest, lemma_pow2_adds, lemma_pow2_pos, lemma_pow2_strictly_increases,
    pow2,
};
use vstd::prelude::*;

use crate::filters::spec_config_dims;
use crate::filters::ZfpMode;
use crate::Error;

verus! {

/// The zfp filter supports at most this many non-singleton dimensions.
pub const MAX_NDIMS: usize = 4;

/// Smallest number of compressed bits per block.
pub const ZFP_MIN_BITS: u32 = 1;

/// Largest number of compressed bits per block.
pub const ZFP_MAX_BITS: u32 = 16658;

/// Largest bit-plane precision.
pub const ZFP_MAX_PREC: u32 = 64;

/// Smallest base-2 exponent of a representable double.
pub const ZFP_MIN_EXP: i32 = -1074;

/// Codec scalar type codes.
pub const ZFP_TYPE_INT32: u32 = 1;

pub const ZFP_TYPE_INT64: u32 = 2;

pub const ZFP_TYPE_FLOAT: u32 = 3;

pub const ZFP_TYPE_DOUBLE: u32 = 4;

/// Compression-mode codes, as the codec numbers them.
pub const ZFP_MODE_NULL: u32 = 0;

pub const ZFP_MODE_EXPERT: u32 = 1;

pub const ZFP_MODE_RATE: u32 = 2;

pub const ZFP_MODE_PRECISION: u32 = 3;

pub const ZFP_MODE_ACCURACY: u32 = 4;

pub const ZFP_MODE_REVERSIBLE: u32 = 5;

/// Largest 12-bit (short) mode code; larger codes take 64 bits.
pub const ZFP_MODE_SHORT_MAX: u64 = 4094;

/// The compression parameters of a codec stream: block bit budget
/// `[minbits, maxbits]`, bit-plane precision limit, and smallest block
/// exponent.
#[derive(Clone, Copy, Debug, PartialEq, Eq, Structural)]
pub struct ZfpStreamParams {
    pub minbits: u32,
    pub maxbits: u32,
    pub maxprec: u32,
    pub minexp: i32,
}

/// Classifies stream parameters into a compression-mode code, exactly as
/// the codec does: invalid parameters are null; the default parameter set
/// is expert; then fixed rate, fixed precision, fixed accuracy and
/// reversible are recognized by shape; anything else is expert.
pub open spec fn spec_compression_mode(p: ZfpStreamParams) -> u32 {
    if p.minbits > p.maxbits || !(0 < p.maxprec && p.maxprec <= ZFP_MAX_PREC) {
        ZFP_MODE_NULL
    } else if p.minbits == ZFP_MIN_BITS && p.maxbits == ZFP_MAX_BITS && p.maxprec == ZFP_MAX_PREC
        && p.minexp == ZFP_MIN_EXP {
        ZFP_MODE_EXPERT
    } else if p.minbits == p.maxbits && ZFP_MIN_BITS <= p.maxbits && p.maxbits <= ZFP_MAX_BITS
        && p.maxprec >= ZFP_MAX_PREC && p.minexp == ZFP_MIN_EXP {
        ZFP_MODE_RATE
    } else if p.minbits <= ZFP_MIN_BITS && p.maxbits >= ZFP_MAX_BITS && p.maxprec >= 1
        && p.minexp == ZFP_MIN_EXP {
        ZFP_MODE_PRECISION
    } else if p.minbits <= ZFP_MIN_BITS && p.maxbits >= ZFP_MAX_BITS && p.maxprec >= ZFP_MAX_PREC
        && p.minexp >= ZFP_MIN_EXP {
        ZFP_MODE_ACCURACY
    } else if p.minbits <= ZFP_MIN_BITS && p.maxbits >= ZFP_MAX_BITS && p.maxprec >= ZFP_MAX_PREC
        && p.minexp < ZFP_MIN_EXP {
        ZFP_MODE_REVERSIBLE
    } else {
        ZFP_MODE_EXPERT
    }
}

/// Returns the compression-mode code of the given stream parameters.
pub fn zfp_stream_compression_mode(p: &ZfpStreamParams) -> (r: u32)
    ensures
        r == spec_compression_mode(*p),
{
    if p.minbits > p.maxbits || !(0 < p.maxprec && p.maxprec <= ZFP_MAX_PREC) {
        ZFP_MODE_NULL
    } else if p.minbits == ZFP_MIN_BITS && p.maxbits == ZFP_MAX_BITS && p.maxprec == ZFP_MAX_PREC
        && p.minexp == ZFP_MIN_EXP {
        ZFP_MODE_EXPERT
    } else if p.minbits == p.maxbits && ZFP_MIN_BITS <= p.maxbits && p.maxbits <= ZFP_MAX_BITS
        && p.maxprec >= ZFP_MAX_PREC && p.minexp == ZFP_MIN_EXP {
        ZFP_MODE_RATE
    } else if p.minbits <= ZFP_MIN_BITS && p.maxbits >= ZFP_MAX_BITS && p.maxprec >= 1
        && p.minexp == ZFP_MIN_EXP {
        ZFP_MODE_PRECISION
    } else if p.minbits <= ZFP_MIN_BITS && p.maxbits >= ZFP_MAX_BITS && p.maxprec >= ZFP_MAX_PREC
        && p.minexp >= ZFP_MIN_EXP {
        ZFP_MODE_ACCURACY
    } else if p.minbits <= ZFP_MIN_BITS && p.maxbits >= ZFP_MAX_BITS && p.maxprec >= ZFP_MAX_PREC
        && p.minexp < ZFP_MIN_EXP {
        ZFP_MODE_REVERSIBLE
    } else {
        ZFP_MODE_EXPERT
    }
}

/// Clamps `x` to `[1, hi]` in the way the long mode encoding does.
pub open spec fn spec_clamp1(x: int, hi: int) -> int {
    if x > hi {
        hi
    } else if x < 1 {
        1
    } else {
        x
    }
}

/// Packs the four already-clamped long-code fields around the all-ones
/// low twelve bits.
pub open spec fn spec_long_word(minbits: u64, maxbits: u64, maxprec: u64, minexp: u64) -> u64 {
    0xfffu64 | (minbits << 12) | (maxbits << 27) | (maxprec << 42) | (minexp << 49)
}

/// The 64-bit (long) mode code: low twelve bits all set, then, in
/// ascending bit position, `minbits - 1` and `maxbits - 1` on fifteen
/// bits each, `maxprec - 1` on seven bits, and `minexp + 16495` on
/// fifteen bits, each clamped to its field's range first.
pub open spec fn spec_mode_word_long(p: ZfpStreamParams) -> u64 {
    let minbits = (spec_clamp1(p.minbits as int, 0x8000) - 1) as u64;
    let maxbits = (spec_clamp1(p.maxbits as int, 0x8000) - 1) as u64;
    let maxprec = (spec_clamp1(p.maxprec as int, 0x80) - 1) as u64;
    let minexp = (if p.minexp + 16495 > 0x7fff {
        0x7fff
    } else if p.minexp + 16495 < 0 {
        0
    } else {
        p.minexp + 16495
    }) as u64;
    spec_long_word(minbits, maxbits, maxprec, minexp)
}

/// The mode code embedded in a header: a 12-bit short code for the common
/// configurations (fixed rate up to 2048 bits per block, fixed precision,
/// fixed accuracy down to exponent -1074, reversible), the long code
/// otherwise.
pub open spec fn spec_mode_word(p: ZfpStreamParams) -> u64 {
    let m = spec_compression_mode(p);
    if m == ZFP_MODE_RATE && p.maxbits <= 2048 {
        (p.maxbits - 1) as u64
    } else if m == ZFP_MODE_PRECISION && p.maxprec <= 128 {
        (p.maxprec + 2047) as u64
    } else if m == ZFP_MODE_ACCURACY && p.minexp <= 843 {
        (p.minexp + 3251) as u64
    } else if m == ZFP_MODE_REVERSIBLE {
        2176u64
    } else {
        spec_mode_word_long(p)
    }
}

/// Returns the mode code that a header for these stream parameters
/// carries.
pub fn zfp_stream_mode(p: &ZfpStreamParams) -> (r: u64)
    ensures
        r == spec_mode_word(*p),
{
    let m = zfp_stream_compression_mode(p);
    if m == ZFP_MODE_RATE && p.maxbits <= 2048 {
        return (p.maxbits - 1) as u64;
    }
    if m == ZFP_MODE_PRECISION && p.maxprec <= 128 {
        return (p.maxprec + 2047) as u64;
    }
    if m == ZFP_MODE_ACCURACY && p.minexp <= 843 {
        return (p.minexp + 3251) as u64;
    }
    if m == ZFP_MODE_REVERSIBLE {
        return 2176u64;
    }
    let minbits_c: u32 = if p.minbits > 0x8000 {
        0x8000
    } else if p.minbits < 1 {
        1
    } else {
        p.minbits
    };
    let maxbits_c: u32 = if p.maxbits > 0x8000 {
        0x8000
    } else if p.maxbits < 1 {
        1
    } else {
        p.maxbits
    };
    let maxprec_c: u32 = if p.maxprec > 0x80 {
        0x80
    } else if p.maxprec < 1 {
        1
    } else {
        p.maxprec
    };
    let shifted: i64 = p.minexp as i64 + 16495;
    let minexp_c: i64 = if shifted > 0x7fff {
        0x7fff
    } else if shifted < 0 {
        0
    } else {
        shifted
    };
    let minbits: u64 = (minbits_c - 1) as u64;
    let maxbits: u64 = (maxbits_c - 1) as u64;
    let maxprec: u64 = (maxprec_c - 1) as u64;
    let minexp: u64 = minexp_c as u64;
    0xfffu64 | (minbits << 12) | (maxbits << 27) | (maxprec << 42) | (minexp << 49)
}

/// Reconstructs stream parameters from a mode code, exactly as the codec
/// does: a short code selects one of the four common configurations; a
/// long code unpacks the four fields.  `None` when the unpacked
/// parameters are invalid (bit budget reversed, or precision outside
/// `(0, 64]`).
pub open spec fn spec_set_mode(mode: u64) -> Option<ZfpStreamParams> {
    let p = spec_set_mode_params(mode);
    if p.minbits > p.maxbits || !(0 < p.maxprec && p.maxprec <= ZFP_MAX_PREC) {
        None
    } else {
        Some(p)
    }
}

/// The raw parameters a mode code denotes, before validation.
pub open spec fn spec_set_mode_params(mode: u64) -> ZfpStreamParams {
    if mode <= ZFP_MODE_SHORT_MAX {
        if mode < 2048 {
            ZfpStreamParams {
                minbits: (mode + 1) as u32,
                maxbits: (mode + 1) as u32,
                maxprec: ZFP_MAX_PREC,
                minexp: ZFP_MIN_EXP,
            }
        } else if mode < 2176 {
            ZfpStreamParams {
                minbits: ZFP_MIN_BITS,
                maxbits: ZFP_MAX_BITS,
                maxprec: (mode - 2047) as u32,
                minexp: ZFP_MIN_EXP,
            }
        } else if mode == 2176 {
            ZfpStreamParams {
                minbits: ZFP_MIN_BITS,
                maxbits: ZFP_MAX_BITS,
                maxprec: ZFP_MAX_PREC,
                minexp: (ZFP_MIN_EXP - 1) as i32,
            }
        } else {
            ZfpStreamParams {
                minbits: ZFP_MIN_BITS,
                maxbits: ZFP_MAX_BITS,
                maxprec: ZFP_MAX_PREC,
                minexp: (mode - 3251) as i32,
            }
        }
    } else {
        ZfpStreamParams {
            minbits: (((mode >> 12) & 0x7fff) + 1) as u32,
            maxbits: (((mode >> 27) & 0x7fff) + 1) as u32,
            maxprec: (((mode >> 42) & 0x7f) + 1) as u32,
            minexp: (((mode >> 49) & 0x7fff) - 16495) as i32,
        }
    }
}

/// Reconstructs stream parameters from a header's mode code.
pub fn zfp_stream_set_mode(mode: u64) -> (r: Option<ZfpStreamParams>)
    ensures
        r == spec_set_mode(mode),
{
    let p: ZfpStreamParams = if mode <= ZFP_MODE_SHORT_MAX {
        if mode < 2048 {
            ZfpStreamParams {
                minbits: (mode + 1) as u32,
                maxbits: (mode + 1) as u32,
                maxprec: ZFP_MAX_PREC,
                minexp: ZFP_MIN_EXP,
            }
        } else if mode < 2176 {
            ZfpStreamParams {
                minbits: ZFP_MIN_BITS,
                maxbits: ZFP_MAX_BITS,
                maxprec: (mode - 2047) as u32,
                minexp: ZFP_MIN_EXP,
            }
        } else if mode == 2176 {
            ZfpStreamParams {
                minbits: ZFP_MIN_BITS,
                maxbits: ZFP_MAX_BITS,
                maxprec: ZFP_MAX_PREC,
                minexp: ZFP_MIN_EXP - 1,
            }
        } else {
            ZfpStreamParams {
                minbits: ZFP_MIN_BITS,
                maxbits: ZFP_MAX_BITS,
                maxprec: ZFP_MAX_PREC,
                minexp: (mode as i64 - 3251) as i32,
            }
        }
    } else {
        proof {
            assert((mode >> 12) & 0x7fff < 0x8000) by (bit_vector);
            assert((mode >> 27) & 0x7fff < 0x8000) by (bit_vector);
            assert((mode >> 42) & 0x7f < 0x80) by (bit_vector);
            assert((mode >> 49) & 0x7fff < 0x8000) by (bit_vector);
        }
        ZfpStreamParams {
            minbits: (((mode >> 12) & 0x7fff) + 1) as u32,
            maxbits: (((mode >> 27) & 0x7fff) + 1) as u32,
            maxprec: (((mode >> 42) & 0x7f) + 1) as u32,
            minexp: ((((mode >> 49) & 0x7fff) as i64) - 16495) as i32,
        }
    };
    if p.minbits > p.maxbits || !(0 < p.maxprec && p.maxprec <= ZFP_MAX_PREC) {
        None
    } else {
        Some(p)
    }
}

/// The per-extent bit width of the metadata size packing: all 48 bits for
/// one dimension, 24, 16 or 12 bits per extent for two, three or four.
pub open spec fn spec_meta_width(ndims: int) -> u64 {
    if ndims == 1 {
        48
    } else if ndims == 2 {
        24
    } else if ndims == 3 {
        16
    } else {
        12
    }
}

/// Whether extents (each at least one) fit their metadata fields.
/// `dims` is in storage order, slowest varying first.
pub open spec fn spec_dims_fit(dims: Seq<u64>) -> bool {
    &&& 1 <= dims.len() <= 4
    &&& forall|i: int|
        0 <= i < dims.len() ==> 1 <= #[trigger] dims[i] && ((dims[i] - 1) as u64) >> spec_meta_width(
            dims.len() as int,
        ) == 0
}

/// The 48-bit extent packing of the metadata: extents in storage order
/// from the highest field down, so the fastest-varying extent sits in the
/// lowest bits.
pub open spec fn spec_meta_sizes(dims: Seq<u64>) -> u64 {
    let n = dims.len() as int;
    if n == 1 {
        (dims[0] - 1) as u64
    } else if n == 2 {
        ((dims[0] - 1) as u64) << 24 | ((dims[1] - 1) as u64)
    } else if n == 3 {
        ((dims[0] - 1) as u64) << 32 | ((dims[1] - 1) as u64) << 16 | ((dims[2] - 1) as u64)
    } else {
        ((dims[0] - 1) as u64) << 36 | ((dims[1] - 1) as u64) << 24 | ((dims[2] - 1) as u64) << 12
            | ((dims[3] - 1) as u64)
    }
}

/// The 52-bit field metadata: packed extents, then dimensionality minus
/// one on two bits, then the scalar type code minus one on two bits.
pub open spec fn spec_field_meta(ztype: u32, dims: Seq<u64>) -> u64 {
    spec_meta_sizes(dims) << 4 | (((dims.len() - 1) as u64) << 2) | ((ztype - 1) as u64)
}

/// Computes the field metadata word for a scalar type and extents in
/// storage order.  `None` exactly when some extent is zero or too large
/// for its field.
pub fn zfp_field_metadata(ztype: u32, dims: &[u64]) -> (r: Option<u64>)
    requires
        1 <= ztype <= 4,
        1 <= dims@.len() <= 4,
    ensures
        r is Some <==> spec_dims_fit(dims@),
        r matches Some(m) ==> m == spec_field_meta(ztype, dims@) && m < 0x10_0000_0000_0000u64,
{
    let n = dims.len();
    let width: u64 = if n == 1 {
        48
    } else if n == 2 {
        24
    } else if n == 3 {
        16
    } else {
        12
    };
    let mut i: usize = 0;
    while i < n
        invariant
            n == dims@.len(),
            1 <= n <= 4,
            width == spec_meta_width(n as int),
            i <= n,
            forall|j: int|
                0 <= j < i ==> 1 <= #[trigger] dims@[j] && ((dims@[j] - 1) as u64) >> width == 0,
        decreases n - i,
    {
        if dims[i] == 0 {
            return None;
        }
        if (dims[i] - 1) >> width != 0 {
            return None;
        }
        i = i + 1;
    }
    let sizes: u64 = if n == 1 {
        dims[0] - 1
    } else if n == 2 {
        (dims[0] - 1) << 24 | (dims[1] - 1)
    } else if n == 3 {
        (dims[0] - 1) << 32 | (dims[1] - 1) << 16 | (dims[2] - 1)
    } else {
        (dims[0] - 1) << 36 | (dims[1] - 1) << 24 | (dims[2] - 1) << 12 | (dims[3] - 1)
    };
    proof {
        let s = sizes;
        let w = width;
        if n == 1 {
            assert(s >> 48 == 0 ==> s < 0x1_0000_0000_0000u64) by (bit_vector);
        } else if n == 2 {
            let a = (dims@[0] - 1) as u64;
            let b = (dims@[1] - 1) as u64;
            assert(a >> 24 == 0 && b >> 24 == 0 ==> (a << 24 | b) < 0x1_0000_0000_0000u64)
                by (bit_vector);
        } else if n == 3 {
            let a = (dims@[0] - 1) as u64;
            let b = (dims@[1] - 1) as u64;
            let c = (dims@[2] - 1) as u64;
            assert(a >> 16 == 0 && b >> 16 == 0 && c >> 16 == 0 ==> (a << 32 | b << 16 | c)
                < 0x1_0000_0000_0000u64) by (bit_vector);
        } else {
            let a = (dims@[0] - 1) as u64;
            let b = (dims@[1] - 1) as u64;
            let c = (dims@[2] - 1) as u64;
            let d = (dims@[3] - 1) as u64;
            assert(a >> 12 == 0 && b >> 12 == 0 && c >> 12 == 0 && d >> 12 == 0 ==> (a << 36 | b
                << 24 | c << 12 | d) < 0x1_0000_0000_0000u64) by (bit_vector);
        }
        assert(s < 0x1_0000_0000_0000u64 ==> (s << 4 | (((n - 1) as u64) << 2) | ((ztype
            - 1) as u64)) == s * 16 + ((n - 1) as u64) * 4 + ((ztype - 1) as u64) && (s << 4 | (((n
            - 1) as u64) << 2) | ((ztype - 1) as u64)) < 0x10_0000_0000_0000u64) by (bit_vector)
            requires
                1 <= n <= 4,
                1 <= ztype <= 4,
        ;
    }
    Some(sizes << 4 | ((n as u64 - 1) << 2) | (ztype as u64 - 1))
}

/// The scalar type code a metadata word denotes.
pub open spec fn spec_meta_type(meta: u64) -> u32 {
    ((meta & 3) + 1) as u32
}

/// The dimensionality a metadata word denotes.
pub open spec fn spec_meta_ndims(meta: u64) -> u32 {
    (((meta >> 2) & 3) + 1) as u32
}

/// The extents a metadata word denotes, fastest varying first (the
/// reverse of the storage order they were packed in).
pub open spec fn spec_meta_extents(meta: u64) -> Seq<u64> {
    let s = meta >> 4;
    let n = spec_meta_ndims(meta) as int;
    if n == 1 {
        seq![((s & 0xffff_ffff) + 1) as u64]
    } else if n == 2 {
        seq![((s & 0xff_ffff) + 1) as u64, (((s >> 24) & 0xff_ffff) + 1) as u64]
    } else if n == 3 {
        seq![
            ((s & 0xffff) + 1) as u64,
            (((s >> 16) & 0xffff) + 1) as u64,
            (((s >> 32) & 0xffff) + 1) as u64,
        ]
    } else {
        seq![
            ((s & 0xfff) + 1) as u64,
            (((s >> 12) & 0xfff) + 1) as u64,
            (((s >> 24) & 0xfff) + 1) as u64,
            (((s >> 36) & 0xfff) + 1) as u64,
        ]
    }
}

/// Reads a metadata word back into scalar type, dimensionality and
/// extents (fastest varying first).  `None` exactly when the word is
/// wider than 52 bits.
pub fn zfp_field_set_metadata(meta: u64) -> (r: Option<(u32, u32, Vec<u64>)>)
    ensures
        r is Some <==> meta < 0x10_0000_0000_0000u64,
        r matches Some((t, n, e)) ==> t == spec_meta_type(meta) && n == spec_meta_ndims(meta) && e@
            == spec_meta_extents(meta) && 1 <= t <= 4 && 1 <= n <= 4 && e@.len() == n && forall|
            i: int,
        | 0 <= i < e@.len() ==> 1 <= #[trigger] e@[i] <= 0x1_0000_0000u64,
{
    if meta >> 52 != 0 {
        proof {
            assert(meta >> 52 != 0 ==> meta >= 0x10_0000_0000_0000u64) by (bit_vector);
        }
        return None;
    }
    proof {
        assert(meta >> 52 == 0 ==> meta < 0x10_0000_0000_0000u64) by (bit_vector);
        assert((meta & 3) + 1 <= 4 && ((meta >> 2) & 3) + 1 <= 4) by (bit_vector);
    }
    let t: u32 = ((meta & 3) + 1) as u32;
    let n: u32 = (((meta >> 2) & 3) + 1) as u32;
    let s: u64 = meta >> 4;
    let mut e: Vec<u64> = Vec::new();
    if n == 1 {
        proof {
            assert((s & 0xffff_ffff) + 1 <= 0x1_0000_0000u64) by (bit_vector);
        }
        e.push((s & 0xffff_ffff) + 1);
    } else if n == 2 {
        proof {
            assert((s & 0xff_ffff) + 1 <= 0x100_0000u64 && ((s >> 24) & 0xff_ffff) + 1
                <= 0x100_0000u64) by (bit_vector);
        }
        e.push((s & 0xff_ffff) + 1);
        e.push(((s >> 24) & 0xff_ffff) + 1);
    } else if n == 3 {
        proof {
            assert((s & 0xffff) + 1 <= 0x1_0000u64 && ((s >> 16) & 0xffff) + 1 <= 0x1_0000u64 && ((s
                >> 32) & 0xffff) + 1 <= 0x1_0000u64) by (bit_vector);
        }
        e.push((s & 0xffff) + 1);
        e.push(((s >> 16) & 0xffff) + 1);
        e.push(((s >> 32) & 0xffff) + 1);
    } else {
        proof {
            assert((s & 0xfff) + 1 <= 0x1000u64 && ((s >> 12) & 0xfff) + 1 <= 0x1000u64 && ((s
                >> 24) & 0xfff) + 1 <= 0x1000u64 && ((s >> 36) & 0xfff) + 1 <= 0x1000u64)
                by (bit_vector);
        }
        e.push((s & 0xfff) + 1);
        e.push(((s >> 12) & 0xfff) + 1);
        e.push(((s >> 24) & 0xfff) + 1);
        e.push(((s >> 36) & 0xfff) + 1);
    }
    proof {
        assert(e@ =~= spec_meta_extents(meta));
    }
    Some((t, n, e))
}

/// A sequence read backwards.
pub open spec fn spec_reversed<A>(s: Seq<A>) -> Seq<A> {
    Seq::new(s.len(), |i: int| s[s.len() - 1 - i])
}

/// The metadata word loses nothing: decoding recovers the scalar type,
/// the dimensionality, and the extents (in reverse order, since the
/// header stores the fastest-varying extent lowest).  The one-dimensional
/// extent must fit the 32 bits the decoder reads.
pub proof fn lemma_meta_roundtrip(ztype: u32, dims: Seq<u64>)
    requires
        1 <= ztype <= 4,
        spec_dims_fit(dims),
        dims.len() == 1 ==> dims[0] <= 0x1_0000_0000u64,
    ensures
        spec_field_meta(ztype, dims) < 0x10_0000_0000_0000u64,
        spec_meta_type(spec_field_meta(ztype, dims)) == ztype,
        spec_meta_ndims(spec_field_meta(ztype, dims)) == dims.len(),
        spec_meta_extents(spec_field_meta(ztype, dims)) == spec_reversed(dims),
{
    let s = spec_meta_sizes(dims);
    let n = dims.len() as u64;
    let t = (ztype - 1) as u64;
    let meta = spec_field_meta(ztype, dims);
    assert(meta == s << 4 | ((n - 1) as u64) << 2 | t);
    if dims.len() == 1 {
        let a = (dims[0] - 1) as u64;
        assert(a >> 48 == 0 && a < 0x1_0000_0000u64 && n == 1 && t < 4 ==> {
            let m = a << 4 | ((n - 1) as u64) << 2 | t;
            &&& m < 0x10_0000_0000_0000u64
            &&& (m & 3) + 1 == t + 1
            &&& ((m >> 2) & 3) + 1 == n
            &&& ((m >> 4) & 0xffff_ffff) + 1 == a + 1
        }) by (bit_vector);
        assert(spec_meta_extents(meta) =~= spec_reversed(dims));
    } else if dims.len() == 2 {
        let a = (dims[0] - 1) as u64;
        let b = (dims[1] - 1) as u64;
        assert(a >> 24 == 0 && b >> 24 == 0 && n == 2 && t < 4 ==> {
            let m = (a << 24 | b) << 4 | ((n - 1) as u64) << 2 | t;
            &&& m < 0x10_0000_0000_0000u64
            &&& (m & 3) + 1 == t + 1
            &&& ((m >> 2) & 3) + 1 == n
            &&& ((m >> 4) & 0xff_ffff) + 1 == b + 1
            &&& (((m >> 4) >> 24) & 0xff_ffff) + 1 == a + 1
        }) by (bit_vector);
        assert(spec_meta_extents(meta) =~= spec_reversed(dims));
    } else if dims.len() == 3 {
        let a = (dims[0] - 1) as u64;
        let b = (dims[1] - 1) as u64;
        let c = (dims[2] - 1) as u64;
        assert(a >> 16 == 0 && b >> 16 == 0 && c >> 16 == 0 && n == 3 && t < 4 ==> {
            let m = (a << 32 | b << 16 | c) << 4 | ((n - 1) as u64) << 2 | t;
            &&& m < 0x10_0000_0000_0000u64
            &&& (m & 3) + 1 == t + 1
            &&& ((m >> 2) & 3) + 1 == n
            &&& ((m >> 4) & 0xffff) + 1 == c + 1
            &&& (((m >> 4) >> 16) & 0xffff) + 1 == b + 1
            &&& (((m >> 4) >> 32) & 0xffff) + 1 == a + 1
        }) by (bit_vector);
        assert(spec_meta_extents(meta) =~= spec_reversed(dims));
    } else {
        let a = (dims[0] - 1) as u64;
        let b = (dims[1] - 1) as u64;
        let c = (dims[2] - 1) as u64;
        let d = (dims[3] - 1) as u64;
        assert(a >> 12 == 0 && b >> 12 == 0 && c >> 12 == 0 && d >> 12 == 0 && n == 4 && t < 4 ==> {
            let m = (a << 36 | b << 24 | c << 12 | d) << 4 | ((n - 1) as u64) << 2 | t;
            &&& m < 0x10_0000_0000_0000u64
            &&& (m & 3) + 1 == t + 1
            &&& ((m >> 2) & 3) + 1 == n
            &&& ((m >> 4) & 0xfff) + 1 == d + 1
            &&& (((m >> 4) >> 12) & 0xfff) + 1 == c + 1
            &&& (((m >> 4) >> 24) & 0xfff) + 1 == b + 1
            &&& (((m >> 4) >> 36) & 0xfff) + 1 == a + 1
        }) by (bit_vector);
        assert(spec_meta_extents(meta) =~= spec_reversed(dims));
    }
}

/// Exponent field of an IEEE 754 double-precision bit pattern.
pub open spec fn f64_exp_field(b: u64) -> u64 {
    (b >> 52) & 0x7ff
}

/// Fraction field of a double-precision bit pattern.
pub open spec fn f64_frac_field(b: u64) -> u64 {
    b & 0xf_ffff_ffff_ffff
}

/// Sign bit of a double-precision bit pattern.
pub open spec fn f64_is_neg(b: u64) -> bool {
    b >> 63 == 1
}

/// Whether the pattern is finite (neither infinity nor NaN).
pub open spec fn f64_is_finite(b: u64) -> bool {
    f64_exp_field(b) != 0x7ff
}

/// Whether the pattern is a zero.
pub open spec fn f64_is_zero(b: u64) -> bool {
    f64_exp_field(b) == 0 && f64_frac_field(b) == 0
}

/// The integer significand of a finite pattern: the fraction field, with
/// the implicit leading bit added for normal numbers.  Together with
/// `f64_exp2`, the magnitude of the value is `f64_sig(b) * 2^f64_exp2(b)`.
pub open spec fn f64_sig(b: u64) -> u64 {
    if f64_exp_field(b) == 0 {
        f64_frac_field(b)
    } else {
        (f64_frac_field(b) + 0x10_0000_0000_0000) as u64
    }
}

/// The base-2 exponent that scales `f64_sig` to the value's magnitude.
pub open spec fn f64_exp2(b: u64) -> int {
    if f64_exp_field(b) == 0 {
        -1074
    } else {
        f64_exp_field(b) - 1075
    }
}

/// Whether a finite pattern's value is strictly positive.
pub open spec fn f64_gt_zero(b: u64) -> bool {
    !f64_is_neg(b) && f64_is_finite(b) && !f64_is_zero(b)
}

/// Whether the pattern is positive infinity.
pub open spec fn f64_is_pos_inf(b: u64) -> bool {
    !f64_is_neg(b) && f64_exp_field(b) == 0x7ff && f64_frac_field(b) == 0
}

/// The position of the highest set bit: `2^spec_msb(x) <= x <
/// 2^(spec_msb(x)+1)` for positive `x`.
pub open spec fn spec_msb(x: nat) -> nat
    decreases x,
{
    if x <= 1 {
        0
    } else {
        1 + spec_msb(x / 2)
    }
}

/// `floor(m * 2^e + 1/2)` for a natural `m` and an integer exponent `e`.
pub open spec fn spec_floor_plus_half(m: nat, e: int) -> nat {
    if e >= 0 {
        m * pow2(e as nat)
    } else {
        (m + pow2((-e - 1) as nat)) / pow2((-e) as nat)
    }
}

/// The per-block bit budget a rate asks for, before the per-type floor:
/// `floor(4^dims * rate + 1/2)`, computed exactly from the rate's bit
/// pattern.
pub open spec fn spec_rate_raw_bits(rate_bits: u64, dims: nat) -> nat {
    spec_floor_plus_half((f64_sig(rate_bits) * pow2(2 * dims)) as nat, f64_exp2(rate_bits))
}

/// The per-block bit budget of a fixed-rate configuration: the raw budget
/// raised to at least one bit more than the scalar type's exponent width
/// (nine bits for floats, twelve for doubles).
pub open spec fn spec_rate_maxbits(rate_bits: u64, dims: nat, ztype: u32) -> nat {
    let raw = spec_rate_raw_bits(rate_bits, dims);
    if ztype == ZFP_TYPE_FLOAT && raw < 9 {
        9
    } else if ztype == ZFP_TYPE_DOUBLE && raw < 12 {
        12
    } else {
        raw
    }
}

/// Returns the position of the highest set bit of `x`.
fn msb64(x: u64) -> (r: u32)
    requires
        x >= 1,
    ensures
        r == spec_msb(x as nat),
        r <= 63,
        x >> (r as u64) == 1,
{
    let mut b: u32 = 0;
    proof {
        assert(x >> 0u64 == x) by (bit_vector);
    }
    while (x >> (b as u64)) > 1
        invariant
            x >= 1,
            b <= 63,
            x >> (b as u64) >= 1,
            spec_msb(x as nat) == b + spec_msb((x >> (b as u64)) as nat),
        decreases 64 - b,
    {
        proof {
            let y = x >> (b as u64);
            let c = b as u64;
            assert(x >> c > 1 && c < 63 ==> (x >> c) / 2 == x >> (c + 1) && x >> (c + 1) >= 1)
                by (bit_vector);
            assert(c == 63 ==> x >> c <= 1) by (bit_vector);
        }
        b = b + 1;
    }
    b
}

/// Returns `2^k`.
fn pow2_u128(k: u32) -> (r: u128)
    requires
        k < 128,
    ensures
        r == pow2(k as nat),
{
    let mut r: u128 = 1;
    let mut i: u32 = 0;
    proof {
        lemma2_to64();
    }
    while i < k
        invariant
            i <= k,
            k < 128,
            r == pow2(i as nat),
        decreases k - i,
    {
        proof {
            lemma_pow2_le_u128_max(i as nat);
            lemma_pow2_adds(i as nat, 1);
            lemma2_to64();
        }
        r = r * 2;
        i = i + 1;
    }
    r
}

/// `2^e` fits a 128-bit word for `e` below 127.
proof fn lemma_pow2_le_u128_max(e: nat)
    requires
        e <= 126,
    ensures
        pow2(e) * 2 <= u128::MAX,
{
    lemma2_to64();
    lemma2_to64_rest();
    assert(pow2(63) * pow2(63) == pow2(126)) by {
        lemma_pow2_adds(63, 63);
    }
    if e < 126 {
        lemma_pow2_strictly_increases(e, 126);
    }
}

/// Computes the fixed-rate bit budget `floor(4^dims * rate + 1/2)`,
/// raised to the scalar type's floor, from the rate's bit pattern.
/// `None` exactly when the budget exceeds `u32::MAX` (such a rate is not
/// encodable).
pub fn zfp_rate_maxbits(rate_bits: u64, dims: u32, ztype: u32) -> (r: Option<u32>)
    requires
        1 <= dims <= 32,
        ztype == ZFP_TYPE_FLOAT || ztype == ZFP_TYPE_DOUBLE,
        f64_is_finite(rate_bits),
        !f64_is_neg(rate_bits),
    ensures
        r matches Some(v) ==> v == spec_rate_maxbits(rate_bits, dims as nat, ztype),
        r is None ==> spec_rate_maxbits(rate_bits, dims as nat, ztype) > u32::MAX,
{
    let exp: u64 = (rate_bits >> 52) & 0x7ff;
    let frac: u64 = rate_bits & 0xf_ffff_ffff_ffff;
    let sig: u64 = if exp == 0 {
        frac
    } else {
        frac | 0x10_0000_0000_0000
    };
    proof {
        assert((rate_bits & 0xf_ffff_ffff_ffff) | 0x10_0000_0000_0000 == (rate_bits
            & 0xf_ffff_ffff_ffff) + 0x10_0000_0000_0000 && (rate_bits & 0xf_ffff_ffff_ffff)
            < 0x10_0000_0000_0000u64) by (bit_vector);
        assert(sig == f64_sig(rate_bits));
        assert(sig < 0x20_0000_0000_0000u64);
    }
    let p2: u128 = pow2_u128(2 * dims);
    proof {
        lemma2_to64();
        lemma2_to64_rest();
        if 2 * dims < 64 {
            lemma_pow2_strictly_increases((2 * dims) as nat, 64);
        }
        assert(p2 <= pow2(64));
        assert(sig <= pow2(53) - 1);
        vstd::arithmetic::mul::lemma_mul_upper_bound(
            sig as int,
            pow2(53) as int - 1,
            p2 as int,
            pow2(64) as int,
        );
        vstd::arithmetic::mul::lemma_mul_is_distributive_sub_other_way(
            pow2(64) as int,
            pow2(53) as int,
            1,
        );
        lemma_pow2_adds(53, 64);
        lemma_pow2_pos(64);
        assert((pow2(53) - 1) * pow2(64) < pow2(117));
        lemma_pow2_le_u128_max(117);
    }
    let nm: u128 = (sig as u128) * p2;
    let ghost nm_spec = f64_sig(rate_bits) * pow2(2 * (dims as nat));
    proof {
        assert(nm == nm_spec);
        assert(nm < pow2(117));
    }
    let raw: Option<u32> = if exp >= 1075 {
        // The value is at least its significand, which normal patterns
        // this large make at least 2^52: far beyond any encodable budget.
        proof {
            assert(f64_exp2(rate_bits) >= 0);
            lemma_pow2_pos((f64_exp2(rate_bits)) as nat);
            assert(sig >= 0x10_0000_0000_0000u64);
            lemma_pow2_pos(2 * (dims as nat));
            vstd::arithmetic::mul::lemma_mul_inequality(
                1,
                pow2(2 * (dims as nat)) as int,
                sig as int,
            );
            vstd::arithmetic::mul::lemma_mul_is_commutative(
                sig as int,
                pow2(2 * (dims as nat)) as int,
            );
            assert(nm_spec >= sig);
            vstd::arithmetic::mul::lemma_mul_inequality(
                1,
                pow2(f64_exp2(rate_bits) as nat) as int,
                nm_spec as int,
            );
            assert(spec_rate_raw_bits(rate_bits, dims as nat) >= nm_spec);
            assert(spec_rate_raw_bits(rate_bits, dims as nat) > u32::MAX);
            assert(spec_rate_maxbits(rate_bits, dims as nat, ztype) > u32::MAX);
        }
        None
    } else {
        let t: u32 = if exp == 0 {
            1074
        } else {
            1075 - (exp as u32)
        };
        proof {
            assert(t >= 1 && f64_exp2(rate_bits) == -(t as int));
        }
        if t >= 118 {
            // The budget rounds to zero: the added half exceeds the value.
            proof {
                if t > 118 {
                    lemma_pow2_strictly_increases(117, (t - 1) as nat);
                }
                lemma_pow2_adds((t - 1) as nat, 1);
                lemma2_to64();
                lemma_pow2_pos((t - 1) as nat);
                assert(nm_spec + pow2((t - 1) as nat) < pow2(t as nat));
                vstd::arithmetic::div_mod::lemma_basic_div(
                    (nm_spec + pow2((t - 1) as nat)) as int,
                    pow2(t as nat) as int,
                );
            }
            Some(0)
        } else {
            proof {
                lemma_pow2_strictly_increases((t - 1) as nat, 117);
                lemma_pow2_adds(117, 1);
                lemma2_to64();
                lemma_pow2_le_u128_max(117);
            }
            let add: u128 = pow2_u128(t - 1);
            let sum: u128 = nm + add;
            let v: u128 = shr_u128(sum, t);
            proof {
                assert(v == spec_rate_raw_bits(rate_bits, dims as nat));
            }
            if v > 0xffff_ffff {
                proof {
                    assert(spec_rate_maxbits(rate_bits, dims as nat, ztype) > u32::MAX);
                }
                None
            } else {
                Some(v as u32)
            }
        }
    };
    match raw {
        None => None,
        Some(v) => {
            if ztype == ZFP_TYPE_FLOAT && v < 9 {
                Some(9)
            } else if ztype == ZFP_TYPE_DOUBLE && v < 12 {
                Some(12)
            } else {
                Some(v)
            }
        },
    }
}

/// The bit pattern of the double-precision value `maxbits / 4^dims`: the
/// significand is `maxbits` shifted up to the implicit-bit position, and
/// the exponent field descends by two per dimension.  The quotient is a
/// dyadic rational, so the pattern is exact.
pub open spec fn spec_rate_bits_of(maxbits: u32, dims: nat) -> u64 {
    let b = spec_msb(maxbits as nat);
    ((b + 1023 - 2 * dims) as u64) << 52 | (((maxbits as u64) << ((52 - b) as u64))
        & 0xf_ffff_ffff_ffff)
}

/// What the rate pattern's fields are: a positive finite normal number
/// with significand `maxbits * 2^(52 - msb)` and scale `msb - 2*dims - 52`,
/// which is exactly `maxbits / 4^dims`.
pub proof fn lemma_rate_bits_fields(maxbits: u32, dims: nat)
    requires
        1 <= maxbits <= 0x8000,
        1 <= dims <= 4,
    ensures
        f64_is_finite(spec_rate_bits_of(maxbits, dims)),
        !f64_is_neg(spec_rate_bits_of(maxbits, dims)),
        !f64_is_zero(spec_rate_bits_of(maxbits, dims)),
        f64_sig(spec_rate_bits_of(maxbits, dims)) == (maxbits as nat) * pow2(
            (52 - spec_msb(maxbits as nat)) as nat,
        ),
        f64_exp2(spec_rate_bits_of(maxbits, dims)) == spec_msb(maxbits as nat) - 2 * dims - 52,
{
    let x = maxbits as u64;
    let bn = spec_msb(maxbits as nat);
    lemma_msb_range(maxbits as nat);
    let b = bn as u64;
    assert(pow2(bn) <= maxbits as nat && (maxbits as nat) < pow2(bn + 1));
    assert(bn <= 15) by {
        lemma2_to64();
        if bn > 15 {
            lemma_pow2_strictly_increases(16, bn);
        }
    }
    let ef = (b + 1023 - 2 * (dims as u64)) as u64;
    let sg = x << ((52 - b) as u64);
    assert(sg == x * pow2((52 - bn) as nat)) by {
        lemma_pow2_adds((bn + 1) as nat, (52 - bn) as nat);
        vstd::arithmetic::mul::lemma_mul_upper_bound(
            x as int,
            pow2(bn + 1) as int - 1,
            pow2((52 - bn) as nat) as int,
            pow2((52 - bn) as nat) as int,
        );
        vstd::arithmetic::mul::lemma_mul_is_distributive_sub_other_way(
            pow2((52 - bn) as nat) as int,
            pow2(bn + 1) as int,
            1,
        );
        lemma_pow2_pos((52 - bn) as nat);
        lemma2_to64();
        lemma2_to64_rest();
        assert(pow2(53) <= u64::MAX as nat);
        vstd::bits::lemma_u64_shl_is_mul(x, (52 - b) as u64);
    }
    assert(pow2(bn) * pow2((52 - bn) as nat) == pow2(52)) by {
        lemma_pow2_adds(bn, (52 - bn) as nat);
    }
    assert(pow2(bn + 1) * pow2((52 - bn) as nat) == pow2(53)) by {
        lemma_pow2_adds(bn + 1, (52 - bn) as nat);
    }
    assert(sg >= pow2(52)) by {
        vstd::arithmetic::mul::lemma_mul_inequality(
            pow2(bn) as int,
            maxbits as int,
            pow2((52 - bn) as nat) as int,
        );
    }
    assert(sg < pow2(53)) by {
        vstd::arithmetic::mul::lemma_mul_inequality(
            maxbits as int + 1,
            pow2(bn + 1) as int,
            pow2((52 - bn) as nat) as int,
        );
        lemma_pow2_pos((52 - bn) as nat);
        vstd::arithmetic::mul::lemma_mul_is_distributive_add_other_way(
            pow2((52 - bn) as nat) as int,
            maxbits as int,
            1,
        );
    }
    lemma2_to64();
    lemma2_to64_rest();
    let r = ef << 52 | (sg & 0xf_ffff_ffff_ffff);
    assert(r == spec_rate_bits_of(maxbits, dims));
    assert(1015 <= ef <= 1038);
    assert(0x10_0000_0000_0000u64 <= sg < 0x20_0000_0000_0000u64);
    assert((r >> 52) & 0x7ff == ef && (r & 0xf_ffff_ffff_ffff) + 0x10_0000_0000_0000 == sg && r
        >> 63 == 0) by (bit_vector)
        requires
            r == ef << 52 | (sg & 0xf_ffff_ffff_ffff),
            1015 <= ef <= 1038,
            0x10_0000_0000_0000u64 <= sg < 0x20_0000_0000_0000u64,
    ;
}

/// Returns the bit pattern of the rate `maxbits / 4^dims` that a
/// fixed-rate header denotes.
pub fn zfp_stream_rate_bits(maxbits: u32, dims: u32) -> (r: u64)
    requires
        1 <= maxbits <= 0x8000,
        1 <= dims <= 4,
    ensures
        r == spec_rate_bits_of(maxbits, dims as nat),
{
    let b: u32 = msb64(maxbits as u64);
    proof {
        lemma_msb_range(maxbits as nat);
        lemma2_to64();
        if spec_msb(maxbits as nat) > 15 {
            lemma_pow2_strictly_increases(16, spec_msb(maxbits as nat));
        }
    }
    let ef: u64 = (b as u64) + 1023 - 2 * (dims as u64);
    let sg: u64 = (maxbits as u64) << ((52 - b) as u64);
    ef << 52 | (sg & 0xf_ffff_ffff_ffff)
}

/// `2^b <= x < 2^(b+1)` for the highest set bit `b` of a positive `x`.
pub proof fn lemma_msb_range(x: nat)
    requires
        x >= 1,
    ensures
        pow2(spec_msb(x)) <= x < pow2(spec_msb(x) + 1),
    decreases x,
{
    if x <= 1 {
        lemma2_to64();
    } else {
        lemma_msb_range(x / 2);
        lemma_pow2_adds(spec_msb(x / 2), 1);
        lemma_pow2_adds(spec_msb(x / 2) + 1, 1);
        lemma2_to64();
        vstd::arithmetic::div_mod::lemma_fundamental_div_mod(x as int, 2);
    }
}

/// The highest set bit of `2^k` is `k`.
pub proof fn lemma_msb_pow2(k: nat)
    ensures
        spec_msb(pow2(k)) == k,
    decreases k,
{
    if k == 0 {
        lemma2_to64();
    } else {
        lemma_msb_pow2((k - 1) as nat);
        lemma_pow2_adds((k - 1) as nat, 1);
        lemma2_to64();
        lemma_pow2_pos((k - 1) as nat);
        assert(pow2(k) == pow2((k - 1) as nat) * 2);
        assert(pow2(k) / 2 == pow2((k - 1) as nat)) by {
            vstd::arithmetic::div_mod::lemma_div_multiples_vanish(
                pow2((k - 1) as nat) as int,
                2,
            );
        }
        assert(pow2(k) > 1);
    }
}

/// Encoding the rate a header denotes reproduces the header's bit budget:
/// the budget survives the round trip whenever it is at least the scalar
/// type's floor (nine bits for floats, twelve for doubles), as every
/// budget this library computes is.
pub proof fn lemma_rate_roundtrip(maxbits: u32, dims: nat, ztype: u32)
    requires
        1 <= dims <= 4,
        ztype == ZFP_TYPE_FLOAT || ztype == ZFP_TYPE_DOUBLE,
        ztype == ZFP_TYPE_FLOAT ==> maxbits >= 9,
        ztype == ZFP_TYPE_DOUBLE ==> maxbits >= 12,
        maxbits <= ZFP_MAX_BITS,
    ensures
        spec_rate_maxbits(spec_rate_bits_of(maxbits, dims), dims, ztype) == maxbits,
{
    let r = spec_rate_bits_of(maxbits, dims);
    lemma_rate_bits_fields(maxbits, dims);
    let bn = spec_msb(maxbits as nat);
    lemma_msb_range(maxbits as nat);
    assert(bn <= 15) by {
        lemma2_to64();
        if bn > 15 {
            lemma_pow2_strictly_increases(16, bn);
        }
    }
    let t = (52 + 2 * dims - bn) as nat;
    assert(f64_exp2(r) == -(t as int));
    let m = (f64_sig(r) * pow2(2 * dims)) as nat;
    assert(m == (maxbits as nat) * pow2((52 - bn) as nat) * pow2(2 * dims));
    assert(m == (maxbits as nat) * pow2(t)) by {
        lemma_pow2_adds((52 - bn) as nat, 2 * dims);
        vstd::arithmetic::mul::lemma_mul_is_associative(
            maxbits as int,
            pow2((52 - bn) as nat) as int,
            pow2(2 * dims) as int,
        );
    }
    assert(spec_rate_raw_bits(r, dims) == (m + pow2((t - 1) as nat)) / pow2(t));
    assert((m + pow2((t - 1) as nat)) / pow2(t) == maxbits) by {
        lemma_pow2_adds((t - 1) as nat, 1);
        lemma2_to64();
        lemma_pow2_pos((t - 1) as nat);
        lemma_pow2_pos(t);
        vstd::arithmetic::div_mod::lemma_div_multiples_vanish_fancy(
            maxbits as int,
            pow2((t - 1) as nat) as int,
            pow2(t) as int,
        );
        vstd::arithmetic::mul::lemma_mul_is_commutative(pow2(t) as int, maxbits as int);
    }
}

/// The base-2 exponent `frexp` assigns to a positive finite value, less
/// one: the unique `e` with `2^e <= value < 2^(e+1)`.
pub open spec fn spec_frexp_emin(b: u64) -> int {
    if f64_exp_field(b) != 0 {
        f64_exp_field(b) - 1023
    } else {
        spec_msb(f64_frac_field(b) as nat) - 1074
    }
}

/// The smallest block exponent a fixed-accuracy configuration stores for
/// an error tolerance: the tolerance's base-2 exponent when the tolerance
/// is positive, else the smallest representable exponent.
pub open spec fn spec_accuracy_minexp(tol_bits: u64) -> int {
    if f64_gt_zero(tol_bits) {
        spec_frexp_emin(tol_bits)
    } else {
        ZFP_MIN_EXP as int
    }
}

/// Computes the block exponent a tolerance selects.  Positive infinity is
/// excluded: the underlying exponent extraction is not defined for it.
pub fn zfp_accuracy_minexp(tol_bits: u64) -> (r: i32)
    requires
        !f64_is_pos_inf(tol_bits),
    ensures
        r == spec_accuracy_minexp(tol_bits),
        r >= ZFP_MIN_EXP,
        r <= 1023,
{
    let exp: u64 = (tol_bits >> 52) & 0x7ff;
    let frac: u64 = tol_bits & 0xf_ffff_ffff_ffff;
    let neg: bool = (tol_bits >> 63) != 0;
    proof {
        assert((tol_bits >> 63) != 1 ==> (tol_bits >> 63) == 0) by (bit_vector);
        assert((tol_bits >> 52) & 0x7ff <= 0x7ff && tol_bits & 0xf_ffff_ffff_ffff
            < 0x10_0000_0000_0000u64) by (bit_vector);
    }
    if neg || exp == 0x7ff || (exp == 0 && frac == 0) {
        return ZFP_MIN_EXP;
    }
    if exp != 0 {
        return (exp as i32) - 1023;
    }
    let b: u32 = msb64(frac);
    proof {
        lemma_msb_range(frac as nat);
        lemma2_to64();
        lemma2_to64_rest();
        if spec_msb(frac as nat) > 51 {
            lemma_pow2_strictly_increases(52, spec_msb(frac as nat));
        }
    }
    (b as i32) - 1074
}

/// The bit pattern of `2^minexp`, the tolerance a fixed-accuracy header
/// denotes: positive infinity past the largest exponent, a normal
/// pattern with an empty fraction down to -1022, a single subnormal bit
/// below that.
pub open spec fn spec_accuracy_bits(minexp: int) -> u64 {
    if minexp >= 1024 {
        0x7ff0_0000_0000_0000u64
    } else if minexp >= -1022 {
        ((minexp + 1023) as u64) << 52
    } else {
        1u64 << ((minexp + 1074) as u64)
    }
}

/// Returns the bit pattern of the tolerance `2^minexp`.
pub fn zfp_stream_accuracy_bits(minexp: i32) -> (r: u64)
    requires
        minexp >= ZFP_MIN_EXP,
    ensures
        r == spec_accuracy_bits(minexp as int),
{
    if minexp >= 1024 {
        0x7ff0_0000_0000_0000
    } else if minexp >= -1022 {
        ((minexp + 1023) as u64) << 52
    } else {
        1u64 << ((minexp + 1074) as u64)
    }
}

/// Reading the tolerance a header denotes back through the exponent
/// extraction reproduces the header's block exponent, for every exponent
/// whose tolerance is finite.
pub proof fn lemma_accuracy_roundtrip(minexp: int)
    requires
        ZFP_MIN_EXP <= minexp <= 1023,
    ensures
        spec_accuracy_minexp(spec_accuracy_bits(minexp)) == minexp,
{
    let r = spec_accuracy_bits(minexp);
    if minexp >= -1022 {
        let ef = (minexp + 1023) as u64;
        assert(1 <= ef <= 2046);
        assert((ef << 52) >> 63 == 0 && ((ef << 52) >> 52) & 0x7ff == ef && (ef << 52)
            & 0xf_ffff_ffff_ffff == 0) by (bit_vector)
            requires
                1 <= ef <= 2046,
        ;
    } else {
        let k = (minexp + 1074) as u64;
        assert(k <= 51);
        assert((1u64 << k) >> 63 == 0 && ((1u64 << k) >> 52) & 0x7ff == 0 && (1u64 << k)
            & 0xf_ffff_ffff_ffff == 1u64 << k && (1u64 << k) >= 1) by (bit_vector)
            requires
                k <= 51,
        ;
        assert((1u64 << k) as nat == pow2(k as nat)) by {
            lemma2_to64();
            lemma2_to64_rest();
            lemma_pow2_strictly_increases(k as nat, 52);
            vstd::bits::lemma_u64_shl_is_mul(1u64, k);
        }
        lemma_msb_pow2(k as nat);
    }
}

/// Shifts a 128-bit word right, as division by a power of two.
fn shr_u128(x: u128, k: u32) -> (r: u128)
    requires
        k < 128,
    ensures
        r == x as nat / pow2(k as nat),
{
    proof {
        vstd::bits::lemma_u128_shr_is_div(x, k as u128);
    }
    x >> (k as u128)
}

/// The parameter shapes this library's encoder produces: fixed rate, or a
/// full bit budget with some precision limit and block exponent.
pub open spec fn spec_params_wf(p: ZfpStreamParams) -> bool {
    ||| (p.minbits == p.maxbits && ZFP_MIN_BITS <= p.maxbits && p.maxbits <= ZFP_MAX_BITS
        && p.maxprec == ZFP_MAX_PREC && p.minexp == ZFP_MIN_EXP)
    ||| (p.minbits == ZFP_MIN_BITS && p.maxbits == ZFP_MAX_BITS && 1 <= p.maxprec && p.maxprec
        <= ZFP_MAX_PREC && ZFP_MIN_EXP - 1 <= p.minexp && p.minexp <= 16272)
}

/// The mode code loses nothing: for every parameter set the encoder can
/// produce, decoding its mode code returns the same parameters.
pub proof fn lemma_mode_word_roundtrip(p: ZfpStreamParams)
    requires
        spec_params_wf(p),
    ensures
        spec_set_mode(spec_mode_word(p)) == Some(p),
{
    let m = spec_compression_mode(p);
    let w = spec_mode_word(p);
    if m == ZFP_MODE_RATE && p.maxbits <= 2048 {
    } else if m == ZFP_MODE_PRECISION && p.maxprec <= 128 {
    } else if m == ZFP_MODE_ACCURACY && p.minexp <= 843 {
    } else if m == ZFP_MODE_REVERSIBLE {
    } else {
        let minbits = (spec_clamp1(p.minbits as int, 0x8000) - 1) as u64;
        let maxbits = (spec_clamp1(p.maxbits as int, 0x8000) - 1) as u64;
        let maxprec = (spec_clamp1(p.maxprec as int, 0x80) - 1) as u64;
        let minexp = (if p.minexp + 16495 > 0x7fff {
            0x7fff
        } else if p.minexp + 16495 < 0 {
            0
        } else {
            p.minexp + 16495
        }) as u64;
        assert(minbits == p.minbits - 1 && maxbits == p.maxbits - 1 && maxprec == p.maxprec - 1
            && minexp == p.minexp + 16495);
        assert(minbits < 0x8000 && maxbits < 0x8000 && maxprec < 0x80 && minexp < 0x8000);
        assert(spec_long_word(minbits, maxbits, maxprec, minexp) > 4094 && (spec_long_word(
            minbits,
            maxbits,
            maxprec,
            minexp,
        ) >> 12) & 0x7fff == minbits && (spec_long_word(minbits, maxbits, maxprec, minexp) >> 27)
            & 0x7fff == maxbits && (spec_long_word(minbits, maxbits, maxprec, minexp) >> 42) & 0x7f
            == maxprec && (spec_long_word(minbits, maxbits, maxprec, minexp) >> 49) & 0x7fff
            == minexp) by (bit_vector)
            requires
                minbits < 0x8000,
                maxbits < 0x8000,
                maxprec < 0x80,
                minexp < 0x8000,
        ;
    }
}

/// First header word: the characters `z`, `f`, `p` and the codec version
/// five, eight bits each from the lowest position up.
pub const ZFP_MAGIC_WORD: u32 = 0x0570_667a;

/// The version word stored ahead of the header: the codec library version
/// nibbles (1.0.1.0) in the high half, the codec revision five in the
/// next nibble, and this filter protocol's own version nibbles (1.1.0)
/// at the bottom.
pub const ZFP_VERSION_WORD: u32 = 0x1010_5110;

/// The number of parameter words a filter slot carries.
pub const ZFP_CD_NELMTS_MAX: usize = 8;

/// The header bitstream packed into 32-bit words, lowest bits first: the
/// magic word; the metadata's low 32 bits; its high 20 bits under the
/// mode code's low 12 bits; and for a long mode code two more words with
/// its remaining 52 bits.
pub open spec fn spec_header_words(meta: u64, mode: u64) -> Seq<u32> {
    if mode <= ZFP_MODE_SHORT_MAX {
        seq![ZFP_MAGIC_WORD, meta as u32, ((meta >> 32) | (mode << 20)) as u32]
    } else {
        seq![
            ZFP_MAGIC_WORD,
            meta as u32,
            ((meta >> 32) | (mode << 20)) as u32,
            (mode >> 12) as u32,
            (mode >> 44) as u32,
        ]
    }
}

/// A word with its four bytes reversed.
pub open spec fn spec_swap32(w: u32) -> u32 {
    (w >> 24) | ((w >> 8) & 0xff00) | ((w << 8) & 0xff_0000) | (w << 24)
}

/// Reverses the four bytes of a word.
pub fn swap32(w: u32) -> (r: u32)
    ensures
        r == spec_swap32(w),
{
    (w >> 24) | ((w >> 8) & 0xff00) | ((w << 8) & 0xff_0000) | (w << 24)
}

/// Byte-swapping a word twice gives the word back.
pub proof fn lemma_swap32_involution(w: u32)
    ensures
        spec_swap32(spec_swap32(w)) == w,
{
    let s = spec_swap32(w);
    assert(s == (w >> 24) | ((w >> 8) & 0xff00) | ((w << 8) & 0xff_0000) | (w << 24));
    assert(((s == (w >> 24) | ((w >> 8) & 0xff00) | ((w << 8) & 0xff_0000) | (w << 24)) ==> ((s
        >> 24) | ((s >> 8) & 0xff00) | ((s << 8) & 0xff_0000) | (s << 24)) == w)) by (bit_vector);
}

/// Every word of a sequence byte-swapped.
pub open spec fn spec_swapped_words(h: Seq<u32>) -> Seq<u32> {
    h.map_values(|w: u32| spec_swap32(w))
}

/// The metadata and mode code a header word sequence carries, read as
/// written: `None` when the magic does not match, when fewer than three
/// words are present, or when a long mode code is cut short.
pub open spec fn spec_read_header(h: Seq<u32>) -> Option<(u64, u64)> {
    if h.len() < 3 || h[0] != ZFP_MAGIC_WORD {
        None
    } else {
        let meta = (h[1] as u64) | (((h[2] & 0xf_ffff) as u64) << 32);
        let m12 = (h[2] >> 20) as u64;
        if m12 <= ZFP_MODE_SHORT_MAX {
            Some((meta, m12))
        } else if h.len() < 5 {
            None
        } else {
            Some((meta, m12 | ((h[3] as u64) << 12) | (((h[4] & 0xf_ffff) as u64) << 44)))
        }
    }
}

/// The metadata and mode code of a header, with the single documented
/// endianness retry: words whose magic does not match native order are
/// byte-swapped once and read again.
pub open spec fn spec_read_header_any_order(h: Seq<u32>) -> Option<(u64, u64)> {
    if h.len() >= 1 && h[0] == ZFP_MAGIC_WORD {
        spec_read_header(h)
    } else if h.len() >= 1 && spec_swap32(h[0]) == ZFP_MAGIC_WORD {
        spec_read_header(spec_swapped_words(h))
    } else {
        None
    }
}

/// Reading header words back recovers the metadata and mode code they
/// were built from.
pub proof fn lemma_header_words_roundtrip(meta: u64, mode: u64)
    requires
        meta < 0x10_0000_0000_0000u64,
        mode > ZFP_MODE_SHORT_MAX ==> mode & 0xfff == 0xfff,
    ensures
        spec_read_header(spec_header_words(meta, mode)) == Some((meta, mode)),
        spec_header_words(meta, mode)[0] == ZFP_MAGIC_WORD,
{
    let h = spec_header_words(meta, mode);
    let w1 = meta as u32;
    let w2 = ((meta >> 32) | (mode << 20)) as u32;
    if mode <= ZFP_MODE_SHORT_MAX {
        assert(meta < 0x10_0000_0000_0000u64 && mode <= 4094 ==> ((w1 as u64) | (((w2 & 0xf_ffff)
            as u64) << 32)) == meta && ((w2 >> 20) as u64) == mode) by (bit_vector)
            requires
                w1 == meta as u32,
                w2 == ((meta >> 32) | (mode << 20)) as u32,
        ;
    } else {
        let w3 = (mode >> 12) as u32;
        let w4 = (mode >> 44) as u32;
        assert(meta < 0x10_0000_0000_0000u64 && mode > 4094 && mode & 0xfff == 0xfff ==> ((w1
            as u64) | (((w2 & 0xf_ffff) as u64) << 32)) == meta && ((w2 >> 20) as u64) > 4094 && (((
        w2 >> 20) as u64) | ((w3 as u64) << 12) | (((w4 & 0xf_ffff) as u64) << 44)) == mode)
            by (bit_vector)
            requires
                w1 == meta as u32,
                w2 == ((meta >> 32) | (mode << 20)) as u32,
                w3 == (mode >> 12) as u32,
                w4 == (mode >> 44) as u32,
        ;
    }
}

/// The extents of `dims` that are larger than one, in their original
/// order, widened to the codec's extent type.
pub open spec fn spec_nonsingleton(dims: Seq<usize>) -> Seq<u64>
    decreases dims.len(),
{
    if dims.len() == 0 {
        Seq::empty()
    } else {
        let rest = spec_nonsingleton(dims.drop_last());
        if dims.last() == 1 {
            rest
        } else {
            rest.push(dims.last() as u64)
        }
    }
}

/// Drops extents of one from a chunk shape ("singleton elimination"),
/// keeping the order of the rest.
pub fn nonsingleton_dims(dims: &[usize]) -> (r: Vec<u64>)
    ensures
        r@ == spec_nonsingleton(dims@),
{
    let mut out: Vec<u64> = Vec::new();
    let mut i: usize = 0;
    proof {
        assert(dims@.take(0int) =~= Seq::<usize>::empty());
    }
    while i < dims.len()
        invariant
            i <= dims@.len(),
            out@ == spec_nonsingleton(dims@.take(i as int)),
        decreases dims@.len() - i,
    {
        proof {
            assert(dims@.take(i + 1).drop_last() =~= dims@.take(i as int));
            assert(dims@.take(i + 1).last() == dims@[i as int]);
        }
        if dims[i] != 1 {
            out.push(dims[i] as u64);
        }
        i = i + 1;
    }
    proof {
        assert(dims@.take(dims@.len() as int) =~= dims@);
    }
    out
}

/// Every mode code wider than twelve bits has its low twelve bits all
/// set; the reader relies on this to tell the two widths apart.
pub proof fn lemma_mode_word_low_bits(p: ZfpStreamParams)
    ensures
        spec_mode_word(p) > ZFP_MODE_SHORT_MAX ==> spec_mode_word(p) & 0xfff == 0xfff,
{
    let m = spec_compression_mode(p);
    if m == ZFP_MODE_RATE && p.maxbits <= 2048 {
    } else if m == ZFP_MODE_PRECISION && p.maxprec <= 128 {
    } else if m == ZFP_MODE_ACCURACY && p.minexp <= 843 {
    } else if m == ZFP_MODE_REVERSIBLE {
    } else {
        let minbits = (spec_clamp1(p.minbits as int, 0x8000) - 1) as u64;
        let maxbits = (spec_clamp1(p.maxbits as int, 0x8000) - 1) as u64;
        let maxprec = (spec_clamp1(p.maxprec as int, 0x80) - 1) as u64;
        let minexp = (if p.minexp + 16495 > 0x7fff {
            0x7fff
        } else if p.minexp + 16495 < 0 {
            0
        } else {
            p.minexp + 16495
        }) as u64;
        assert(spec_long_word(minbits, maxbits, maxprec, minexp) & 0xfff == 0xfff
            && spec_long_word(minbits, maxbits, maxprec, minexp) > 4094) by (bit_vector);
    }
}

/// The decoded form of one zfp filter slot: dimensionality, element
/// width, per-dimension extents (fastest varying first, zero past
/// `ndims`), the compression-mode code, and the mode's parameter.  The
/// rate and tolerance are double-precision bit patterns.
#[derive(Clone, Copy, Debug, PartialEq, Eq, Structural)]
pub struct ZfpConfig {
    pub ndims: u32,
    pub typesize: usize,
    pub nx: u64,
    pub ny: u64,
    pub nz: u64,
    pub nw: u64,
    pub mode: u32,
    pub rate_bits: u64,
    pub precision: u32,
    pub accuracy_bits: u64,
}

/// The element width of a codec scalar type.
pub open spec fn spec_typesize(ztype: u32) -> usize {
    if ztype == ZFP_TYPE_INT32 || ztype == ZFP_TYPE_FLOAT {
        4usize
    } else {
        8usize
    }
}

/// The configuration denoted by a header's metadata word and stream
/// parameters: the extents fastest varying first, and the one parameter
/// of the recognized mode recovered from the stream parameters.
pub open spec fn spec_config_of(meta: u64, p: ZfpStreamParams) -> ZfpConfig {
    let m = spec_compression_mode(p);
    let n = spec_meta_ndims(meta);
    let e = spec_meta_extents(meta);
    ZfpConfig {
        ndims: n,
        typesize: spec_typesize(spec_meta_type(meta)),
        nx: e[0],
        ny: if n >= 2 {
            e[1]
        } else {
            0
        },
        nz: if n >= 3 {
            e[2]
        } else {
            0
        },
        nw: if n >= 4 {
            e[3]
        } else {
            0
        },
        mode: m,
        rate_bits: if m == ZFP_MODE_RATE {
            spec_rate_bits_of(p.maxbits, n as nat)
        } else {
            0
        },
        precision: if m == ZFP_MODE_PRECISION {
            p.maxprec
        } else {
            0
        },
        accuracy_bits: if m == ZFP_MODE_ACCURACY {
            spec_accuracy_bits(p.minexp as int)
        } else {
            0
        },
    }
}

/// What parsing a filter slot's parameter words yields: the version word
/// is ignored, the header is read (with the endianness retry), the mode
/// code is validated, and the configuration is assembled.  `None` for
/// anything the header protocol cannot explain.
pub open spec fn spec_parse_cdata(cdata: Seq<u32>) -> Option<ZfpConfig> {
    if cdata.len() < 2 {
        None
    } else {
        match spec_read_header_any_order(cdata.skip(1)) {
            None => None,
            Some((meta, mode)) => match spec_set_mode(mode) {
                None => None,
                Some(p) => Some(spec_config_of(meta, p)),
            },
        }
    }
}

/// Parses the parameter words of a zfp filter slot back into a
/// configuration, trying the single byte-swapped order if the header
/// magic does not match as stored.
pub fn parse_zfp_cdata(cdata: &[u32]) -> (r: Option<ZfpConfig>)
    ensures
        r == spec_parse_cdata(cdata@),
        r matches Some(cfg) ==> spec_config_wf(cfg),
{
    if cdata.len() < 2 {
        return None;
    }
    let ghost h = cdata@.skip(1);
    let h0 = cdata[1];
    let swapped: bool;
    if h0 == ZFP_MAGIC_WORD {
        swapped = false;
    } else if swap32(h0) == ZFP_MAGIC_WORD {
        swapped = true;
    } else {
        return None;
    }
    let ghost hs = if swapped {
        spec_swapped_words(h)
    } else {
        h
    };
    proof {
        assert(hs.len() == h.len());
        assert(h[0] == cdata@[1]);
        if swapped {
            assert(hs[0] == spec_swap32(h[0]));
        }
    }
    if cdata.len() < 4 {
        return None;
    }
    let w1 = if swapped {
        swap32(cdata[2])
    } else {
        cdata[2]
    };
    let w2 = if swapped {
        swap32(cdata[3])
    } else {
        cdata[3]
    };
    proof {
        assert(h[1] == cdata@[2] && h[2] == cdata@[3]);
        assert(w1 == hs[1] && w2 == hs[2]);
    }
    let meta: u64 = (w1 as u64) | (((w2 & 0xf_ffff) as u64) << 32);
    let m12: u64 = (w2 >> 20) as u64;
    let mode: u64;
    if m12 <= ZFP_MODE_SHORT_MAX {
        mode = m12;
    } else {
        if cdata.len() < 6 {
            return None;
        }
        let w3 = if swapped {
            swap32(cdata[4])
        } else {
            cdata[4]
        };
        let w4 = if swapped {
            swap32(cdata[5])
        } else {
            cdata[5]
        };
        proof {
            assert(h[3] == cdata@[4] && h[4] == cdata@[5]);
            assert(w3 == hs[3] && w4 == hs[4]);
        }
        mode = m12 | ((w3 as u64) << 12) | (((w4 & 0xf_ffff) as u64) << 44);
    }
    proof {
        assert(spec_read_header(hs) == Some((meta, mode)));
    }
    let p = match zfp_stream_set_mode(mode) {
        None => {
            return None;
        },
        Some(p) => p,
    };
    proof {
        assert((w1 as u64) | (((w2 & 0xf_ffff) as u64) << 32) < 0x10_0000_0000_0000u64)
            by (bit_vector);
    }
    let parts = match zfp_field_set_metadata(meta) {
        None => {
            return None;
        },
        Some(parts) => parts,
    };
    let (t, n, e) = parts;
    let m = zfp_stream_compression_mode(&p);
    let typesize: usize = if t == ZFP_TYPE_INT32 || t == ZFP_TYPE_FLOAT {
        4
    } else {
        8
    };
    let rate_bits: u64 = if m == ZFP_MODE_RATE {
        zfp_stream_rate_bits(p.maxbits, n)
    } else {
        0
    };
    let precision: u32 = if m == ZFP_MODE_PRECISION {
        p.maxprec
    } else {
        0
    };
    let accuracy_bits: u64 = if m == ZFP_MODE_ACCURACY {
        zfp_stream_accuracy_bits(p.minexp)
    } else {
        0
    };
    Some(
        ZfpConfig {
            ndims: n,
            typesize,
            nx: e[0],
            ny: if n >= 2 {
                e[1]
            } else {
                0
            },
            nz: if n >= 3 {
                e[2]
            } else {
                0
            },
            nw: if n >= 4 {
                e[3]
            } else {
                0
            },
            mode: m,
            rate_bits,
            precision,
            accuracy_bits,
        },
    )
}

/// How many parameter words of the slot carry data: the version word plus
/// twelve header bytes for a short mode code, or the version word plus
/// nineteen header bytes for a long one, in whole words.
pub open spec fn spec_cd_nelmts(p: ZfpStreamParams) -> usize {
    if spec_mode_word(p) <= ZFP_MODE_SHORT_MAX {
        4usize
    } else {
        6usize
    }
}

/// The eight parameter words of a slot: the version word, the header
/// words, and zero padding.
pub open spec fn spec_cd_values(ztype: u32, dims: Seq<u64>, p: ZfpStreamParams) -> Seq<u32> {
    let h = spec_header_words(spec_field_meta(ztype, dims), spec_mode_word(p));
    seq![ZFP_VERSION_WORD] + h + Seq::new((7 - h.len()) as nat, |i: int| 0u32)
}

/// Builds the parameter words for one zfp filter slot: a version word,
/// then the codec's self-describing header for the given scalar type,
/// extents (storage order) and stream parameters, zero-padded to eight
/// words.  Returns the words and how many of them carry data.  `None`
/// exactly when an extent does not fit the header's metadata fields.
pub fn compute_hdr_cd_values(
    zt: u32,
    ndims_used: usize,
    dims_used: &[u64],
    params: &ZfpStreamParams,
) -> (r: Option<(Vec<u32>, usize)>)
    requires
        1 <= zt <= 4,
        ndims_used == dims_used@.len(),
        1 <= ndims_used <= 4,
    ensures
        r is Some <==> spec_dims_fit(dims_used@),
        r matches Some((v, n)) ==> v@ == spec_cd_values(zt, dims_used@, *params) && n
            == spec_cd_nelmts(*params),
{
    let meta = match zfp_field_metadata(zt, dims_used) {
        None => {
            return None;
        },
        Some(m) => m,
    };
    let mode = zfp_stream_mode(params);
    let mut v: Vec<u32> = Vec::new();
    v.push(ZFP_VERSION_WORD);
    v.push(ZFP_MAGIC_WORD);
    v.push(meta as u32);
    v.push(((meta >> 32) | (mode << 20)) as u32);
    let nelmts: usize;
    if mode <= ZFP_MODE_SHORT_MAX {
        nelmts = 4;
        v.push(0);
        v.push(0);
    } else {
        nelmts = 6;
        v.push((mode >> 12) as u32);
        v.push((mode >> 44) as u32);
    }
    v.push(0);
    v.push(0);
    proof {
        assert(v@ =~= spec_cd_values(zt, dims_used@, *params));
    }
    Some((v, nelmts))
}

/// The codec scalar type of an element width: four bytes is a float,
/// eight a double (the only widths the filter accepts).
pub open spec fn spec_zfp_type_of(n_bytes: u8) -> u32 {
    if n_bytes == 4 {
        ZFP_TYPE_FLOAT
    } else {
        ZFP_TYPE_DOUBLE
    }
}

/// The stream parameters a mode configures, exactly as the codec's four
/// setters do.  For fixed rate, `rate_dims` is the dimensionality whose
/// block size scales the rate; a rate that is not a nonnegative finite
/// number, or whose bit budget cannot be computed, is rejected, as is an
/// infinite tolerance.
pub open spec fn spec_params_for(mode: ZfpMode, ztype: u32, rate_dims: nat) -> Result<
    ZfpStreamParams,
    Error,
> {
    match mode {
        ZfpMode::FixedRate(rb) => if !f64_is_finite(rb) || f64_is_neg(rb) {
            Err(Error::ParameterError)
        } else if spec_rate_maxbits(rb, rate_dims, ztype) > u32::MAX {
            Err(Error::ParameterError)
        } else {
            Ok(
                ZfpStreamParams {
                    minbits: spec_rate_maxbits(rb, rate_dims, ztype) as u32,
                    maxbits: spec_rate_maxbits(rb, rate_dims, ztype) as u32,
                    maxprec: ZFP_MAX_PREC,
                    minexp: ZFP_MIN_EXP,
                },
            )
        },
        ZfpMode::FixedPrecision(pr) => Ok(
            ZfpStreamParams {
                minbits: ZFP_MIN_BITS,
                maxbits: ZFP_MAX_BITS,
                maxprec: if pr == 0 || pr > 64 {
                    ZFP_MAX_PREC
                } else {
                    pr as u32
                },
                minexp: ZFP_MIN_EXP,
            },
        ),
        ZfpMode::FixedAccuracy(tb) => if f64_is_pos_inf(tb) {
            Err(Error::ParameterError)
        } else {
            Ok(
                ZfpStreamParams {
                    minbits: ZFP_MIN_BITS,
                    maxbits: ZFP_MAX_BITS,
                    maxprec: ZFP_MAX_PREC,
                    minexp: spec_accuracy_minexp(tb) as i32,
                },
            )
        },
        ZfpMode::Reversible => Ok(
            ZfpStreamParams {
                minbits: ZFP_MIN_BITS,
                maxbits: ZFP_MAX_BITS,
                maxprec: ZFP_MAX_PREC,
                minexp: (ZFP_MIN_EXP - 1) as i32,
            },
        ),
    }
}

/// Configures stream parameters for a mode.  The returned error is
/// `ParameterError`, exactly for a fixed rate that is negative, not
/// finite or too large, or a fixed accuracy of positive infinity.
pub fn zfp_params_for(mode: &ZfpMode, ztype: u32, rate_dims: u32) -> (r: Result<
    ZfpStreamParams,
    Error,
>)
    requires
        ztype == ZFP_TYPE_FLOAT || ztype == ZFP_TYPE_DOUBLE,
        1 <= rate_dims <= 32,
    ensures
        r == spec_params_for(*mode, ztype, rate_dims as nat),
{
    match mode {
        ZfpMode::FixedRate(rb) => {
            let rb = *rb;
            let exp = (rb >> 52) & 0x7ff;
            let neg = (rb >> 63) != 0;
            proof {
                assert((rb >> 63) != 1 ==> (rb >> 63) == 0) by (bit_vector);
            }
            if exp == 0x7ff || neg {
                return Err(Error::ParameterError);
            }
            match zfp_rate_maxbits(rb, rate_dims, ztype) {
                None => Err(Error::ParameterError),
                Some(bits) => Ok(
                    ZfpStreamParams {
                        minbits: bits,
                        maxbits: bits,
                        maxprec: ZFP_MAX_PREC,
                        minexp: ZFP_MIN_EXP,
                    },
                ),
            }
        },
        ZfpMode::FixedPrecision(pr) => {
            let pr = *pr;
            Ok(
                ZfpStreamParams {
                    minbits: ZFP_MIN_BITS,
                    maxbits: ZFP_MAX_BITS,
                    maxprec: if pr == 0 || pr > 64 {
                        ZFP_MAX_PREC
                    } else {
                        pr as u32
                    },
                    minexp: ZFP_MIN_EXP,
                },
            )
        },
        ZfpMode::FixedAccuracy(tb) => {
            let tb = *tb;
            let exp = (tb >> 52) & 0x7ff;
            let frac = tb & 0xf_ffff_ffff_ffff;
            let neg = (tb >> 63) != 0;
            proof {
                assert((tb >> 63) != 1 ==> (tb >> 63) == 0) by (bit_vector);
            }
            if exp == 0x7ff && frac == 0 && !neg {
                return Err(Error::ParameterError);
            }
            Ok(
                ZfpStreamParams {
                    minbits: ZFP_MIN_BITS,
                    maxbits: ZFP_MAX_BITS,
                    maxprec: ZFP_MAX_PREC,
                    minexp: zfp_accuracy_minexp(tb),
                },
            )
        },
        ZfpMode::Reversible => Ok(
            ZfpStreamParams {
                minbits: ZFP_MIN_BITS,
                maxbits: ZFP_MAX_BITS,
                maxprec: ZFP_MAX_PREC,
                minexp: ZFP_MIN_EXP - 1,
            },
        ),
    }
}

/// What encoding a filter slot for a mode, chunk shape and element width
/// yields.  In order: more than four non-singleton extents is
/// `DimensionError`; a shape of rank over 32 or an element width other
/// than 4 or 8 is `ParameterError`; then the mode is configured (fixed rate scales by
/// the full rank, as many extents as the chunk has); an extent too wide
/// for its header field is `ParameterError`; otherwise the slot's eight
/// parameter words.
pub open spec fn spec_encode_cdata(mode: ZfpMode, dims: Seq<usize>, n_bytes: u8) -> Result<
    Seq<u32>,
    Error,
> {
    let nd = spec_nonsingleton(dims);
    if nd.len() > 4 {
        Err(Error::DimensionError)
    } else if dims.len() > 32 {
        Err(Error::ParameterError)
    } else if n_bytes != 4 && n_bytes != 8 {
        Err(Error::ParameterError)
    } else {
        let ztype = spec_zfp_type_of(n_bytes);
        match spec_params_for(mode, ztype, dims.len() as nat) {
            Err(e) => Err(e),
            Ok(p) => if !spec_dims_fit(nd) {
                Err(Error::ParameterError)
            } else {
                Ok(spec_cd_values(ztype, nd, p))
            },
        }
    }
}

/// Encodes one zfp filter slot: drops singleton extents from the chunk
/// shape, maps the element width to the codec scalar type, configures the
/// stream for the mode (fixed rate scales by the chunk's full rank, not
/// the reduced one), and assembles the version word and header.  At least
/// one extent must exceed one.
pub fn encode_cdata(mode: &ZfpMode, chunk_dims: &[usize], n_bytes: u8) -> (r: Result<
    Vec<u32>,
    Error,
>)
    requires
        spec_nonsingleton(chunk_dims@).len() >= 1,
    ensures
        r matches Ok(v) ==> spec_encode_cdata(*mode, chunk_dims@, n_bytes) matches Ok(s) && v@ == s,
        r matches Err(e) ==> spec_encode_cdata(*mode, chunk_dims@, n_bytes) == Err::<
            Seq<u32>,
            Error,
        >(e),
{
    let nd = nonsingleton_dims(chunk_dims);
    if nd.len() > MAX_NDIMS {
        return Err(Error::DimensionError);
    }
    if chunk_dims.len() > 32 {
        return Err(Error::ParameterError);
    }
    if n_bytes != 4 && n_bytes != 8 {
        return Err(Error::ParameterError);
    }
    let ztype: u32 = if n_bytes == 4 {
        ZFP_TYPE_FLOAT
    } else {
        ZFP_TYPE_DOUBLE
    };
    proof {
        if chunk_dims@.len() == 0 {
            assert(spec_nonsingleton(chunk_dims@).len() == 0);
        }
    }
    let p = match zfp_params_for(mode, ztype, chunk_dims.len() as u32) {
        Err(e) => {
            return Err(e);
        },
        Ok(p) => p,
    };
    match compute_hdr_cd_values(ztype, nd.len(), nd.as_slice(), &p) {
        None => Err(Error::ParameterError),
        Some((v, _)) => Ok(v),
    }
}

/// Registers the zfp filter in the registry: one entry with encoding and
/// decoding enabled.  Registration happens once; a registry that already
/// carries the id keeps its first outcome unchanged.
pub fn register_zfp(table: &mut crate::filters::FilterTable) -> (r: Result<(), Error>)
    ensures
        r is Ok,
        old(table).spec_contains(crate::filters::ZFP_FILTER_ID) ==> *final(table) == *old(table),
        !old(table).spec_contains(crate::filters::ZFP_FILTER_ID) ==> final(table).entries@ == old(
            table,
        ).entries@.push(
            (
                crate::filters::ZFP_FILTER_ID,
                crate::filters::FilterInfo {
                    is_available: true,
                    encode_enabled: true,
                    decode_enabled: true,
                },
            ),
        ),
{
    let mut i: usize = 0;
    while i < table.entries.len()
        invariant
            i <= table.entries@.len(),
            forall|j: int| 0 <= j < i ==> (#[trigger] table.entries@[j]).0
                != crate::filters::ZFP_FILTER_ID,
        decreases table.entries@.len() - i,
    {
        if table.entries[i].0 == crate::filters::ZFP_FILTER_ID {
            return Ok(());
        }
        i = i + 1;
    }
    table.insert(
        crate::filters::ZFP_FILTER_ID,
        crate::filters::FilterInfo {
            is_available: true,
            encode_enabled: true,
            decode_enabled: true,
        },
    );
    Ok(())
}

/// The mode a decoded configuration denotes, if its mode code is one of
/// the four this library's modes cover.
pub open spec fn spec_config_mode(cfg: ZfpConfig) -> Option<ZfpMode> {
    if cfg.mode == ZFP_MODE_RATE {
        Some(ZfpMode::FixedRate(cfg.rate_bits))
    } else if cfg.mode == ZFP_MODE_PRECISION {
        Some(ZfpMode::FixedPrecision(cfg.precision as u8))
    } else if cfg.mode == ZFP_MODE_ACCURACY {
        Some(ZfpMode::FixedAccuracy(cfg.accuracy_bits))
    } else if cfg.mode == ZFP_MODE_REVERSIBLE {
        Some(ZfpMode::Reversible)
    } else {
        None
    }
}

/// The canonical form of a mode: what one encode/decode round trip turns
/// it into.  A rate becomes the exact dyadic rate of its bit budget, a
/// precision is clamped to `[1, 64]` (zero selecting 64), a tolerance
/// becomes the next power of two below it; reversible mode is its own
/// canonical form.  A canonical value is a fixed point of the round trip.
pub open spec fn spec_canonical_mode(mode: ZfpMode, ztype: u32, rate_dims: nat) -> ZfpMode {
    match mode {
        ZfpMode::FixedRate(rb) => ZfpMode::FixedRate(
            spec_rate_bits_of(spec_rate_maxbits(rb, rate_dims, ztype) as u32, rate_dims),
        ),
        ZfpMode::FixedPrecision(pr) => ZfpMode::FixedPrecision(
            if pr == 0 || pr > 64 {
                64u8
            } else {
                pr
            },
        ),
        ZfpMode::FixedAccuracy(tb) => ZfpMode::FixedAccuracy(
            spec_accuracy_bits(spec_accuracy_minexp(tb)),
        ),
        ZfpMode::Reversible => ZfpMode::Reversible,
    }
}

/// The canonical form is a fixed point: a second round trip changes
/// nothing, for every parameter within the header's ranges.
pub proof fn lemma_canonical_mode_fixed_point(mode: ZfpMode, ztype: u32, rate_dims: nat)
    requires
        ztype == ZFP_TYPE_FLOAT || ztype == ZFP_TYPE_DOUBLE,
        1 <= rate_dims <= 4,
        mode matches ZfpMode::FixedRate(rb) ==> spec_rate_maxbits(rb, rate_dims, ztype)
            <= ZFP_MAX_BITS,
        mode matches ZfpMode::FixedAccuracy(tb) ==> spec_accuracy_minexp(tb) <= 1023,
    ensures
        spec_canonical_mode(spec_canonical_mode(mode, ztype, rate_dims), ztype, rate_dims)
            == spec_canonical_mode(mode, ztype, rate_dims),
{
    match mode {
        ZfpMode::FixedRate(rb) => {
            let mb = spec_rate_maxbits(rb, rate_dims, ztype) as u32;
            lemma_rate_roundtrip(mb, rate_dims, ztype);
        },
        ZfpMode::FixedPrecision(_) => {},
        ZfpMode::FixedAccuracy(tb) => {
            lemma_accuracy_minexp_range(tb);
            lemma_accuracy_roundtrip(spec_accuracy_minexp(tb));
        },
        ZfpMode::Reversible => {},
    }
}

/// The exponent a tolerance selects lies in the representable range.
pub proof fn lemma_accuracy_minexp_range(tb: u64)
    ensures
        -1074 <= spec_accuracy_minexp(tb) <= 1023,
{
    if f64_gt_zero(tb) {
        if f64_exp_field(tb) != 0 {
            assert(f64_exp_field(tb) <= 2046) by {
                assert((tb >> 52) & 0x7ff <= 0x7ff) by (bit_vector);
            }
        } else {
            let frac = f64_frac_field(tb);
            assert(frac >= 1 && frac < 0x10_0000_0000_0000u64) by {
                assert(tb & 0xf_ffff_ffff_ffff < 0x10_0000_0000_0000u64) by (bit_vector);
            }
            lemma_msb_range(frac as nat);
            lemma2_to64();
            lemma2_to64_rest();
            if spec_msb(frac as nat) > 51 {
                lemma_pow2_strictly_increases(52, spec_msb(frac as nat));
            }
        }
    }
}

/// Dropping singletons from a shape with no singletons changes nothing
/// but the extent width.
pub proof fn lemma_nonsingleton_all_big(dims: Seq<usize>)
    requires
        forall|i: int| 0 <= i < dims.len() ==> 2 <= #[trigger] dims[i],
    ensures
        spec_nonsingleton(dims) == dims.map_values(|d: usize| d as u64),
    decreases dims.len(),
{
    if dims.len() == 0 {
        assert(spec_nonsingleton(dims) =~= dims.map_values(|d: usize| d as u64));
    } else {
        lemma_nonsingleton_all_big(dims.drop_last());
        assert(dims.drop_last().map_values(|d: usize| d as u64) =~= dims.map_values(
            |d: usize| d as u64,
        ).drop_last());
        assert(spec_nonsingleton(dims) =~= dims.map_values(|d: usize| d as u64));
    }
}

/// The header round trip: encoding a mode for a chunk shape without
/// singleton extents and decoding the resulting slot yields the same
/// shape, the same element width, and the mode in canonical form (so the
/// mode itself, whenever its parameter is exactly representable).  The
/// shape must fit the header's extent fields, the rate's bit budget the
/// codec's block budget, the precision `[1, 63]`, and the tolerance must
/// select an exponent above the bottom of the range: outside of those the
/// codec's own header represents the configuration as an expert-mode
/// parameter set, which this library's modes do not cover.
#[verifier::rlimit(60)]
pub proof fn lemma_zfp_header_roundtrip(mode: ZfpMode, dims: Seq<usize>, n_bytes: u8)
    requires
        n_bytes == 4 || n_bytes == 8,
        1 <= dims.len() <= 4,
        forall|i: int| 0 <= i < dims.len() ==> 2 <= #[trigger] dims[i],
        spec_dims_fit(dims.map_values(|d: usize| d as u64)),
        dims.len() == 1 ==> dims[0] <= 0x1_0000_0000,
        mode matches ZfpMode::FixedRate(rb) ==> f64_is_finite(rb) && !f64_is_neg(rb)
            && spec_rate_maxbits(rb, dims.len() as nat, spec_zfp_type_of(n_bytes)) <= ZFP_MAX_BITS,
        mode matches ZfpMode::FixedPrecision(pr) ==> 1 <= pr <= 63,
        mode matches ZfpMode::FixedAccuracy(tb) ==> !f64_is_pos_inf(tb) && spec_accuracy_minexp(tb)
            > -1074,
    ensures
        spec_encode_cdata(mode, dims, n_bytes) matches Ok(c) && spec_parse_cdata(c) matches Some(
            cfg,
        ) && cfg.ndims == dims.len() && spec_config_dims(cfg) == dims.map_values(|d: usize| d as u64)
            && cfg.typesize == n_bytes && spec_config_mode(cfg) == Some(
            spec_canonical_mode(mode, spec_zfp_type_of(n_bytes), dims.len() as nat),
        ),
{
    let ztype = spec_zfp_type_of(n_bytes);
    let nd = dims.map_values(|d: usize| d as u64);
    lemma_nonsingleton_all_big(dims);
    assert(spec_nonsingleton(dims) == nd);
    let rp = spec_params_for(mode, ztype, dims.len() as nat);
    match mode {
        ZfpMode::FixedRate(rb) => {
            assert(spec_rate_maxbits(rb, dims.len() as nat, ztype) >= 9);
        },
        ZfpMode::FixedAccuracy(tb) => {
            lemma_accuracy_minexp_range(tb);
        },
        _ => {},
    }
    let p = rp->Ok_0;
    assert(rp == Ok::<ZfpStreamParams, Error>(p));
    assert(spec_params_wf(p));
    let meta = spec_field_meta(ztype, nd);
    lemma_meta_roundtrip(ztype, nd);
    let w = spec_mode_word(p);
    lemma_mode_word_roundtrip(p);
    lemma_mode_word_low_bits(p);
    lemma_header_words_roundtrip(meta, w);
    let h = spec_header_words(meta, w);
    let c = spec_cd_values(ztype, nd, p);
    assert(spec_encode_cdata(mode, dims, n_bytes) == Ok::<Seq<u32>, Error>(c));
    let hf = c.skip(1);
    assert(hf.len() == 7);
    assert(forall|i: int| 0 <= i < h.len() ==> hf[i] == h[i]);
    assert(hf[0] == ZFP_MAGIC_WORD);
    assert(spec_read_header(hf) == Some((meta, w))) by {
        assert(hf[1] == h[1] && hf[2] == h[2]);
        if w > ZFP_MODE_SHORT_MAX {
            assert(hf[3] == h[3] && hf[4] == h[4]);
        }
    }
    assert(spec_read_header_any_order(hf) == Some((meta, w)));
    assert(spec_parse_cdata(c) == Some(spec_config_of(meta, spec_set_mode(w)->Some_0)));
    let cfg = spec_config_of(meta, p);
    assert(spec_parse_cdata(c) == Some(cfg));
    let n = dims.len() as int;
    assert(spec_meta_extents(meta) == spec_reversed(nd));
    assert(cfg.ndims == n);
    assert(spec_config_dims(cfg) =~= nd) by {
        assert(forall|i: int|
            0 <= i < n ==> spec_reversed(nd)[i] == nd[n - 1 - i]);
    }
    let m = spec_compression_mode(p);
    match mode {
        ZfpMode::FixedRate(rb) => {
            assert(m == ZFP_MODE_RATE);
        },
        ZfpMode::FixedPrecision(pr) => {
            assert(m == ZFP_MODE_PRECISION);
        },
        ZfpMode::FixedAccuracy(tb) => {
            assert(m == ZFP_MODE_ACCURACY);
        },
        ZfpMode::Reversible => {
            assert(m == ZFP_MODE_REVERSIBLE);
        },
    }
}

/// The endianness recovery: byte-swapping every header word of a
/// decodable slot (the version word stays) leaves the decoded
/// configuration unchanged.
pub proof fn lemma_endian_recovery(cdata: Seq<u32>)
    requires
        spec_parse_cdata(cdata) is Some,
    ensures
        spec_parse_cdata(seq![cdata[0]] + spec_swapped_words(cdata.skip(1))) == spec_parse_cdata(
            cdata,
        ),
{
    let h = cdata.skip(1);
    let hs = spec_swapped_words(h);
    let c2 = seq![cdata[0]] + hs;
    assert(c2.skip(1) =~= hs);
    assert(hs.len() == h.len());
    assert(h.len() >= 1);
    assert(spec_swap32(ZFP_MAGIC_WORD) != ZFP_MAGIC_WORD) by (bit_vector);
    if h[0] == ZFP_MAGIC_WORD {
        assert(hs[0] == spec_swap32(h[0]));
        lemma_swap32_involution(h[0]);
        assert(hs[0] != ZFP_MAGIC_WORD) by {
            if hs[0] == ZFP_MAGIC_WORD {
                assert(spec_swap32(hs[0]) == h[0]);
                assert(spec_swap32(ZFP_MAGIC_WORD) == ZFP_MAGIC_WORD);
            }
        }
        assert(spec_swap32(hs[0]) == ZFP_MAGIC_WORD);
        assert(spec_swapped_words(hs) =~= h) by {
            assert(forall|i: int| 0 <= i < h.len() ==> #[trigger] spec_swapped_words(hs)[i]
                == spec_swap32(spec_swap32(h[i])));
            assert(forall|i: int| 0 <= i < h.len() ==> spec_swap32(spec_swap32(#[trigger] h[i]))
                == h[i]) by {
                assert forall|i: int| 0 <= i < h.len() implies spec_swap32(
                    spec_swap32(#[trigger] h[i]),
                ) == h[i] by {
                    lemma_swap32_involution(h[i]);
                }
            }
        }
        assert(spec_read_header_any_order(hs) == spec_read_header(h));
    } else {
        assert(spec_swap32(h[0]) == ZFP_MAGIC_WORD);
        assert(hs[0] == spec_swap32(h[0]));
        assert(spec_read_header_any_order(hs) == spec_read_header(hs));
        assert(spec_read_header_any_order(h) == spec_read_header(hs));
    }
}

/// Whether the zfp filter can attach to a dataset: only floating-point
/// element types are accepted.
pub fn can_apply_zfp(type_class: crate::sys::H5T_class_t) -> (r: bool)
    ensures
        r == (type_class is H5T_FLOAT),
{
    matches!(type_class, crate::sys::H5T_class_t::H5T_FLOAT)
}

/// A decoded configuration the transform functions accept: one to four
/// dimensions, positive extents up to the dimensionality's header bound,
/// and a four- or eight-byte element.
pub open spec fn spec_config_wf(cfg: ZfpConfig) -> bool {
    &&& 1 <= cfg.ndims <= 4
    &&& (cfg.typesize == 4 || cfg.typesize == 8)
    &&& 1 <= cfg.nx <= 0x1_0000_0000u64
    &&& (cfg.ndims >= 2 ==> 1 <= cfg.ny <= 0x1_0000_0000u64)
    &&& (cfg.ndims >= 3 ==> 1 <= cfg.nz <= 0x1_0000_0000u64)
    &&& (cfg.ndims >= 4 ==> 1 <= cfg.nw <= 0x1_0000_0000u64)
}

/// The stream parameters a chunk transform runs under, reconstructed from
/// a decoded configuration exactly as the codec's setters would be
/// called: the rate, precision or tolerance is re-applied, reversible
/// mode re-selected.  `None` for a configuration whose mode the transform
/// does not support (null or expert), whose rate is not a nonnegative
/// finite number with an encodable budget, or whose tolerance is
/// positive infinity.
pub open spec fn spec_transform_params(cfg: ZfpConfig) -> Option<ZfpStreamParams> {
    let ztype = if cfg.typesize == 4 {
        ZFP_TYPE_FLOAT
    } else {
        ZFP_TYPE_DOUBLE
    };
    if cfg.mode == ZFP_MODE_RATE {
        match spec_params_for(ZfpMode::FixedRate(cfg.rate_bits), ztype, cfg.ndims as nat) {
            Ok(p) => Some(p),
            Err(_) => None,
        }
    } else if cfg.mode == ZFP_MODE_PRECISION {
        Some(
            ZfpStreamParams {
                minbits: ZFP_MIN_BITS,
                maxbits: ZFP_MAX_BITS,
                maxprec: if cfg.precision == 0 || cfg.precision > 64 {
                    ZFP_MAX_PREC
                } else {
                    cfg.precision
                },
                minexp: ZFP_MIN_EXP,
            },
        )
    } else if cfg.mode == ZFP_MODE_ACCURACY {
        if f64_is_pos_inf(cfg.accuracy_bits) {
            None
        } else {
            Some(
                ZfpStreamParams {
                    minbits: ZFP_MIN_BITS,
                    maxbits: ZFP_MAX_BITS,
                    maxprec: ZFP_MAX_PREC,
                    minexp: spec_accuracy_minexp(cfg.accuracy_bits) as i32,
                },
            )
        }
    } else if cfg.mode == ZFP_MODE_REVERSIBLE {
        Some(
            ZfpStreamParams {
                minbits: ZFP_MIN_BITS,
                maxbits: ZFP_MAX_BITS,
                maxprec: ZFP_MAX_PREC,
                minexp: (ZFP_MIN_EXP - 1) as i32,
            },
        )
    } else {
        None
    }
}

/// Reconstructs the stream parameters a chunk transform runs under.
pub fn transform_params(cfg: &ZfpConfig) -> (r: Option<ZfpStreamParams>)
    requires
        cfg.typesize == 4 || cfg.typesize == 8,
        1 <= cfg.ndims <= 4,
    ensures
        r == spec_transform_params(*cfg),
{
    let ztype = if cfg.typesize == 4 {
        ZFP_TYPE_FLOAT
    } else {
        ZFP_TYPE_DOUBLE
    };
    if cfg.mode == ZFP_MODE_RATE {
        match zfp_params_for(&ZfpMode::FixedRate(cfg.rate_bits), ztype, cfg.ndims) {
            Ok(p) => Some(p),
            Err(_) => None,
        }
    } else if cfg.mode == ZFP_MODE_PRECISION {
        Some(
            ZfpStreamParams {
                minbits: ZFP_MIN_BITS,
                maxbits: ZFP_MAX_BITS,
                maxprec: if cfg.precision == 0 || cfg.precision > 64 {
                    ZFP_MAX_PREC
                } else {
                    cfg.precision
                },
                minexp: ZFP_MIN_EXP,
            },
        )
    } else if cfg.mode == ZFP_MODE_ACCURACY {
        let tb = cfg.accuracy_bits;
        let exp = (tb >> 52) & 0x7ff;
        let frac = tb & 0xf_ffff_ffff_ffff;
        let neg = (tb >> 63) != 0;
        proof {
            assert((tb >> 63) != 1 ==> (tb >> 63) == 0) by (bit_vector);
        }
        if exp == 0x7ff && frac == 0 && !neg {
            None
        } else {
            Some(
                ZfpStreamParams {
                    minbits: ZFP_MIN_BITS,
                    maxbits: ZFP_MAX_BITS,
                    maxprec: ZFP_MAX_PREC,
                    minexp: zfp_accuracy_minexp(tb),
                },
            )
        }
    } else if cfg.mode == ZFP_MODE_REVERSIBLE {
        Some(
            ZfpStreamParams {
                minbits: ZFP_MIN_BITS,
                maxbits: ZFP_MAX_BITS,
                maxprec: ZFP_MAX_PREC,
                minexp: ZFP_MIN_EXP - 1,
            },
        )
    } else {
        None
    }
}

/// The byte count of a decompressed chunk: the element width times every
/// extent, associated left to right.
pub open spec fn spec_output_size(cfg: ZfpConfig) -> nat {
    let t = cfg.typesize as nat;
    if cfg.ndims == 1 {
        (t * cfg.nx) as nat
    } else if cfg.ndims == 2 {
        ((t * cfg.nx) * cfg.ny) as nat
    } else if cfg.ndims == 3 {
        (((t * cfg.nx) * cfg.ny) * cfg.nz) as nat
    } else {
        ((((t * cfg.nx) * cfg.ny) * cfg.nz) * cfg.nw) as nat
    }
}

/// One multiplication step of the output-size product, guarded against
/// overflow.
fn mul_extent(total: usize, e: u64) -> (r: Option<usize>)
    requires
        total >= 1,
        e >= 1,
    ensures
        r matches Some(v) ==> v == total * e && v >= 1,
        r is None ==> total * e > usize::MAX,
{
    if e > usize::MAX as u64 {
        proof {
            vstd::arithmetic::mul::lemma_mul_inequality(1, total as int, e as int);
        }
        return None;
    }
    let r = total.checked_mul(e as usize);
    proof {
        if total * e <= usize::MAX {
            vstd::arithmetic::mul::lemma_mul_inequality(1, total as int, e as int);
        }
    }
    r
}

/// Computes the byte count a decompressed chunk needs, or `None` when it
/// exceeds the address space.
pub fn decompress_output_size(cfg: &ZfpConfig) -> (r: Option<usize>)
    requires
        spec_config_wf(*cfg),
    ensures
        r matches Some(v) ==> v == spec_output_size(*cfg),
        r is None ==> spec_output_size(*cfg) > usize::MAX,
{
    let mut total: usize = cfg.typesize;
    total = match mul_extent(total, cfg.nx) {
        None => {
            proof {
                lemma_output_size_lower(*cfg);
            }
            return None;
        },
        Some(v) => v,
    };
    if cfg.ndims >= 2 {
        total = match mul_extent(total, cfg.ny) {
            None => {
                proof {
                    lemma_output_size_lower(*cfg);
                }
                return None;
            },
            Some(v) => v,
        };
    }
    if cfg.ndims >= 3 {
        total = match mul_extent(total, cfg.nz) {
            None => {
                proof {
                    lemma_output_size_lower(*cfg);
                }
                return None;
            },
            Some(v) => v,
        };
    }
    if cfg.ndims >= 4 {
        total = match mul_extent(total, cfg.nw) {
            None => {
                proof {
                    lemma_output_size_lower(*cfg);
                }
                return None;
            },
            Some(v) => v,
        };
    }
    Some(total)
}

/// Each partial product of the output size bounds the whole from below.
proof fn lemma_output_size_lower(cfg: ZfpConfig)
    requires
        spec_config_wf(cfg),
    ensures
        spec_output_size(cfg) >= cfg.typesize * cfg.nx,
        cfg.ndims >= 2 ==> spec_output_size(cfg) >= (cfg.typesize * cfg.nx) * cfg.ny,
        cfg.ndims >= 3 ==> spec_output_size(cfg) >= ((cfg.typesize * cfg.nx) * cfg.ny) * cfg.nz,
{
    let t = cfg.typesize as int;
    vstd::arithmetic::mul::lemma_mul_inequality(1, cfg.nx as int, t);
    vstd::arithmetic::mul::lemma_mul_is_commutative(cfg.nx as int, t);
    if cfg.ndims >= 2 {
        vstd::arithmetic::mul::lemma_mul_inequality(1, cfg.ny as int, t * cfg.nx);
        vstd::arithmetic::mul::lemma_mul_is_commutative(cfg.ny as int, t * cfg.nx);
    }
    if cfg.ndims >= 3 {
        vstd::arithmetic::mul::lemma_mul_inequality(1, cfg.nz as int, (t * cfg.nx) * cfg.ny);
        vstd::arithmetic::mul::lemma_mul_is_commutative(cfg.nz as int, (t * cfg.nx) * cfg.ny);
    }
    if cfg.ndims >= 4 {
        vstd::arithmetic::mul::lemma_mul_inequality(
            1,
            cfg.nw as int,
            ((t * cfg.nx) * cfg.ny) * cfg.nz,
        );
    }
}

} // verus!
