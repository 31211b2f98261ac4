//! Typed chunk-filter configurations, their lossless mapping to and from
//! the flat `u32` parameter arrays the storage engine persists, and the
//! rules that decide whether an ordered filter pipeline is valid.

use vstd::prelude::*;

use crate::sys::H5T_class_t;
use crate::Error;

verus! {

/// A filter identifier.
pub type H5Z_filter_t = i32;

pub const H5Z_FILTER_DEFLATE: H5Z_filter_t = 1;

pub const H5Z_FILTER_SHUFFLE: H5Z_filter_t = 2;

pub const H5Z_FILTER_FLETCHER32: H5Z_filter_t = 3;

pub const H5Z_FILTER_SZIP: H5Z_filter_t = 4;

pub const H5Z_FILTER_NBIT: H5Z_filter_t = 5;

pub const H5Z_FILTER_SCALEOFFSET: H5Z_filter_t = 6;

/// Registered id of the LZF community filter.
pub const LZF_FILTER_ID: H5Z_filter_t = 32000;

/// Registered id of the Blosc community filter.
pub const BLOSC_FILTER_ID: H5Z_filter_t = 32001;

/// Registered id of the zfp community filter.
pub const ZFP_FILTER_ID: H5Z_filter_t = 32013;

/// Szip mask bit selecting entropy coding.
pub const H5_SZIP_EC_OPTION_MASK: u32 = 4;

/// Szip mask bit selecting nearest-neighbor coding.
pub const H5_SZIP_NN_OPTION_MASK: u32 = 32;

pub const H5_SZIP_MAX_PIXELS_PER_BLOCK: u32 = 32;

/// Scale-offset tags, as the engine's public scale-type enum numbers
/// them: 0 is float D-scaling, 1 float E-scaling (reserved, unsupported
/// here), 2 integer scaling.
pub const H5Z_SO_FLOAT_DSCALE: u32 = 0;

pub const H5Z_SO_INT: u32 = 2;

/// Blosc shuffle codes, as stored in parameter word 5.
pub const BLOSC_NOSHUFFLE: u32 = 0;

pub const BLOSC_SHUFFLE: u32 = 1;

pub const BLOSC_BITSHUFFLE: u32 = 2;

/// Blosc compressor codes, as stored in parameter word 6.
pub const BLOSC_BLOSCLZ: u32 = 0;

pub const BLOSC_LZ4: u32 = 1;

pub const BLOSC_LZ4HC: u32 = 2;

pub const BLOSC_SNAPPY: u32 = 3;

pub const BLOSC_ZLIB: u32 = 4;

pub const BLOSC_ZSTD: u32 = 5;

/// Coding methods for Szip compression.
#[derive(Clone, Copy, Debug, PartialEq, Eq, Structural)]
pub enum SZip {
    /// Entropy coding method.
    Entropy,
    /// Nearest-neighbor coding method.
    NearestNeighbor,
}

/// Scaling methods for scale-offset compression.
#[derive(Clone, Copy, Debug, PartialEq, Eq, Structural)]
pub enum ScaleOffset {
    /// Integer scaling with some MinBits value.
    Integer(u16),
    /// Floating-point D-scaling with some decimal scale factor.
    FloatDScale(u8),
}

/// Available compressors for Blosc compression.
#[derive(Clone, Copy, Debug, PartialEq, Eq, Structural)]
pub enum Blosc {
    BloscLZ,
    LZ4,
    LZ4HC,
    Snappy,
    ZLib,
    ZStd,
}

/// Shuffle modes for Blosc compression.
#[derive(Clone, Copy, Debug, PartialEq, Eq, Structural)]
pub enum BloscShuffle {
    NoShuffle,
    Byte,
    Bit,
}

impl Default for BloscShuffle {
    /// Byte shuffle is the default Blosc shuffle mode.
    fn default() -> (r: Self)
        ensures
            r == BloscShuffle::Byte,
    {
        BloscShuffle::Byte
    }
}

impl From<bool> for BloscShuffle {
    /// `true` selects byte shuffle, `false` no shuffle.
    fn from(shuffle: bool) -> (r: Self)
        ensures
            r == if shuffle {
                BloscShuffle::Byte
            } else {
                BloscShuffle::NoShuffle
            },
    {
        if shuffle {
            BloscShuffle::Byte
        } else {
            BloscShuffle::NoShuffle
        }
    }
}

impl vstd::std_specs::convert::FromSpecImpl<bool> for BloscShuffle {
    open spec fn obeys_from_spec() -> bool {
        true
    }

    open spec fn from_spec(shuffle: bool) -> BloscShuffle {
        if shuffle {
            BloscShuffle::Byte
        } else {
            BloscShuffle::NoShuffle
        }
    }
}

impl Default for Blosc {
    /// Blosc LZ is the default compressor.
    fn default() -> (r: Self)
        ensures
            r == Blosc::BloscLZ,
    {
        Blosc::BloscLZ
    }
}

/// A zfp compression mode.  The rate and accuracy parameters are IEEE 754
/// double-precision values carried by bit pattern, so that equality is
/// deterministic even for NaN and signed zero.
#[derive(Clone, Copy, Debug, PartialEq, Eq, Structural)]
pub enum ZfpMode {
    /// Fixed rate; the field is the bit pattern of the bits-per-value rate.
    FixedRate(u64),
    /// Fixed precision in bit planes per value.
    FixedPrecision(u8),
    /// Fixed accuracy; the field is the bit pattern of the error tolerance.
    FixedAccuracy(u64),
    /// Lossless mode.
    Reversible,
}

/// Bit pattern of the double-precision value four, the default rate.
pub const ZFP_DEFAULT_RATE_BITS: u64 = 0x4010_0000_0000_0000;

impl Default for ZfpMode {
    /// The default mode is a fixed rate of four bits per value.
    fn default() -> (r: Self)
        ensures
            r == ZfpMode::FixedRate(ZFP_DEFAULT_RATE_BITS),
    {
        ZfpMode::FixedRate(ZFP_DEFAULT_RATE_BITS)
    }
}

/// Element width and chunk shape of a zfp-compressed field.
#[derive(Clone, Debug, PartialEq, Eq)]
pub struct FieldParam {
    pub data_type_bytes: usize,
    pub dims: Vec<usize>,
}

/// A chunk filter configuration.
#[derive(Clone, Debug, PartialEq, Eq)]
pub enum Filter {
    /// Gzip compression (deflation) with some compression level.
    Deflate(u8),
    /// Shuffle algorithm.
    Shuffle,
    /// Fletcher32 checksum.
    Fletcher32,
    /// SZIP compression with some coding method and pixels per block.
    SZip(SZip, u8),
    /// N-bit compression.
    NBit,
    /// Scale-offset compression with some scaling mode.
    ScaleOffset(ScaleOffset),
    /// LZF compression.
    LZF,
    /// Blosc compression with some compressor, compression level, and
    /// shuffle mode.
    Blosc(Blosc, u8, BloscShuffle),
    /// zfp compression with some mode, chunk dimensions (slowest varying
    /// first), and element width in bytes.
    Zfp(ZfpMode, Vec<usize>, u8),
    /// A user-defined filter with some parameters.
    User(H5Z_filter_t, Vec<u32>),
}

/// Whether a filter is available and enabled for encoding/decoding.
#[derive(Default, Clone, Copy, Debug, PartialEq, Eq, Structural)]
pub struct FilterInfo {
    /// Whether the filter is available.
    pub is_available: bool,
    /// Whether the filter is configured to encode data.
    pub encode_enabled: bool,
    /// Whether the filter is configured to decode data.
    pub decode_enabled: bool,
}

impl Filter {
    /// The identifier of each filter kind.
    pub open spec fn spec_id(self) -> H5Z_filter_t {
        match self {
            Filter::Deflate(_) => H5Z_FILTER_DEFLATE,
            Filter::Shuffle => H5Z_FILTER_SHUFFLE,
            Filter::Fletcher32 => H5Z_FILTER_FLETCHER32,
            Filter::SZip(_, _) => H5Z_FILTER_SZIP,
            Filter::NBit => H5Z_FILTER_NBIT,
            Filter::ScaleOffset(_) => H5Z_FILTER_SCALEOFFSET,
            Filter::LZF => LZF_FILTER_ID,
            Filter::Blosc(_, _, _) => BLOSC_FILTER_ID,
            Filter::Zfp(_, _, _) => ZFP_FILTER_ID,
            Filter::User(id, _) => id,
        }
    }

    /// Returns the filter's identifier.
    pub fn id(&self) -> (r: H5Z_filter_t)
        ensures
            r == self.spec_id(),
    {
        match self {
            Filter::Deflate(_) => H5Z_FILTER_DEFLATE,
            Filter::Shuffle => H5Z_FILTER_SHUFFLE,
            Filter::Fletcher32 => H5Z_FILTER_FLETCHER32,
            Filter::SZip(_, _) => H5Z_FILTER_SZIP,
            Filter::NBit => H5Z_FILTER_NBIT,
            Filter::ScaleOffset(_) => H5Z_FILTER_SCALEOFFSET,
            Filter::LZF => LZF_FILTER_ID,
            Filter::Blosc(_, _, _) => BLOSC_FILTER_ID,
            Filter::Zfp(_, _, _) => ZFP_FILTER_ID,
            Filter::User(id, _) => *id,
        }
    }

    /// Creates a deflation filter configuration with some compression level.
    pub fn deflate(level: u8) -> (r: Self)
        ensures
            r == Filter::Deflate(level),
    {
        Filter::Deflate(level)
    }

    /// Returns the shuffle algorithm filter configuration.
    pub fn shuffle() -> (r: Self)
        ensures
            r == Filter::Shuffle,
    {
        Filter::Shuffle
    }

    /// Returns the Fletcher32 checksum filter configuration.
    pub fn fletcher32() -> (r: Self)
        ensures
            r == Filter::Fletcher32,
    {
        Filter::Fletcher32
    }

    /// Creates an Szip filter configuration with some coding method and
    /// pixels per block.
    pub fn szip(coding: SZip, px_per_block: u8) -> (r: Self)
        ensures
            r == Filter::SZip(coding, px_per_block),
    {
        Filter::SZip(coding, px_per_block)
    }

    /// Returns the N-bit compression filter configuration.
    pub fn nbit() -> (r: Self)
        ensures
            r == Filter::NBit,
    {
        Filter::NBit
    }

    /// Creates a scale-offset compression filter configuration with some
    /// scaling mode.
    pub fn scale_offset(mode: ScaleOffset) -> (r: Self)
        ensures
            r == Filter::ScaleOffset(mode),
    {
        Filter::ScaleOffset(mode)
    }

    /// Returns the LZF compression filter.
    pub fn lzf() -> (r: Self)
        ensures
            r == Filter::LZF,
    {
        Filter::LZF
    }

    /// Creates a Blosc compression filter configuration.
    pub fn blosc(complib: Blosc, clevel: u8, shuffle: BloscShuffle) -> (r: Self)
        ensures
            r == Filter::Blosc(complib, clevel, shuffle),
    {
        Filter::Blosc(complib, clevel, shuffle)
    }

    /// Creates a Blosc LZ filter configuration.
    pub fn blosc_blosclz(clevel: u8, shuffle: BloscShuffle) -> (r: Self)
        ensures
            r == Filter::Blosc(Blosc::BloscLZ, clevel, shuffle),
    {
        Filter::blosc(Blosc::BloscLZ, clevel, shuffle)
    }

    /// Creates a Blosc LZ4 filter configuration.
    pub fn blosc_lz4(clevel: u8, shuffle: BloscShuffle) -> (r: Self)
        ensures
            r == Filter::Blosc(Blosc::LZ4, clevel, shuffle),
    {
        Filter::blosc(Blosc::LZ4, clevel, shuffle)
    }

    /// Creates a Blosc LZ4HC filter configuration.
    pub fn blosc_lz4hc(clevel: u8, shuffle: BloscShuffle) -> (r: Self)
        ensures
            r == Filter::Blosc(Blosc::LZ4HC, clevel, shuffle),
    {
        Filter::blosc(Blosc::LZ4HC, clevel, shuffle)
    }

    /// Creates a Blosc Snappy filter configuration.
    pub fn blosc_snappy(clevel: u8, shuffle: BloscShuffle) -> (r: Self)
        ensures
            r == Filter::Blosc(Blosc::Snappy, clevel, shuffle),
    {
        Filter::blosc(Blosc::Snappy, clevel, shuffle)
    }

    /// Creates a Blosc Zlib filter configuration.
    pub fn blosc_zlib(clevel: u8, shuffle: BloscShuffle) -> (r: Self)
        ensures
            r == Filter::Blosc(Blosc::ZLib, clevel, shuffle),
    {
        Filter::blosc(Blosc::ZLib, clevel, shuffle)
    }

    /// Creates a Blosc Zstd filter configuration.
    pub fn blosc_zstd(clevel: u8, shuffle: BloscShuffle) -> (r: Self)
        ensures
            r == Filter::Blosc(Blosc::ZStd, clevel, shuffle),
    {
        Filter::blosc(Blosc::ZStd, clevel, shuffle)
    }

    /// Creates a zfp filter configuration.
    pub fn zfp(mode: ZfpMode, chunk_dims: Vec<usize>, n_bytes: u8) -> (r: Self)
        ensures
            r == Filter::Zfp(mode, chunk_dims, n_bytes),
    {
        Filter::Zfp(mode, chunk_dims, n_bytes)
    }

    /// Creates a fixed-rate zfp filter; the rate is given by bit pattern.
    pub fn zfp_rate(rate_bits: u64, chunk_dims: Vec<usize>, n_bytes: u8) -> (r: Self)
        ensures
            r == Filter::Zfp(ZfpMode::FixedRate(rate_bits), chunk_dims, n_bytes),
    {
        Filter::zfp(ZfpMode::FixedRate(rate_bits), chunk_dims, n_bytes)
    }

    /// Creates a fixed-precision zfp filter.
    pub fn zfp_precision(precision: u8, chunk_dims: Vec<usize>, n_bytes: u8) -> (r: Self)
        ensures
            r == Filter::Zfp(ZfpMode::FixedPrecision(precision), chunk_dims, n_bytes),
    {
        Filter::zfp(ZfpMode::FixedPrecision(precision), chunk_dims, n_bytes)
    }

    /// Creates a fixed-accuracy zfp filter; the tolerance is given by bit
    /// pattern.
    pub fn zfp_accuracy(accuracy_bits: u64, chunk_dims: Vec<usize>, n_bytes: u8) -> (r: Self)
        ensures
            r == Filter::Zfp(ZfpMode::FixedAccuracy(accuracy_bits), chunk_dims, n_bytes),
    {
        Filter::zfp(ZfpMode::FixedAccuracy(accuracy_bits), chunk_dims, n_bytes)
    }

    /// Creates a reversible (lossless) zfp filter.
    pub fn zfp_reversible(chunk_dims: Vec<usize>, n_bytes: u8) -> (r: Self)
        ensures
            r == Filter::Zfp(ZfpMode::Reversible, chunk_dims, n_bytes),
    {
        Filter::zfp(ZfpMode::Reversible, chunk_dims, n_bytes)
    }

    /// Creates a user-defined filter configuration from an identifier and
    /// parameter words.
    pub fn user(id: H5Z_filter_t, cdata: &[u32]) -> (r: Self)
        ensures
            r matches Filter::User(i, v) && i == id && v@ == cdata@,
    {
        Filter::User(id, copy_words(cdata))
    }
}

/// The mathematical view of a filter configuration: the same shape as
/// `Filter`, with sequences for the owned vectors.
pub enum FilterView {
    Deflate(u8),
    Shuffle,
    Fletcher32,
    SZip(SZip, u8),
    NBit,
    ScaleOffset(ScaleOffset),
    LZF,
    Blosc(Blosc, u8, BloscShuffle),
    Zfp(ZfpMode, Seq<usize>, u8),
    User(H5Z_filter_t, Seq<u32>),
}

impl View for Filter {
    type V = FilterView;

    open spec fn view(&self) -> FilterView {
        match self {
            Filter::Deflate(l) => FilterView::Deflate(*l),
            Filter::Shuffle => FilterView::Shuffle,
            Filter::Fletcher32 => FilterView::Fletcher32,
            Filter::SZip(c, p) => FilterView::SZip(*c, *p),
            Filter::NBit => FilterView::NBit,
            Filter::ScaleOffset(m) => FilterView::ScaleOffset(*m),
            Filter::LZF => FilterView::LZF,
            Filter::Blosc(c, l, s) => FilterView::Blosc(*c, *l, *s),
            Filter::Zfp(m, d, b) => FilterView::Zfp(*m, d@, *b),
            Filter::User(id, p) => FilterView::User(*id, p@),
        }
    }
}

impl FilterView {
    /// The identifier of each filter kind.
    pub open spec fn spec_id(self) -> H5Z_filter_t {
        match self {
            FilterView::Deflate(_) => H5Z_FILTER_DEFLATE,
            FilterView::Shuffle => H5Z_FILTER_SHUFFLE,
            FilterView::Fletcher32 => H5Z_FILTER_FLETCHER32,
            FilterView::SZip(_, _) => H5Z_FILTER_SZIP,
            FilterView::NBit => H5Z_FILTER_NBIT,
            FilterView::ScaleOffset(_) => H5Z_FILTER_SCALEOFFSET,
            FilterView::LZF => LZF_FILTER_ID,
            FilterView::Blosc(_, _, _) => BLOSC_FILTER_ID,
            FilterView::Zfp(_, _, _) => ZFP_FILTER_ID,
            FilterView::User(id, _) => id,
        }
    }
}

/// The parameter word that selects a Blosc shuffle mode.
pub open spec fn spec_blosc_shuffle_code(s: BloscShuffle) -> u32 {
    match s {
        BloscShuffle::NoShuffle => BLOSC_NOSHUFFLE,
        BloscShuffle::Byte => BLOSC_SHUFFLE,
        BloscShuffle::Bit => BLOSC_BITSHUFFLE,
    }
}

/// The parameter word that selects a Blosc compressor.
pub open spec fn spec_blosc_compressor_code(c: Blosc) -> u32 {
    match c {
        Blosc::BloscLZ => BLOSC_BLOSCLZ,
        Blosc::LZ4 => BLOSC_LZ4,
        Blosc::LZ4HC => BLOSC_LZ4HC,
        Blosc::Snappy => BLOSC_SNAPPY,
        Blosc::ZLib => BLOSC_ZLIB,
        Blosc::ZStd => BLOSC_ZSTD,
    }
}

/// Parsing a deflate slot: at least one word, the level at most nine.
pub open spec fn spec_parse_deflate(cdata: Seq<u32>) -> Result<FilterView, Error> {
    if cdata.len() < 1 {
        Err(Error::ParameterError)
    } else if cdata[0] > 9 {
        Err(Error::ParameterError)
    } else {
        Ok(FilterView::Deflate(cdata[0] as u8))
    }
}

/// Parsing an szip slot: at least two words, exactly one of the two
/// coding mask bits set, and at most 32 pixels per block.
pub open spec fn spec_parse_szip(cdata: Seq<u32>) -> Result<FilterView, Error> {
    if cdata.len() < 2 {
        Err(Error::ParameterError)
    } else if !((cdata[0] & H5_SZIP_EC_OPTION_MASK != 0) != (cdata[0] & H5_SZIP_NN_OPTION_MASK
        != 0)) {
        Err(Error::ParameterError)
    } else if cdata[1] > H5_SZIP_MAX_PIXELS_PER_BLOCK {
        Err(Error::ParameterError)
    } else {
        Ok(
            FilterView::SZip(
                if cdata[0] & H5_SZIP_EC_OPTION_MASK == 0 {
                    SZip::NearestNeighbor
                } else {
                    SZip::Entropy
                },
                cdata[1] as u8,
            ),
        )
    }
}

/// Parsing a scale-offset slot: at least two words; the first selects
/// integer or float D-scaling and bounds the second.
pub open spec fn spec_parse_scaleoffset(cdata: Seq<u32>) -> Result<FilterView, Error> {
    if cdata.len() < 2 {
        Err(Error::ParameterError)
    } else if cdata[0] == H5Z_SO_INT {
        if cdata[1] > 0xffff {
            Err(Error::ParameterError)
        } else {
            Ok(FilterView::ScaleOffset(ScaleOffset::Integer(cdata[1] as u16)))
        }
    } else if cdata[0] == H5Z_SO_FLOAT_DSCALE {
        if cdata[1] > 0xff {
            Err(Error::ParameterError)
        } else {
            Ok(FilterView::ScaleOffset(ScaleOffset::FloatDScale(cdata[1] as u8)))
        }
    } else {
        Err(Error::ParameterError)
    }
}

/// Parsing a Blosc slot: five to seven words; the level in word four at
/// most nine; known shuffle and compressor codes where present, byte
/// shuffle and Blosc LZ where absent.
pub open spec fn spec_parse_blosc(cdata: Seq<u32>) -> Result<FilterView, Error> {
    if cdata.len() < 5 || cdata.len() > 7 {
        Err(Error::ParameterError)
    } else if cdata[4] > 9 {
        Err(Error::ParameterError)
    } else if cdata.len() >= 6 && cdata[5] > BLOSC_BITSHUFFLE {
        Err(Error::ParameterError)
    } else if cdata.len() >= 7 && cdata[6] > BLOSC_ZSTD {
        Err(Error::ParameterError)
    } else {
        let shuffle = if cdata.len() >= 6 {
            if cdata[5] == BLOSC_NOSHUFFLE {
                BloscShuffle::NoShuffle
            } else if cdata[5] == BLOSC_SHUFFLE {
                BloscShuffle::Byte
            } else {
                BloscShuffle::Bit
            }
        } else {
            BloscShuffle::Byte
        };
        let complib = if cdata.len() >= 7 {
            if cdata[6] == BLOSC_BLOSCLZ {
                Blosc::BloscLZ
            } else if cdata[6] == BLOSC_LZ4 {
                Blosc::LZ4
            } else if cdata[6] == BLOSC_LZ4HC {
                Blosc::LZ4HC
            } else if cdata[6] == BLOSC_SNAPPY {
                Blosc::Snappy
            } else if cdata[6] == BLOSC_ZLIB {
                Blosc::ZLib
            } else {
                Blosc::ZStd
            }
        } else {
            Blosc::BloscLZ
        };
        Ok(FilterView::Blosc(complib, cdata[4] as u8, shuffle))
    }
}

/// The chunk extents of a decoded zfp configuration in storage order
/// (slowest varying first), undoing the header's fastest-first order.
pub open spec fn spec_config_dims(cfg: crate::zfp::ZfpConfig) -> Seq<u64> {
    if cfg.ndims == 1 {
        seq![cfg.nx]
    } else if cfg.ndims == 2 {
        seq![cfg.ny, cfg.nx]
    } else if cfg.ndims == 3 {
        seq![cfg.nz, cfg.ny, cfg.nx]
    } else {
        seq![cfg.nw, cfg.nz, cfg.ny, cfg.nx]
    }
}

/// Parsing a zfp slot: the header is decoded; the four recognized modes
/// map back to their `ZfpMode`; anything else (including expert-mode
/// headers) is rejected, as is an extent above `usize::MAX`.
pub open spec fn spec_parse_zfp(cdata: Seq<u32>) -> Result<FilterView, Error> {
    match crate::zfp::spec_parse_cdata(cdata) {
        None => Err(Error::ParameterError),
        Some(cfg) => {
            if cfg.nx > usize::MAX || cfg.ny > usize::MAX || cfg.nz > usize::MAX || cfg.nw
                > usize::MAX {
                Err(Error::ParameterError)
            } else {
                let dims = spec_config_dims(cfg).map_values(|d: u64| d as usize);
                if cfg.mode == crate::zfp::ZFP_MODE_RATE {
                    Ok(FilterView::Zfp(ZfpMode::FixedRate(cfg.rate_bits), dims, cfg.typesize as u8))
                } else if cfg.mode == crate::zfp::ZFP_MODE_PRECISION {
                    Ok(
                        FilterView::Zfp(
                            ZfpMode::FixedPrecision(cfg.precision as u8),
                            dims,
                            cfg.typesize as u8,
                        ),
                    )
                } else if cfg.mode == crate::zfp::ZFP_MODE_ACCURACY {
                    Ok(
                        FilterView::Zfp(
                            ZfpMode::FixedAccuracy(cfg.accuracy_bits),
                            dims,
                            cfg.typesize as u8,
                        ),
                    )
                } else if cfg.mode == crate::zfp::ZFP_MODE_REVERSIBLE {
                    Ok(FilterView::Zfp(ZfpMode::Reversible, dims, cfg.typesize as u8))
                } else {
                    Err(Error::ParameterError)
                }
            }
        },
    }
}

/// What `from_raw` returns for an identifier and parameter words: the
/// built-in identifiers parse per kind; shuffle, Fletcher32, N-bit and
/// LZF take no parameters; identifiers at most zero are rejected; any
/// other identifier passes through as a user filter.
pub open spec fn spec_from_raw(filter_id: H5Z_filter_t, cdata: Seq<u32>) -> Result<
    FilterView,
    Error,
> {
    if filter_id <= 0 {
        Err(Error::ParameterError)
    } else if filter_id == H5Z_FILTER_DEFLATE {
        spec_parse_deflate(cdata)
    } else if filter_id == H5Z_FILTER_SHUFFLE {
        Ok(FilterView::Shuffle)
    } else if filter_id == H5Z_FILTER_FLETCHER32 {
        Ok(FilterView::Fletcher32)
    } else if filter_id == H5Z_FILTER_SZIP {
        spec_parse_szip(cdata)
    } else if filter_id == H5Z_FILTER_NBIT {
        Ok(FilterView::NBit)
    } else if filter_id == H5Z_FILTER_SCALEOFFSET {
        spec_parse_scaleoffset(cdata)
    } else if filter_id == LZF_FILTER_ID {
        Ok(FilterView::LZF)
    } else if filter_id == BLOSC_FILTER_ID {
        spec_parse_blosc(cdata)
    } else if filter_id == ZFP_FILTER_ID {
        spec_parse_zfp(cdata)
    } else {
        Ok(FilterView::User(filter_id, cdata))
    }
}

/// What `to_raw` returns: each kind's parameter word layout, the zfp
/// header for a zfp filter, and a user filter's words unchanged.
pub open spec fn spec_to_raw(f: FilterView) -> Result<Seq<u32>, Error> {
    match f {
        FilterView::Deflate(l) => Ok(seq![l as u32]),
        FilterView::Shuffle => Ok(Seq::empty()),
        FilterView::Fletcher32 => Ok(Seq::empty()),
        FilterView::SZip(c, ppb) => Ok(
            seq![
                if c is Entropy {
                    H5_SZIP_EC_OPTION_MASK
                } else {
                    H5_SZIP_NN_OPTION_MASK
                },
                ppb as u32,
            ],
        ),
        FilterView::NBit => Ok(Seq::empty()),
        FilterView::ScaleOffset(m) => match m {
            ScaleOffset::Integer(b) => Ok(seq![H5Z_SO_INT, b as u32]),
            ScaleOffset::FloatDScale(d) => Ok(seq![H5Z_SO_FLOAT_DSCALE, d as u32]),
        },
        FilterView::LZF => Ok(Seq::empty()),
        FilterView::Blosc(c, l, s) => Ok(
            seq![
                0u32,
                0u32,
                0u32,
                0u32,
                l as u32,
                spec_blosc_shuffle_code(s),
                spec_blosc_compressor_code(c),
            ],
        ),
        FilterView::Zfp(mode, dims, nb) => crate::zfp::spec_encode_cdata(mode, dims, nb),
        FilterView::User(_, params) => Ok(params),
    }
}

impl Filter {
    /// Encodes the filter's configuration into the flat parameter words
    /// the storage engine persists, per the layout of `spec_to_raw`.  For
    /// a zfp filter the chunk shape must keep at least one extent above
    /// one after singleton elimination.
    pub fn to_raw(&self) -> (r: Result<Vec<u32>, Error>)
        requires
            self@ matches FilterView::Zfp(_, d, _) ==> crate::zfp::spec_nonsingleton(d).len() >= 1,
        ensures
            r matches Ok(v) ==> spec_to_raw(self@) matches Ok(s) && v@ == s,
            r matches Err(e) ==> spec_to_raw(self@) == Err::<Seq<u32>, Error>(e),
    {
        match self {
            Filter::Deflate(l) => {
                let mut v: Vec<u32> = Vec::new();
                v.push(*l as u32);
                proof {
                    assert(v@ =~= seq![*l as u32]);
                }
                Ok(v)
            },
            Filter::Shuffle => Ok(Vec::new()),
            Filter::Fletcher32 => Ok(Vec::new()),
            Filter::SZip(c, ppb) => {
                let mut v: Vec<u32> = Vec::new();
                v.push(
                    if matches!(c, SZip::Entropy) {
                        H5_SZIP_EC_OPTION_MASK
                    } else {
                        H5_SZIP_NN_OPTION_MASK
                    },
                );
                v.push(*ppb as u32);
                proof {
                    assert(spec_to_raw(self@) matches Ok(s) && v@ =~= s);
                }
                Ok(v)
            },
            Filter::NBit => Ok(Vec::new()),
            Filter::ScaleOffset(m) => {
                let mut v: Vec<u32> = Vec::new();
                match m {
                    ScaleOffset::Integer(b) => {
                        v.push(H5Z_SO_INT);
                        v.push(*b as u32);
                    },
                    ScaleOffset::FloatDScale(d) => {
                        v.push(H5Z_SO_FLOAT_DSCALE);
                        v.push(*d as u32);
                    },
                }
                proof {
                    assert(spec_to_raw(self@) matches Ok(s) && v@ =~= s);
                }
                Ok(v)
            },
            Filter::LZF => Ok(Vec::new()),
            Filter::Blosc(c, l, s) => {
                let mut v: Vec<u32> = Vec::new();
                v.push(0);
                v.push(0);
                v.push(0);
                v.push(0);
                v.push(*l as u32);
                v.push(
                    match s {
                        BloscShuffle::NoShuffle => BLOSC_NOSHUFFLE,
                        BloscShuffle::Byte => BLOSC_SHUFFLE,
                        BloscShuffle::Bit => BLOSC_BITSHUFFLE,
                    },
                );
                v.push(
                    match c {
                        Blosc::BloscLZ => BLOSC_BLOSCLZ,
                        Blosc::LZ4 => BLOSC_LZ4,
                        Blosc::LZ4HC => BLOSC_LZ4HC,
                        Blosc::Snappy => BLOSC_SNAPPY,
                        Blosc::ZLib => BLOSC_ZLIB,
                        Blosc::ZStd => BLOSC_ZSTD,
                    },
                );
                proof {
                    assert(spec_to_raw(self@) matches Ok(s) && v@ =~= s);
                }
                Ok(v)
            },
            Filter::Zfp(mode, dims, nb) => crate::zfp::encode_cdata(mode, dims.as_slice(), *nb),
            Filter::User(_, params) => Ok(copy_words(params.as_slice())),
        }
    }

    /// Tries to create a filter configuration from a filter identifier
    /// and parameter words, per `spec_from_raw`: built-in identifiers
    /// parse and validate their layout, unknown positive identifiers pass
    /// through as user filters, identifiers at most zero are rejected.
    pub fn from_raw(filter_id: H5Z_filter_t, cdata: &[u32]) -> (r: Result<Filter, Error>)
        ensures
            r matches Ok(f) ==> spec_from_raw(filter_id, cdata@) == Ok::<FilterView, Error>(f@),
            r matches Err(e) ==> spec_from_raw(filter_id, cdata@) == Err::<FilterView, Error>(e),
    {
        if filter_id <= 0 {
            return Err(Error::ParameterError);
        }
        if filter_id == H5Z_FILTER_DEFLATE {
            if cdata.len() < 1 || cdata[0] > 9 {
                return Err(Error::ParameterError);
            }
            return Ok(Filter::Deflate(cdata[0] as u8));
        }
        if filter_id == H5Z_FILTER_SHUFFLE {
            return Ok(Filter::Shuffle);
        }
        if filter_id == H5Z_FILTER_FLETCHER32 {
            return Ok(Filter::Fletcher32);
        }
        if filter_id == H5Z_FILTER_SZIP {
            if cdata.len() < 2 {
                return Err(Error::ParameterError);
            }
            let m = cdata[0];
            if !((m & H5_SZIP_EC_OPTION_MASK != 0) != (m & H5_SZIP_NN_OPTION_MASK != 0)) {
                return Err(Error::ParameterError);
            }
            if cdata[1] > H5_SZIP_MAX_PIXELS_PER_BLOCK {
                return Err(Error::ParameterError);
            }
            let coding = if m & H5_SZIP_EC_OPTION_MASK == 0 {
                SZip::NearestNeighbor
            } else {
                SZip::Entropy
            };
            return Ok(Filter::SZip(coding, cdata[1] as u8));
        }
        if filter_id == H5Z_FILTER_NBIT {
            return Ok(Filter::NBit);
        }
        if filter_id == H5Z_FILTER_SCALEOFFSET {
            if cdata.len() < 2 {
                return Err(Error::ParameterError);
            }
            if cdata[0] == H5Z_SO_INT {
                if cdata[1] > 0xffff {
                    return Err(Error::ParameterError);
                }
                return Ok(Filter::ScaleOffset(ScaleOffset::Integer(cdata[1] as u16)));
            }
            if cdata[0] == H5Z_SO_FLOAT_DSCALE {
                if cdata[1] > 0xff {
                    return Err(Error::ParameterError);
                }
                return Ok(Filter::ScaleOffset(ScaleOffset::FloatDScale(cdata[1] as u8)));
            }
            return Err(Error::ParameterError);
        }
        if filter_id == LZF_FILTER_ID {
            return Ok(Filter::LZF);
        }
        if filter_id == BLOSC_FILTER_ID {
            return Self::parse_blosc(cdata);
        }
        if filter_id == ZFP_FILTER_ID {
            return Self::parse_zfp(cdata);
        }
        Ok(Filter::User(filter_id, copy_words(cdata)))
    }

    /// Parses a Blosc slot, per `spec_parse_blosc`.
    fn parse_blosc(cdata: &[u32]) -> (r: Result<Filter, Error>)
        ensures
            r matches Ok(f) ==> spec_parse_blosc(cdata@) == Ok::<FilterView, Error>(f@),
            r matches Err(e) ==> spec_parse_blosc(cdata@) == Err::<FilterView, Error>(e),
    {
        if cdata.len() < 5 || cdata.len() > 7 {
            return Err(Error::ParameterError);
        }
        if cdata[4] > 9 {
            return Err(Error::ParameterError);
        }
        let shuffle = if cdata.len() >= 6 {
            if cdata[5] == BLOSC_NOSHUFFLE {
                BloscShuffle::NoShuffle
            } else if cdata[5] == BLOSC_SHUFFLE {
                BloscShuffle::Byte
            } else if cdata[5] == BLOSC_BITSHUFFLE {
                BloscShuffle::Bit
            } else {
                return Err(Error::ParameterError);
            }
        } else {
            BloscShuffle::Byte
        };
        let complib = if cdata.len() >= 7 {
            if cdata[6] == BLOSC_BLOSCLZ {
                Blosc::BloscLZ
            } else if cdata[6] == BLOSC_LZ4 {
                Blosc::LZ4
            } else if cdata[6] == BLOSC_LZ4HC {
                Blosc::LZ4HC
            } else if cdata[6] == BLOSC_SNAPPY {
                Blosc::Snappy
            } else if cdata[6] == BLOSC_ZLIB {
                Blosc::ZLib
            } else if cdata[6] == BLOSC_ZSTD {
                Blosc::ZStd
            } else {
                return Err(Error::ParameterError);
            }
        } else {
            Blosc::BloscLZ
        };
        Ok(Filter::Blosc(complib, cdata[4] as u8, shuffle))
    }

    /// Parses a zfp slot, per `spec_parse_zfp`: the header is decoded and
    /// the recognized mode and storage-order chunk extents recovered.
    fn parse_zfp(cdata: &[u32]) -> (r: Result<Filter, Error>)
        ensures
            r matches Ok(f) ==> spec_parse_zfp(cdata@) == Ok::<FilterView, Error>(f@),
            r matches Err(e) ==> spec_parse_zfp(cdata@) == Err::<FilterView, Error>(e),
    {
        let cfg = match crate::zfp::parse_zfp_cdata(cdata) {
            None => {
                return Err(Error::ParameterError);
            },
            Some(cfg) => cfg,
        };
        let max: u64 = usize::MAX as u64;
        if cfg.nx > max || cfg.ny > max || cfg.nz > max || cfg.nw > max {
            return Err(Error::ParameterError);
        }
        let mut dims: Vec<usize> = Vec::new();
        if cfg.ndims == 1 {
            dims.push(cfg.nx as usize);
        } else if cfg.ndims == 2 {
            dims.push(cfg.ny as usize);
            dims.push(cfg.nx as usize);
        } else if cfg.ndims == 3 {
            dims.push(cfg.nz as usize);
            dims.push(cfg.ny as usize);
            dims.push(cfg.nx as usize);
        } else {
            dims.push(cfg.nw as usize);
            dims.push(cfg.nz as usize);
            dims.push(cfg.ny as usize);
            dims.push(cfg.nx as usize);
        }
        proof {
            assert(dims@ =~= spec_config_dims(cfg).map_values(|d: u64| d as usize));
        }
        let n_bytes = cfg.typesize as u8;
        if cfg.mode == crate::zfp::ZFP_MODE_RATE {
            Ok(Filter::Zfp(ZfpMode::FixedRate(cfg.rate_bits), dims, n_bytes))
        } else if cfg.mode == crate::zfp::ZFP_MODE_PRECISION {
            Ok(Filter::Zfp(ZfpMode::FixedPrecision(cfg.precision as u8), dims, n_bytes))
        } else if cfg.mode == crate::zfp::ZFP_MODE_ACCURACY {
            Ok(Filter::Zfp(ZfpMode::FixedAccuracy(cfg.accuracy_bits), dims, n_bytes))
        } else if cfg.mode == crate::zfp::ZFP_MODE_REVERSIBLE {
            Ok(Filter::Zfp(ZfpMode::Reversible, dims, n_bytes))
        } else {
            Err(Error::ParameterError)
        }
    }
}

/// Whether the id belongs to a compression-class filter: deflate, szip,
/// lzf, blosc or zfp.
pub open spec fn spec_is_comp_id(id: H5Z_filter_t) -> bool {
    ||| id == H5Z_FILTER_DEFLATE
    ||| id == H5Z_FILTER_SZIP
    ||| id == LZF_FILTER_ID
    ||| id == BLOSC_FILTER_ID
    ||| id == ZFP_FILTER_ID
}

/// Whether a scale-offset mode fits the element type class: integer
/// scaling for integer and enum elements, float D-scaling for float
/// elements, nothing else.
pub open spec fn spec_scale_offset_compatible(mode: ScaleOffset, tc: H5T_class_t) -> bool {
    match tc {
        H5T_class_t::H5T_INTEGER => mode is Integer,
        H5T_class_t::H5T_ENUM => mode is Integer,
        H5T_class_t::H5T_FLOAT => mode is FloatDScale,
        _ => false,
    }
}

/// The checks applied to one filter during the left-to-right scan, given
/// the ids already seen and whether a compression filter was seen, in this
/// precedence: availability, duplicate id, compression exclusivity,
/// checksum after scale-offset, scale-offset type compatibility, szip
/// before checksum, shuffle after compression.
pub open spec fn spec_filter_check(
    f: Filter,
    info: FilterInfo,
    seen: Seq<H5Z_filter_t>,
    comp_seen: bool,
    tc: H5T_class_t,
) -> Result<(), Error> {
    if !(info.is_available && info.encode_enabled && info.decode_enabled) {
        Err(Error::FilterUnavailable)
    } else if seen.contains(f.spec_id()) {
        Err(Error::DuplicateFilter)
    } else if spec_is_comp_id(f.spec_id()) && comp_seen {
        Err(Error::MultipleCompressionFilters)
    } else if f.spec_id() == H5Z_FILTER_FLETCHER32 && seen.contains(H5Z_FILTER_SCALEOFFSET) {
        Err(Error::OrderViolation)
    } else if f matches Filter::ScaleOffset(mode) && !spec_scale_offset_compatible(mode, tc) {
        Err(Error::IncompatibleScaleOffsetMode)
    } else if f matches Filter::SZip(_, _) && seen.contains(H5Z_FILTER_FLETCHER32) {
        Err(Error::OrderViolation)
    } else if f matches Filter::Shuffle && comp_seen {
        Err(Error::OrderViolation)
    } else {
        Ok(())
    }
}

/// The scan over the remaining filters, carrying the ids seen so far and
/// whether a compression filter was seen.  The first violation is the
/// result.
pub open spec fn spec_validate_rec(
    filters: Seq<Filter>,
    infos: Seq<FilterInfo>,
    tc: H5T_class_t,
    seen: Seq<H5Z_filter_t>,
    comp_seen: bool,
) -> Result<(), Error>
    decreases filters.len(),
{
    if filters.len() == 0 {
        Ok(())
    } else {
        match spec_filter_check(filters[0], infos[0], seen, comp_seen, tc) {
            Err(e) => Err(e),
            Ok(()) => spec_validate_rec(
                filters.skip(1),
                infos.skip(1),
                tc,
                seen.push(filters[0].spec_id()),
                comp_seen || spec_is_comp_id(filters[0].spec_id()),
            ),
        }
    }
}

/// Whether an ordered pipeline is valid for an element type class, given
/// each filter's availability report: the whole left-to-right scan.
pub open spec fn spec_validate(filters: Seq<Filter>, infos: Seq<FilterInfo>, tc: H5T_class_t) -> Result<
    (),
    Error,
> {
    spec_validate_rec(filters, infos, tc, Seq::empty(), false)
}

/// Whether an id is in the vector of ids already seen.
fn contains_id(v: &Vec<H5Z_filter_t>, id: H5Z_filter_t) -> (r: bool)
    ensures
        r == v@.contains(id),
{
    let mut i: usize = 0;
    while i < v.len()
        invariant
            i <= v.len(),
            forall|j: int| 0 <= j < i ==> v@[j] != id,
        decreases v.len() - i,
    {
        if v[i] == id {
            return true;
        }
        i = i + 1;
    }
    false
}

/// Checks an ordered filter pipeline against the compatibility and
/// ordering rules, for a dataset whose element type has class
/// `type_class`.  `infos[i]` is the engine's availability report for
/// `filters[i]`.  A single left-to-right scan reports the first violation;
/// the result is exactly `spec_validate(filters@, infos@, type_class)`.
pub fn validate_filters(filters: &[Filter], infos: &[FilterInfo], type_class: H5T_class_t) -> (r:
    Result<(), Error>)
    requires
        filters@.len() == infos@.len(),
    ensures
        r == spec_validate(filters@, infos@, type_class),
{
    let ghost all = filters@;
    let ghost all_infos = infos@;
    let mut seen: Vec<H5Z_filter_t> = Vec::new();
    let mut comp_seen: bool = false;
    let mut i: usize = 0;
    proof {
        assert(all.skip(0) =~= all);
        assert(all_infos.skip(0) =~= all_infos);
        assert(seen@ =~= Seq::new(0nat, |j: int| all[j].spec_id()));
    }
    while i < filters.len()
        invariant
            filters@ == all,
            infos@ == all_infos,
            all.len() == all_infos.len(),
            i <= all.len(),
            seen@ == Seq::new(i as nat, |j: int| all[j].spec_id()),
            comp_seen == exists|j: int| 0 <= j < i && spec_is_comp_id(#[trigger] all[j].spec_id()),
            spec_validate(all, all_infos, type_class) == spec_validate_rec(
                all.skip(i as int),
                all_infos.skip(i as int),
                type_class,
                seen@,
                comp_seen,
            ),
        decreases all.len() - i,
    {
        let f = &filters[i];
        let info = &infos[i];
        proof {
            assert(all.skip(i as int)[0] == all[i as int]);
            assert(all_infos.skip(i as int)[0] == all_infos[i as int]);
        }
        if !(info.is_available && info.encode_enabled && info.decode_enabled) {
            return Err(Error::FilterUnavailable);
        }
        let id = f.id();
        if contains_id(&seen, id) {
            return Err(Error::DuplicateFilter);
        }
        let is_comp = id == H5Z_FILTER_DEFLATE || id == H5Z_FILTER_SZIP || id == LZF_FILTER_ID
            || id == BLOSC_FILTER_ID || id == ZFP_FILTER_ID;
        if is_comp && comp_seen {
            return Err(Error::MultipleCompressionFilters);
        }
        if id == H5Z_FILTER_FLETCHER32 && contains_id(&seen, H5Z_FILTER_SCALEOFFSET) {
            return Err(Error::OrderViolation);
        }
        if let Filter::ScaleOffset(mode) = f {
            let compatible = match type_class {
                H5T_class_t::H5T_INTEGER => matches!(mode, ScaleOffset::Integer(_)),
                H5T_class_t::H5T_ENUM => matches!(mode, ScaleOffset::Integer(_)),
                H5T_class_t::H5T_FLOAT => matches!(mode, ScaleOffset::FloatDScale(_)),
                _ => false,
            };
            if !compatible {
                return Err(Error::IncompatibleScaleOffsetMode);
            }
        }
        if matches!(f, Filter::SZip(_, _)) && contains_id(&seen, H5Z_FILTER_FLETCHER32) {
            return Err(Error::OrderViolation);
        }
        if matches!(f, Filter::Shuffle) && comp_seen {
            return Err(Error::OrderViolation);
        }
        seen.push(id);
        comp_seen = comp_seen || is_comp;
        i = i + 1;
        proof {
            assert(all.skip(i - 1).skip(1) =~= all.skip(i as int));
            assert(all_infos.skip(i - 1).skip(1) =~= all_infos.skip(i as int));
            assert(seen@ =~= Seq::new(i as nat, |j: int| all[j].spec_id()));
        }
    }
    proof {
        assert(all.skip(i as int).len() == 0);
    }
    Ok(())
}

/// Whether an id is one of the identifiers this library parses
/// specially.
pub open spec fn spec_is_builtin_id(id: H5Z_filter_t) -> bool {
    ||| id == H5Z_FILTER_DEFLATE
    ||| id == H5Z_FILTER_SHUFFLE
    ||| id == H5Z_FILTER_FLETCHER32
    ||| id == H5Z_FILTER_SZIP
    ||| id == H5Z_FILTER_NBIT
    ||| id == H5Z_FILTER_SCALEOFFSET
    ||| id == LZF_FILTER_ID
    ||| id == BLOSC_FILTER_ID
    ||| id == ZFP_FILTER_ID
}

/// The configurations a filter kind admits: a deflate or Blosc level at
/// most nine, at most 32 pixels per block for szip, a positive
/// non-built-in id for a user filter.
pub open spec fn spec_filter_valid(f: FilterView) -> bool {
    match f {
        FilterView::Deflate(l) => l <= 9,
        FilterView::SZip(_, ppb) => ppb <= 32,
        FilterView::Blosc(_, l, _) => l <= 9,
        FilterView::User(id, _) => id > 0 && !spec_is_builtin_id(id),
        _ => true,
    }
}

/// The raw mapping loses nothing: for every valid filter value of fixed
/// parameter layout (every kind but zfp, whose header round trip is
/// stated separately), parsing the encoded parameter words under the
/// filter's own id returns the same value.
pub proof fn lemma_raw_roundtrip(f: FilterView)
    requires
        spec_filter_valid(f),
        !(f matches FilterView::Zfp(_, _, _)),
    ensures
        spec_to_raw(f) matches Ok(c) && spec_from_raw(f.spec_id(), c) == Ok::<FilterView, Error>(f),
{
    match f {
        FilterView::SZip(c, ppb) => {
            assert(4u32 & 4u32 != 0 && 4u32 & 32u32 == 0 && 32u32 & 4u32 == 0 && 32u32 & 32u32
                != 0) by (bit_vector);
        },
        FilterView::User(id, params) => {
            assert(spec_from_raw(id, params) == Ok::<FilterView, Error>(f));
        },
        _ => {},
    }
}

/// The raw mapping for a zfp filter: parsing the encoded slot returns the
/// same chunk shape and element width, and the mode in canonical form —
/// the mode itself whenever its parameter is exactly representable in the
/// header (as a dyadic rate, a precision in `[1, 63]`, a power-of-two
/// tolerance above the smallest exponent, or reversible mode).
pub proof fn lemma_zfp_raw_roundtrip(mode: ZfpMode, dims: Seq<usize>, n_bytes: u8)
    requires
        n_bytes == 4 || n_bytes == 8,
        1 <= dims.len() <= 4,
        forall|i: int| 0 <= i < dims.len() ==> 2 <= #[trigger] dims[i],
        crate::zfp::spec_dims_fit(dims.map_values(|d: usize| d as u64)),
        dims.len() == 1 ==> dims[0] <= 0x1_0000_0000,
        mode matches ZfpMode::FixedRate(rb) ==> crate::zfp::f64_is_finite(rb)
            && !crate::zfp::f64_is_neg(rb) && crate::zfp::spec_rate_maxbits(
            rb,
            dims.len() as nat,
            crate::zfp::spec_zfp_type_of(n_bytes),
        ) <= crate::zfp::ZFP_MAX_BITS,
        mode matches ZfpMode::FixedPrecision(pr) ==> 1 <= pr <= 63,
        mode matches ZfpMode::FixedAccuracy(tb) ==> !crate::zfp::f64_is_pos_inf(tb)
            && crate::zfp::spec_accuracy_minexp(tb) > -1074,
    ensures
        spec_to_raw(FilterView::Zfp(mode, dims, n_bytes)) matches Ok(c) && spec_from_raw(
            ZFP_FILTER_ID,
            c,
        ) == Ok::<FilterView, Error>(
            FilterView::Zfp(
                crate::zfp::spec_canonical_mode(
                    mode,
                    crate::zfp::spec_zfp_type_of(n_bytes),
                    dims.len() as nat,
                ),
                dims,
                n_bytes,
            ),
        ),
{
    crate::zfp::lemma_zfp_header_roundtrip(mode, dims, n_bytes);
    let c = crate::zfp::spec_encode_cdata(mode, dims, n_bytes)->Ok_0;
    let cfg = crate::zfp::spec_parse_cdata(c)->Some_0;
    let nd = dims.map_values(|d: usize| d as u64);
    assert(spec_config_dims(cfg) == nd);
    assert(spec_config_dims(cfg).map_values(|d: u64| d as usize) =~= dims);
    assert(forall|i: int| 0 <= i < nd.len() ==> #[trigger] nd[i] <= usize::MAX);
    assert(cfg.ndims == dims.len());
    if cfg.ndims == 1 {
        assert(cfg.nx == spec_config_dims(cfg)[0]);
    } else if cfg.ndims == 2 {
        assert(cfg.ny == spec_config_dims(cfg)[0] && cfg.nx == spec_config_dims(cfg)[1]);
    } else if cfg.ndims == 3 {
        assert(cfg.nz == spec_config_dims(cfg)[0] && cfg.ny == spec_config_dims(cfg)[1] && cfg.nx
            == spec_config_dims(cfg)[2]);
    } else {
        assert(cfg.nw == spec_config_dims(cfg)[0] && cfg.nz == spec_config_dims(cfg)[1] && cfg.ny
            == spec_config_dims(cfg)[2] && cfg.nx == spec_config_dims(cfg)[3]);
    }
}

/// The engine's filter registry, as this library models it: which filter
/// ids are registered, and whether each can encode and decode.  The
/// embedder fills it from the engine's reports.
#[derive(Debug, PartialEq, Eq)]
pub struct FilterTable {
    pub entries: Vec<(H5Z_filter_t, FilterInfo)>,
}

/// The availability report for an id: the first entry under the id, or
/// an all-false report when the id is not registered.
pub open spec fn spec_lookup(entries: Seq<(H5Z_filter_t, FilterInfo)>, id: H5Z_filter_t) -> FilterInfo
    decreases entries.len(),
{
    if entries.len() == 0 {
        FilterInfo { is_available: false, encode_enabled: false, decode_enabled: false }
    } else if entries[0].0 == id {
        entries[0].1
    } else {
        spec_lookup(entries.skip(1), id)
    }
}

impl FilterTable {
    /// An empty registry: nothing is available.
    pub fn new() -> (r: FilterTable)
        ensures
            r.entries@.len() == 0,
    {
        FilterTable { entries: Vec::new() }
    }

    /// Records the engine's report for a filter id.
    pub fn insert(&mut self, id: H5Z_filter_t, info: FilterInfo)
        ensures
            final(self).entries@ == old(self).entries@.push((id, info)),
    {
        self.entries.push((id, info));
    }

    /// Whether some entry carries the id.
    pub open spec fn spec_contains(self, id: H5Z_filter_t) -> bool {
        exists|i: int| 0 <= i < self.entries@.len() && (#[trigger] self.entries@[i]).0 == id
    }
}

impl Filter {
    /// Returns the registry's report for the filter with the given
    /// identifier.
    pub fn get_info(table: &FilterTable, filter_id: H5Z_filter_t) -> (r: FilterInfo)
        ensures
            r == spec_lookup(table.entries@, filter_id),
    {
        let ghost all = table.entries@;
        let mut i: usize = 0;
        proof {
            assert(all.skip(0) =~= all);
        }
        while i < table.entries.len()
            invariant
                table.entries@ == all,
                i <= all.len(),
                spec_lookup(all, filter_id) == spec_lookup(all.skip(i as int), filter_id),
            decreases all.len() - i,
        {
            let (id, info) = table.entries[i];
            proof {
                assert(all.skip(i as int)[0] == all[i as int]);
                assert(all.skip(i as int).skip(1) =~= all.skip(i + 1));
            }
            if id == filter_id {
                return info;
            }
            i = i + 1;
        }
        FilterInfo { is_available: false, encode_enabled: false, decode_enabled: false }
    }

    /// Returns `true` if the registry reports the filter available.
    pub fn is_available(&self, table: &FilterTable) -> (r: bool)
        ensures
            r == spec_lookup(table.entries@, self.spec_id()).is_available,
    {
        Filter::get_info(table, self.id()).is_available
    }

    /// Returns `true` if the registry reports the filter able to encode.
    pub fn encode_enabled(&self, table: &FilterTable) -> (r: bool)
        ensures
            r == spec_lookup(table.entries@, self.spec_id()).encode_enabled,
    {
        Filter::get_info(table, self.id()).encode_enabled
    }

    /// Returns `true` if the registry reports the filter able to decode.
    pub fn decode_enabled(&self, table: &FilterTable) -> (r: bool)
        ensures
            r == spec_lookup(table.entries@, self.spec_id()).decode_enabled,
    {
        Filter::get_info(table, self.id()).decode_enabled
    }
}

/// Returns `true` if the registry reports the deflate filter available.
pub fn deflate_available(table: &FilterTable) -> (r: bool)
    ensures
        r == spec_lookup(table.entries@, H5Z_FILTER_DEFLATE).is_available,
{
    Filter::get_info(table, H5Z_FILTER_DEFLATE).is_available
}

/// Returns `true` if the registry reports the deflate filter available.
pub fn gzip_available(table: &FilterTable) -> (r: bool)
    ensures
        r == spec_lookup(table.entries@, H5Z_FILTER_DEFLATE).is_available,
{
    deflate_available(table)
}

/// Returns `true` if the registry reports the szip filter available.
pub fn szip_available(table: &FilterTable) -> (r: bool)
    ensures
        r == spec_lookup(table.entries@, H5Z_FILTER_SZIP).is_available,
{
    Filter::get_info(table, H5Z_FILTER_SZIP).is_available
}

/// Returns `true` if the registry reports the LZF filter available.
pub fn lzf_available(table: &FilterTable) -> (r: bool)
    ensures
        r == spec_lookup(table.entries@, LZF_FILTER_ID).is_available,
{
    Filter::get_info(table, LZF_FILTER_ID).is_available
}

/// Returns `true` if the registry reports the Blosc filter available.
pub fn blosc_available(table: &FilterTable) -> (r: bool)
    ensures
        r == spec_lookup(table.entries@, BLOSC_FILTER_ID).is_available,
{
    Filter::get_info(table, BLOSC_FILTER_ID).is_available
}

/// Returns `true` if the registry reports the zfp filter available.
pub fn zfp_available(table: &FilterTable) -> (r: bool)
    ensures
        r == spec_lookup(table.entries@, ZFP_FILTER_ID).is_available,
{
    Filter::get_info(table, ZFP_FILTER_ID).is_available
}

/// Copies a slice of parameter words into an owned vector.
fn copy_words(s: &[u32]) -> (r: Vec<u32>)
    ensures
        r@ == s@,
{
    let mut out: Vec<u32> = Vec::new();
    let mut i: usize = 0;
    while i < s.len()
        invariant
            i <= s.len(),
            out@ == s@.take(i as int),
        decreases s.len() - i,
    {
        out.push(s[i]);
        i = i + 1;
        proof {
            assert(out@ == s@.take(i as int)) by {
                assert(s@.take(i as int) == s@.take(i - 1).push(s@[i - 1]));
            }
        }
    }
    proof {
        assert(s@.take(s@.len() as int) == s@);
    }
    out
}

} // verus!
