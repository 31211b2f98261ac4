use hdf5_filters::filters::{Filter, ZfpMode, ZFP_FILTER_ID};
use hdf5_filters::sys::H5T_class_t;
use hdf5_filters::zfp::{
    can_apply_zfp, decompress_output_size, encode_cdata, parse_zfp_cdata, register_zfp,
    transform_params, zfp_stream_compression_mode, ZFP_MAGIC_WORD, ZFP_MODE_ACCURACY,
    ZFP_MODE_PRECISION, ZFP_MODE_RATE, ZFP_MODE_REVERSIBLE, ZFP_VERSION_WORD,
};
use hdf5_filters::filters::{FilterInfo, FilterTable};
use hdf5_filters::Error;

fn zfp_roundtrip(mode: ZfpMode, dims: Vec<usize>, n_bytes: u8) -> Filter {
    let f = Filter::zfp(mode, dims, n_bytes);
    let raw = f.to_raw().unwrap();
    Filter::from_raw(ZFP_FILTER_ID, &raw).unwrap()
}

#[test]
fn test_zfp_header_roundtrip_modes() {
    // each mode over one- to four-dimensional chunk shapes
    let shapes: [Vec<usize>; 4] =
        [vec![1000], vec![10_000, 20], vec![2, 5, 25], vec![2, 2, 5, 50]];
    for shape in &shapes {
        for n_bytes in [4u8, 8u8] {
            for mode in [
                ZfpMode::FixedRate(8.0f64.to_bits()),
                ZfpMode::FixedPrecision(16),
                ZfpMode::FixedAccuracy(0.125f64.to_bits()),
                ZfpMode::Reversible,
            ] {
                let back = zfp_roundtrip(mode, shape.clone(), n_bytes);
                assert_eq!(back, Filter::Zfp(mode, shape.clone(), n_bytes));
            }
        }
    }
}

#[test]
fn test_zfp_accuracy_snaps_to_power_of_two() {
    // a tolerance that is not a power of two comes back as the power of
    // two just below it: 1e-3 decodes as 2^-10
    let back = zfp_roundtrip(ZfpMode::FixedAccuracy(1e-3f64.to_bits()), vec![1000], 4);
    let expected = ZfpMode::FixedAccuracy((2.0f64.powi(-10)).to_bits());
    assert_eq!(back, Filter::Zfp(expected, vec![1000], 4));
}

#[test]
fn test_zfp_low_rate_is_floored() {
    // a rate of 2.0 on one-dimensional floats asks for 8 bits per block,
    // under the 9-bit floor for floats; the stored rate is 9/4
    let back = zfp_roundtrip(ZfpMode::FixedRate(2.0f64.to_bits()), vec![1000], 4);
    let expected = ZfpMode::FixedRate(2.25f64.to_bits());
    assert_eq!(back, Filter::Zfp(expected, vec![1000], 4));
}

#[test]
fn test_zfp_max_rate_long_mode() {
    // the largest rate for each element width, on a four-dimensional
    // chunk, needs the 64-bit mode code and still round trips
    let back = zfp_roundtrip(ZfpMode::FixedRate(32.0f64.to_bits()), vec![2, 2, 5, 50], 4);
    assert_eq!(back, Filter::Zfp(ZfpMode::FixedRate(32.0f64.to_bits()), vec![2, 2, 5, 50], 4));
    let back = zfp_roundtrip(ZfpMode::FixedRate(64.0f64.to_bits()), vec![2, 2, 5, 50], 8);
    assert_eq!(back, Filter::Zfp(ZfpMode::FixedRate(64.0f64.to_bits()), vec![2, 2, 5, 50], 8));
}

#[test]
fn test_zfp_singleton_elimination() {
    // extents of one are dropped before the shape reaches the codec
    let f = Filter::zfp_reversible(vec![1, 1, 960], 4);
    let raw = f.to_raw().unwrap();
    let back = Filter::from_raw(ZFP_FILTER_ID, &raw).unwrap();
    assert_eq!(back, Filter::Zfp(ZfpMode::Reversible, vec![960], 4));
    let f2 = Filter::zfp_accuracy(0.125f64.to_bits(), vec![2, 5, 5, 1, 1], 4);
    let raw2 = f2.to_raw().unwrap();
    let back2 = Filter::from_raw(ZFP_FILTER_ID, &raw2).unwrap();
    assert_eq!(back2, Filter::Zfp(ZfpMode::FixedAccuracy(0.125f64.to_bits()), vec![2, 5, 5], 4));
}

#[test]
fn test_zfp_over_dim_data() {
    // five non-singleton dimensions are rejected
    let f = Filter::zfp_accuracy(0.125f64.to_bits(), vec![2, 5, 10, 10, 50], 4);
    assert_eq!(f.to_raw(), Err(Error::DimensionError));
    // bad element widths are rejected
    let f = Filter::zfp_reversible(vec![10, 20], 2);
    assert_eq!(f.to_raw(), Err(Error::ParameterError));
}

#[test]
fn test_zfp_known_words() {
    // reversible mode over 960 floats: version word, magic, 52-bit
    // metadata (959 shifted over dimensionality 1 and type float), and
    // the short reversible mode code 2176 in the top 12 bits
    let raw = Filter::zfp_reversible(vec![960], 4).to_raw().unwrap();
    assert_eq!(
        raw,
        vec![ZFP_VERSION_WORD, ZFP_MAGIC_WORD, 959 * 16 + 2, 2176 << 20, 0, 0, 0, 0]
    );
    assert_eq!(ZFP_VERSION_WORD, 0x1010_5110);
    assert_eq!(ZFP_MAGIC_WORD, 0x0570_667a);
    // fixed rate 8.0 over the same chunk: 32 bits per block, short code 31
    let raw = Filter::zfp_rate(8.0f64.to_bits(), vec![960], 4).to_raw().unwrap();
    assert_eq!(raw[3], 31 << 20);
}

#[test]
fn test_zfp_endian_recovery() {
    // byte-swapping every header word still decodes to the same filter
    for mode in [
        ZfpMode::FixedRate(8.0f64.to_bits()),
        ZfpMode::FixedPrecision(16),
        ZfpMode::FixedAccuracy(0.125f64.to_bits()),
        ZfpMode::Reversible,
        ZfpMode::FixedRate(64.0f64.to_bits()),
    ] {
        let raw = Filter::zfp(mode, vec![12, 34], 8).to_raw().unwrap();
        let mut swapped = raw.clone();
        for w in swapped.iter_mut().skip(1) {
            *w = w.swap_bytes();
        }
        assert_ne!(raw, swapped);
        assert_eq!(parse_zfp_cdata(&swapped), parse_zfp_cdata(&raw));
        assert_eq!(
            Filter::from_raw(ZFP_FILTER_ID, &swapped).unwrap(),
            Filter::from_raw(ZFP_FILTER_ID, &raw).unwrap()
        );
    }
}

#[test]
fn test_zfp_parse_failures() {
    assert_eq!(parse_zfp_cdata(&[]), None);
    assert_eq!(parse_zfp_cdata(&[ZFP_VERSION_WORD]), None);
    // bad magic in both byte orders
    assert_eq!(parse_zfp_cdata(&[ZFP_VERSION_WORD, 0xdead_beef, 0, 0]), None);
    // magic alone, header cut short
    assert_eq!(parse_zfp_cdata(&[ZFP_VERSION_WORD, ZFP_MAGIC_WORD, 0]), None);
    // a long mode code cut short
    let raw = Filter::zfp_rate(64.0f64.to_bits(), vec![2, 2, 5, 50], 8).to_raw().unwrap();
    assert_eq!(parse_zfp_cdata(&raw[..5]), None);
    assert!(parse_zfp_cdata(&raw).is_some());
    // expert-mode headers parse as a configuration but not as a filter:
    // precision 64 is the codec's default parameter set
    let raw = Filter::zfp_precision(64, vec![10, 20], 4).to_raw().unwrap();
    assert!(parse_zfp_cdata(&raw).is_some());
    assert_eq!(Filter::from_raw(ZFP_FILTER_ID, &raw), Err(Error::ParameterError));
}

#[test]
fn test_zfp_config_fields() {
    let raw = Filter::zfp_precision(16, vec![7, 9, 11], 8).to_raw().unwrap();
    let cfg = parse_zfp_cdata(&raw).unwrap();
    assert_eq!(cfg.ndims, 3);
    assert_eq!(cfg.typesize, 8);
    // extents come back fastest varying first
    assert_eq!((cfg.nx, cfg.ny, cfg.nz, cfg.nw), (11, 9, 7, 0));
    assert_eq!(cfg.mode, ZFP_MODE_PRECISION);
    assert_eq!(cfg.precision, 16);
    assert_eq!(decompress_output_size(&cfg), Some(8 * 11 * 9 * 7));
}

#[test]
fn test_zfp_transform_params() {
    let raw = Filter::zfp_rate(8.0f64.to_bits(), vec![1000], 4).to_raw().unwrap();
    let cfg = parse_zfp_cdata(&raw).unwrap();
    assert_eq!(cfg.mode, ZFP_MODE_RATE);
    assert_eq!(cfg.rate_bits, 8.0f64.to_bits());
    let p = transform_params(&cfg).unwrap();
    assert_eq!((p.minbits, p.maxbits, p.maxprec, p.minexp), (32, 32, 64, -1074));
    assert_eq!(zfp_stream_compression_mode(&p), ZFP_MODE_RATE);

    let raw = Filter::zfp_accuracy(0.125f64.to_bits(), vec![1000], 4).to_raw().unwrap();
    let cfg = parse_zfp_cdata(&raw).unwrap();
    assert_eq!(cfg.mode, ZFP_MODE_ACCURACY);
    let p = transform_params(&cfg).unwrap();
    assert_eq!((p.minbits, p.maxbits, p.maxprec, p.minexp), (1, 16658, 64, -3));

    let raw = Filter::zfp_reversible(vec![1000], 4).to_raw().unwrap();
    let cfg = parse_zfp_cdata(&raw).unwrap();
    assert_eq!(cfg.mode, ZFP_MODE_REVERSIBLE);
    let p = transform_params(&cfg).unwrap();
    assert_eq!((p.minbits, p.maxbits, p.maxprec, p.minexp), (1, 16658, 64, -1075));
}

#[test]
fn test_zfp_can_apply() {
    assert!(can_apply_zfp(H5T_class_t::H5T_FLOAT));
    assert!(!can_apply_zfp(H5T_class_t::H5T_INTEGER));
    assert!(!can_apply_zfp(H5T_class_t::H5T_COMPOUND));
    assert!(!can_apply_zfp(H5T_class_t::H5T_OPAQUE));
}

#[test]
fn test_register_zfp_once() {
    let mut table = FilterTable::new();
    assert_eq!(register_zfp(&mut table), Ok(()));
    assert_eq!(
        Filter::get_info(&table, ZFP_FILTER_ID),
        FilterInfo { is_available: true, encode_enabled: true, decode_enabled: true }
    );
    // a second registration keeps the first outcome
    assert_eq!(register_zfp(&mut table), Ok(()));
    assert_eq!(table.entries.len(), 1);
}
