use hdf5_filters::filters::{
    blosc_available, deflate_available, gzip_available, lzf_available, szip_available,
    validate_filters, zfp_available, Blosc, BloscShuffle, Filter, FilterInfo, FilterTable, SZip,
    ScaleOffset, ZfpMode, BLOSC_FILTER_ID, H5Z_FILTER_DEFLATE, H5Z_FILTER_FLETCHER32,
    H5Z_FILTER_NBIT, H5Z_FILTER_SCALEOFFSET, H5Z_FILTER_SHUFFLE, H5Z_FILTER_SZIP, LZF_FILTER_ID,
    ZFP_FILTER_ID,
};
use hdf5_filters::sys::H5T_class_t;
use hdf5_filters::Error;

fn roundtrip(f: &Filter) -> Filter {
    let raw = f.to_raw().unwrap();
    Filter::from_raw(f.id(), &raw).unwrap()
}

#[test]
fn test_filter_ids() {
    assert_eq!(Filter::deflate(3).id(), H5Z_FILTER_DEFLATE);
    assert_eq!(Filter::shuffle().id(), H5Z_FILTER_SHUFFLE);
    assert_eq!(Filter::fletcher32().id(), H5Z_FILTER_FLETCHER32);
    assert_eq!(Filter::szip(SZip::Entropy, 8).id(), H5Z_FILTER_SZIP);
    assert_eq!(Filter::nbit().id(), H5Z_FILTER_NBIT);
    assert_eq!(Filter::scale_offset(ScaleOffset::Integer(3)).id(), H5Z_FILTER_SCALEOFFSET);
    assert_eq!(Filter::lzf().id(), LZF_FILTER_ID);
    assert_eq!(Filter::blosc_blosclz(1, BloscShuffle::Byte).id(), BLOSC_FILTER_ID);
    assert_eq!(Filter::zfp_reversible(vec![10, 20], 4).id(), ZFP_FILTER_ID);
    assert_eq!(Filter::user(12_345, &[1, 2, 3]).id(), 12_345);
}

#[test]
fn test_raw_roundtrip_builtins() {
    for f in [
        Filter::deflate(0),
        Filter::deflate(9),
        Filter::shuffle(),
        Filter::fletcher32(),
        Filter::szip(SZip::Entropy, 8),
        Filter::szip(SZip::NearestNeighbor, 32),
        Filter::nbit(),
        Filter::scale_offset(ScaleOffset::Integer(3)),
        Filter::scale_offset(ScaleOffset::Integer(65535)),
        Filter::scale_offset(ScaleOffset::FloatDScale(2)),
        Filter::lzf(),
        Filter::blosc(Blosc::BloscLZ, 1, BloscShuffle::NoShuffle),
        Filter::blosc_lz4(3, BloscShuffle::Byte),
        Filter::blosc_lz4hc(5, BloscShuffle::Bit),
        Filter::blosc_zlib(7, BloscShuffle::NoShuffle),
        Filter::blosc_zstd(9, BloscShuffle::Byte),
        Filter::blosc_snappy(0, BloscShuffle::Bit),
        Filter::user(12_345, &[1, 2, 3, 4, 5]),
    ] {
        assert_eq!(roundtrip(&f), f);
    }
}

#[test]
fn test_raw_layouts() {
    assert_eq!(Filter::deflate(7).to_raw().unwrap(), vec![7]);
    assert_eq!(Filter::shuffle().to_raw().unwrap(), Vec::<u32>::new());
    assert_eq!(Filter::szip(SZip::Entropy, 8).to_raw().unwrap(), vec![4, 8]);
    assert_eq!(Filter::szip(SZip::NearestNeighbor, 16).to_raw().unwrap(), vec![32, 16]);
    assert_eq!(Filter::scale_offset(ScaleOffset::Integer(3)).to_raw().unwrap(), vec![2, 3]);
    assert_eq!(Filter::scale_offset(ScaleOffset::FloatDScale(5)).to_raw().unwrap(), vec![0, 5]);
    assert_eq!(
        Filter::blosc(Blosc::ZStd, 9, BloscShuffle::Bit).to_raw().unwrap(),
        vec![0, 0, 0, 0, 9, 2, 5]
    );
}

#[test]
fn test_from_raw_parameter_errors() {
    assert_eq!(Filter::from_raw(0, &[]), Err(Error::ParameterError));
    assert_eq!(Filter::from_raw(-3, &[]), Err(Error::ParameterError));
    assert_eq!(Filter::from_raw(H5Z_FILTER_DEFLATE, &[]), Err(Error::ParameterError));
    assert_eq!(Filter::from_raw(H5Z_FILTER_DEFLATE, &[10]), Err(Error::ParameterError));
    assert_eq!(Filter::from_raw(H5Z_FILTER_SZIP, &[4]), Err(Error::ParameterError));
    // neither or both coding bits set
    assert_eq!(Filter::from_raw(H5Z_FILTER_SZIP, &[0, 8]), Err(Error::ParameterError));
    assert_eq!(Filter::from_raw(H5Z_FILTER_SZIP, &[36, 8]), Err(Error::ParameterError));
    // pixels per block over 32
    assert_eq!(Filter::from_raw(H5Z_FILTER_SZIP, &[4, 33]), Err(Error::ParameterError));
    // unknown scale type tag
    assert_eq!(Filter::from_raw(H5Z_FILTER_SCALEOFFSET, &[7, 1]), Err(Error::ParameterError));
    // out-of-range factors
    assert_eq!(Filter::from_raw(H5Z_FILTER_SCALEOFFSET, &[2, 65536]), Err(Error::ParameterError));
    assert_eq!(Filter::from_raw(H5Z_FILTER_SCALEOFFSET, &[0, 256]), Err(Error::ParameterError));
    // blosc word counts and codes
    assert_eq!(Filter::from_raw(BLOSC_FILTER_ID, &[0, 0, 0, 0]), Err(Error::ParameterError));
    assert_eq!(
        Filter::from_raw(BLOSC_FILTER_ID, &[0, 0, 0, 0, 10]),
        Err(Error::ParameterError)
    );
    assert_eq!(
        Filter::from_raw(BLOSC_FILTER_ID, &[0, 0, 0, 0, 5, 3]),
        Err(Error::ParameterError)
    );
    assert_eq!(
        Filter::from_raw(BLOSC_FILTER_ID, &[0, 0, 0, 0, 5, 1, 6]),
        Err(Error::ParameterError)
    );
}

#[test]
fn test_from_raw_defaults_and_passthrough() {
    // short blosc slots fall back to byte shuffle and Blosc LZ
    assert_eq!(
        Filter::from_raw(BLOSC_FILTER_ID, &[0, 0, 0, 0, 5]).unwrap(),
        Filter::Blosc(Blosc::BloscLZ, 5, BloscShuffle::Byte)
    );
    assert_eq!(
        Filter::from_raw(BLOSC_FILTER_ID, &[0, 0, 0, 0, 5, 0]).unwrap(),
        Filter::Blosc(Blosc::BloscLZ, 5, BloscShuffle::NoShuffle)
    );
    // unknown ids pass through untouched
    assert_eq!(
        Filter::from_raw(12_345, &[1, 2, 3]).unwrap(),
        Filter::User(12_345, vec![1, 2, 3])
    );
}

fn all_on() -> FilterInfo {
    FilterInfo { is_available: true, encode_enabled: true, decode_enabled: true }
}

fn validate_all_on(filters: &[Filter], tc: H5T_class_t) -> Result<(), Error> {
    let infos: Vec<FilterInfo> = filters.iter().map(|_| all_on()).collect();
    validate_filters(filters, &infos, tc)
}

#[test]
fn test_validate_shuffle_order() {
    let ok = [Filter::shuffle(), Filter::deflate(3)];
    assert_eq!(validate_all_on(&ok, H5T_class_t::H5T_INTEGER), Ok(()));
    let bad = [Filter::deflate(3), Filter::shuffle()];
    assert_eq!(validate_all_on(&bad, H5T_class_t::H5T_INTEGER), Err(Error::OrderViolation));
}

#[test]
fn test_validate_single_compression() {
    let bad = [Filter::deflate(3), Filter::szip(SZip::Entropy, 8)];
    assert_eq!(
        validate_all_on(&bad, H5T_class_t::H5T_INTEGER),
        Err(Error::MultipleCompressionFilters)
    );
}

#[test]
fn test_validate_scale_offset_classes() {
    let float_on_int = [Filter::scale_offset(ScaleOffset::FloatDScale(2))];
    assert_eq!(
        validate_all_on(&float_on_int, H5T_class_t::H5T_INTEGER),
        Err(Error::IncompatibleScaleOffsetMode)
    );
    let int_on_float = [Filter::scale_offset(ScaleOffset::Integer(3))];
    assert_eq!(
        validate_all_on(&int_on_float, H5T_class_t::H5T_FLOAT),
        Err(Error::IncompatibleScaleOffsetMode)
    );
    assert_eq!(validate_all_on(&int_on_float, H5T_class_t::H5T_INTEGER), Ok(()));
    assert_eq!(validate_all_on(&int_on_float, H5T_class_t::H5T_ENUM), Ok(()));
    assert_eq!(validate_all_on(&float_on_int, H5T_class_t::H5T_FLOAT), Ok(()));
    assert_eq!(
        validate_all_on(&int_on_float, H5T_class_t::H5T_STRING),
        Err(Error::IncompatibleScaleOffsetMode)
    );
}

#[test]
fn test_validate_duplicate_and_checksum_rules() {
    let dup = [Filter::deflate(3), Filter::deflate(5)];
    assert_eq!(validate_all_on(&dup, H5T_class_t::H5T_INTEGER), Err(Error::DuplicateFilter));
    let checksum_after_lossy =
        [Filter::scale_offset(ScaleOffset::Integer(3)), Filter::fletcher32()];
    assert_eq!(
        validate_all_on(&checksum_after_lossy, H5T_class_t::H5T_INTEGER),
        Err(Error::OrderViolation)
    );
    let szip_after_checksum = [Filter::fletcher32(), Filter::szip(SZip::Entropy, 8)];
    assert_eq!(
        validate_all_on(&szip_after_checksum, H5T_class_t::H5T_INTEGER),
        Err(Error::OrderViolation)
    );
    let full_ok = [
        Filter::nbit(),
        Filter::shuffle(),
        Filter::deflate(3),
        Filter::fletcher32(),
        Filter::scale_offset(ScaleOffset::Integer(3)),
    ];
    assert_eq!(validate_all_on(&full_ok, H5T_class_t::H5T_INTEGER), Ok(()));
}

#[test]
fn test_validate_unavailable() {
    let filters = [Filter::user(12_345, &[1, 2, 3, 4, 5])];
    let infos = [FilterInfo::default()];
    assert_eq!(
        validate_filters(&filters, &infos, H5T_class_t::H5T_INTEGER),
        Err(Error::FilterUnavailable)
    );
    // a filter that cannot decode is as unusable as a missing one
    let infos = [FilterInfo { is_available: true, encode_enabled: true, decode_enabled: false }];
    assert_eq!(
        validate_filters(&filters, &infos, H5T_class_t::H5T_INTEGER),
        Err(Error::FilterUnavailable)
    );
}

#[test]
fn test_filter_table_lookup() {
    let mut table = FilterTable::new();
    assert!(!deflate_available(&table));
    table.insert(H5Z_FILTER_DEFLATE, all_on());
    table.insert(
        H5Z_FILTER_SZIP,
        FilterInfo { is_available: true, encode_enabled: false, decode_enabled: true },
    );
    assert!(deflate_available(&table));
    assert!(gzip_available(&table));
    assert!(szip_available(&table));
    assert!(!lzf_available(&table));
    assert!(!blosc_available(&table));
    assert!(!zfp_available(&table));
    let szip = Filter::szip(SZip::Entropy, 8);
    assert!(szip.is_available(&table));
    assert!(!szip.encode_enabled(&table));
    assert!(szip.decode_enabled(&table));
    let bad = Filter::user(12_345, &[1, 2, 3, 4, 5]);
    assert_eq!(Filter::get_info(&table, bad.id()), FilterInfo::default());
    assert!(!bad.is_available(&table));
    assert!(!bad.encode_enabled(&table));
    assert!(!bad.decode_enabled(&table));
}

#[test]
fn test_zfp_mode_equality_is_bitwise() {
    let nan1 = ZfpMode::FixedRate(f64::NAN.to_bits());
    let nan2 = ZfpMode::FixedRate(f64::NAN.to_bits());
    assert_eq!(nan1, nan2);
    assert_ne!(
        ZfpMode::FixedAccuracy(0.0f64.to_bits()),
        ZfpMode::FixedAccuracy((-0.0f64).to_bits())
    );
    assert_eq!(ZfpMode::default(), ZfpMode::FixedRate(4.0f64.to_bits()));
}

#[test]
fn test_blosc_defaults_and_from_bool() {
    assert_eq!(BloscShuffle::default(), BloscShuffle::Byte);
    assert_eq!(Blosc::default(), Blosc::BloscLZ);
    assert_eq!(BloscShuffle::from(true), BloscShuffle::Byte);
    assert_eq!(BloscShuffle::from(false), BloscShuffle::NoShuffle);
}
