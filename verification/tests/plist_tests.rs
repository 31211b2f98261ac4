use hdf5_filters::plist::{
    ChunkCache, DatasetAccess, DatasetAccessBuilder, ObjectCopy, ObjectCopyBuilder, VirtualView,
    CHUNK_CACHE_DEFAULT_NBYTES, CHUNK_CACHE_DEFAULT_NSLOTS, CHUNK_CACHE_DEFAULT_W0_BITS,
};

#[test]
pub fn test_object_copy_builder_from_plist() {
    let ocpypl =
        ObjectCopy::build().copy_without_attr(true).expand_soft_links(true).finish().unwrap();

    let builder = ObjectCopyBuilder::from_plist(&ocpypl).unwrap();
    let ocpypl2 = builder.finish().unwrap();

    assert_eq!(ocpypl.copy_without_attr(), ocpypl2.copy_without_attr());
    assert_eq!(ocpypl.shallow_hierarchy(), ocpypl2.shallow_hierarchy());
    assert_eq!(ocpypl.expand_soft_links(), ocpypl2.expand_soft_links());
    assert_eq!(ocpypl.expand_ext_links(), ocpypl2.expand_ext_links());
    assert_eq!(ocpypl, ocpypl2);
}

#[test]
fn test_object_copy_flags() {
    let plist = ObjectCopy::try_new().unwrap();
    assert_eq!(plist.get_flags().unwrap(), 0);
    assert!(!plist.copy_without_attr());
    assert!(!plist.shallow_hierarchy());
    assert!(!plist.expand_soft_links());
    assert!(!plist.expand_ext_links());

    let plist = ObjectCopy::build()
        .copy_without_attr(true)
        .shallow_hierarchy(true)
        .expand_soft_links(true)
        .expand_ext_links(true)
        .finish()
        .unwrap();
    assert_eq!(plist.get_flags().unwrap(), 0x17);
    assert!(plist.copy_without_attr());
    assert!(plist.shallow_hierarchy());
    assert!(plist.expand_soft_links());
    assert!(plist.expand_ext_links());

    let mut fresh = ObjectCopy::try_new().unwrap();
    ObjectCopyBuilder::new().shallow_hierarchy(true).apply(&mut fresh).unwrap();
    assert_eq!(fresh.get_flags().unwrap(), 0x1);
}

#[test]
fn test_dataset_access_defaults() {
    let plist = DatasetAccess::try_new().unwrap();
    assert_eq!(
        plist.chunk_cache(),
        ChunkCache {
            nslots: CHUNK_CACHE_DEFAULT_NSLOTS,
            nbytes: CHUNK_CACHE_DEFAULT_NBYTES,
            w0_bits: CHUNK_CACHE_DEFAULT_W0_BITS,
        }
    );
    assert_eq!(plist.chunk_cache().w0_bits, 0.75f64.to_bits());
    assert_eq!(plist.efile_prefix(), "");
    assert_eq!(plist.virtual_view(), VirtualView::LastAvailable);
    assert_eq!(plist.virtual_printf_gap(), 0);
    assert!(!plist.all_coll_metadata_ops());
}

#[test]
fn test_dataset_access_builder_roundtrip() {
    let plist = DatasetAccess::build()
        .chunk_cache(100, 0xffff, 0.5f64.to_bits())
        .efile_prefix("external")
        .virtual_view(VirtualView::FirstMissing)
        .virtual_printf_gap(7)
        .all_coll_metadata_ops(true)
        .finish()
        .unwrap();
    assert_eq!(
        plist.get_chunk_cache().unwrap(),
        ChunkCache { nslots: 100, nbytes: 0xffff, w0_bits: 0.5f64.to_bits() }
    );
    assert_eq!(plist.get_efile_prefix().unwrap(), "external");
    assert_eq!(plist.get_virtual_view(), VirtualView::FirstMissing);
    assert_eq!(plist.get_virtual_printf_gap(), 7);
    assert!(plist.get_all_coll_metadata_ops());

    let rebuilt = DatasetAccessBuilder::from_plist(&plist).unwrap().finish().unwrap();
    assert_eq!(rebuilt, plist);
    assert_eq!(rebuilt.clone(), plist);

    // options left unset keep the list's values under apply
    let mut partial = DatasetAccess::try_new().unwrap();
    DatasetAccess::build().virtual_printf_gap(3).apply(&mut partial).unwrap();
    assert_eq!(partial.virtual_printf_gap(), 3);
    assert_eq!(partial.efile_prefix(), "");
    assert_eq!(partial.chunk_cache().nslots, CHUNK_CACHE_DEFAULT_NSLOTS);
}

#[test]
fn test_object_copy_apply_all_unset_keeps_flags() {
    // a builder whose options OR to zero sets nothing: existing flags
    // cannot be cleared through apply
    let mut plist = ObjectCopy::build().copy_without_attr(true).finish().unwrap();
    let before = plist.get_flags().unwrap();
    assert_ne!(before, 0);
    ObjectCopyBuilder::new().apply(&mut plist).unwrap();
    assert_eq!(plist.get_flags().unwrap(), before);
    // options explicitly set to false also OR to zero
    ObjectCopyBuilder::new().shallow_hierarchy(false).apply(&mut plist).unwrap();
    assert_eq!(plist.get_flags().unwrap(), before);
    // a nonzero builder replaces the word
    ObjectCopyBuilder::new().expand_ext_links(true).apply(&mut plist).unwrap();
    assert_eq!(plist.get_flags().unwrap(), 0x4);
}
