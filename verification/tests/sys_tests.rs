use hdf5_filters::sys::{
    hdf5_version, hdf5_version_at_least, init, is_initialized, library_path, AttributeDir,
    H5O_type_t, H5P_FILE_CREATE, H5P_OBJECT_COPY_get, PlistClasses, ReferencedObject, Runtime,
    Version,
};
use hdf5_filters::Error;

fn fresh() -> Runtime {
    Runtime { initialized: false, path: None, version: None }
}

#[test]
fn test_runtime_init() {
    let mut rt = fresh();
    assert!(!is_initialized(&rt));
    assert_eq!(library_path(&rt), None);
    assert_eq!(hdf5_version(&rt), None);
    assert_eq!(init(&mut rt, "libhdf5.so".to_string(), Version { major: 1, minor: 14, micro: 3 }), Ok(()));
    assert!(is_initialized(&rt));
    assert_eq!(library_path(&rt), Some("libhdf5.so".to_string()));
    assert_eq!(hdf5_version(&rt), Some(Version { major: 1, minor: 14, micro: 3 }));
    // repeated initialization keeps the first outcome
    assert_eq!(init(&mut rt, "other.so".to_string(), Version { major: 2, minor: 0, micro: 0 }), Ok(()));
    assert_eq!(library_path(&rt), Some("libhdf5.so".to_string()));
}

#[test]
fn test_version_at_least() {
    let mut rt = fresh();
    assert!(!hdf5_version_at_least(&rt, 1, 8, 0));
    init(&mut rt, "libhdf5.so".to_string(), Version { major: 1, minor: 12, micro: 1 }).unwrap();
    assert!(hdf5_version_at_least(&rt, 1, 12, 1));
    assert!(hdf5_version_at_least(&rt, 1, 12, 0));
    assert!(hdf5_version_at_least(&rt, 1, 8, 21));
    assert!(hdf5_version_at_least(&rt, 0, 200, 200));
    assert!(!hdf5_version_at_least(&rt, 1, 12, 2));
    assert!(!hdf5_version_at_least(&rt, 1, 14, 0));
    assert!(!hdf5_version_at_least(&rt, 2, 0, 0));
}

#[test]
fn test_referenced_object_from_type_and_id() {
    assert_eq!(
        ReferencedObject::from_type_and_id(H5O_type_t::H5O_TYPE_GROUP, 7),
        Ok(ReferencedObject::Group(7))
    );
    assert_eq!(
        ReferencedObject::from_type_and_id(H5O_type_t::H5O_TYPE_DATASET, 8),
        Ok(ReferencedObject::Dataset(8))
    );
    assert_eq!(
        ReferencedObject::from_type_and_id(H5O_type_t::H5O_TYPE_NAMED_DATATYPE, 9),
        Ok(ReferencedObject::Datatype(9))
    );
    assert_eq!(
        ReferencedObject::from_type_and_id(H5O_type_t::H5O_TYPE_MAP, 10),
        Err(Error::ParameterError)
    );
    assert_eq!(
        ReferencedObject::from_type_and_id(H5O_type_t::H5O_TYPE_UNKNOWN, 11),
        Err(Error::ParameterError)
    );
    assert_eq!(
        ReferencedObject::from_type_and_id(H5O_type_t::H5O_TYPE_NTYPES, 12),
        Err(Error::ParameterError)
    );
}

// Reading a lazily-loaded property-list class must work on first touch.
#[test]
pub fn lock_part1() {
    let classes = PlistClasses::default();
    let _ = H5P_OBJECT_COPY_get(&classes);
}

// As lock_part1, through the error-checked call path.
#[test]
pub fn lock_part2() {
    let classes = PlistClasses::default();
    let _ = H5P_FILE_CREATE(&classes);
}

#[test]
fn remove_attr() {
    let mut file = AttributeDir::new();

    file.new_attr("foo").unwrap();
    assert!(file.attr("foo").is_ok());
    file.delete_attr("foo").unwrap();
    assert!(file.attr("foo").is_err());

    let mut ds = AttributeDir::new();
    ds.new_attr("bar").unwrap();
    assert!(ds.attr("bar").is_ok());
    ds.delete_attr("bar").unwrap();
    assert!(ds.attr("bar").is_err());
}

#[test]
fn test_attribute_dir_duplicates() {
    let mut dir = AttributeDir::new();
    dir.new_attr("a").unwrap();
    assert_eq!(dir.new_attr("a"), Err(Error::ParameterError));
    dir.new_attr("b").unwrap();
    dir.delete_attr("a").unwrap();
    assert!(dir.attr("b").is_ok());
    assert_eq!(dir.delete_attr("a"), Err(Error::ParameterError));
}

#[test]
fn test_delete_attr_keeps_other_names_in_order() {
    let mut dir = AttributeDir::new();
    dir.new_attr("a").unwrap();
    dir.new_attr("b").unwrap();
    dir.new_attr("c").unwrap();
    dir.delete_attr("b").unwrap();
    assert_eq!(dir.names, vec!["a".to_string(), "c".to_string()]);
}
