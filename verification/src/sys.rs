//! Plain data models of the native storage engine's C-level interface:
//! the identifier and taxonomy enums, version information, and the state
//! the engine exposes once the embedder has loaded it.
//!
//! The engine itself is loaded and called by the embedder; the types and
//! functions here only carry, compare and look up the plain values it
//! reports, and those parts are verified.

use vstd::prelude::*;

use crate::Error;

verus! {

/// Identifier handle of an engine object.
pub type hid_t = i64;

/// Unsigned size type of the engine interface.
pub type hsize_t = u64;

/// Identifier type of an engine object.
#[derive(Debug, Copy, Clone, PartialEq, Eq, Structural)]
pub enum H5I_type_t {
    H5I_UNINIT,
    H5I_BADID,
    H5I_FILE,
    H5I_GROUP,
    H5I_DATATYPE,
    H5I_DATASPACE,
    H5I_DATASET,
    H5I_MAP,
    H5I_ATTR,
    H5I_VFL,
    H5I_VOL,
    H5I_GENPROP_CLS,
    H5I_GENPROP_LST,
    H5I_ERROR_CLASS,
    H5I_ERROR_MSG,
    H5I_ERROR_STACK,
    H5I_SPACE_SEL_ITER,
    H5I_EVENTSET,
    H5I_NTYPES,
}

/// Class of an element datatype.
#[derive(Debug, Copy, Clone, PartialEq, Eq, Structural)]
pub enum H5T_class_t {
    H5T_NO_CLASS,
    H5T_INTEGER,
    H5T_FLOAT,
    H5T_TIME,
    H5T_STRING,
    H5T_BITFIELD,
    H5T_OPAQUE,
    H5T_COMPOUND,
    H5T_REFERENCE,
    H5T_ENUM,
    H5T_VLEN,
    H5T_ARRAY,
    H5T_NCLASSES,
}

/// Byte order of a datatype.
#[derive(Debug, Copy, Clone, PartialEq, Eq, Structural)]
pub enum H5T_order_t {
    H5T_ORDER_ERROR,
    H5T_ORDER_LE,
    H5T_ORDER_BE,
    H5T_ORDER_VAX,
    H5T_ORDER_MIXED,
    H5T_ORDER_NONE,
}

/// Signedness of an integer datatype.
#[derive(Debug, Copy, Clone, PartialEq, Eq, Structural)]
pub enum H5T_sign_t {
    H5T_SGN_ERROR,
    H5T_SGN_NONE,
    H5T_SGN_2,
    H5T_NSGN,
}

/// Character set of a string datatype.
#[derive(Debug, Copy, Clone, PartialEq, Eq, Structural)]
pub enum H5T_cset_t {
    H5T_CSET_ERROR,
    H5T_CSET_ASCII,
    H5T_CSET_UTF8,
}

/// Padding of a string datatype.
#[derive(Debug, Copy, Clone, PartialEq, Eq, Structural)]
pub enum H5T_str_t {
    H5T_STR_ERROR,
    H5T_STR_NULLTERM,
    H5T_STR_NULLPAD,
    H5T_STR_SPACEPAD,
}

/// Class of a dataspace.
#[derive(Debug, Copy, Clone, PartialEq, Eq, Structural)]
pub enum H5S_class_t {
    H5S_NO_CLASS,
    H5S_SCALAR,
    H5S_SIMPLE,
    H5S_NULL,
}

/// Selection operator on a dataspace.
#[derive(Debug, Copy, Clone, PartialEq, Eq, Structural)]
pub enum H5S_seloper_t {
    H5S_SELECT_NOOP,
    H5S_SELECT_SET,
    H5S_SELECT_OR,
    H5S_SELECT_AND,
    H5S_SELECT_XOR,
    H5S_SELECT_NOTB,
    H5S_SELECT_NOTA,
    H5S_SELECT_APPEND,
    H5S_SELECT_PREPEND,
    H5S_SELECT_INVALID,
}

/// Kind of selection held by a dataspace.
#[derive(Debug, Copy, Clone, PartialEq, Eq, Structural)]
pub enum H5S_sel_type {
    H5S_SEL_ERROR,
    H5S_SEL_NONE,
    H5S_SEL_POINTS,
    H5S_SEL_HYPERSLABS,
    H5S_SEL_ALL,
    H5S_SEL_N,
}

/// Storage layout of a dataset.
#[derive(Debug, Copy, Clone, PartialEq, Eq, Structural)]
pub enum H5D_layout_t {
    H5D_LAYOUT_ERROR,
    H5D_COMPACT,
    H5D_CONTIGUOUS,
    H5D_CHUNKED,
    H5D_VIRTUAL,
    H5D_NLAYOUTS,
}

/// When dataset storage is allocated.
#[derive(Debug, Copy, Clone, PartialEq, Eq, Structural)]
pub enum H5D_alloc_time_t {
    H5D_ALLOC_TIME_ERROR,
    H5D_ALLOC_TIME_DEFAULT,
    H5D_ALLOC_TIME_EARLY,
    H5D_ALLOC_TIME_LATE,
    H5D_ALLOC_TIME_INCR,
}

/// When fill values are written.
#[derive(Debug, Copy, Clone, PartialEq, Eq, Structural)]
pub enum H5D_fill_time_t {
    H5D_FILL_TIME_ERROR,
    H5D_FILL_TIME_ALLOC,
    H5D_FILL_TIME_NEVER,
    H5D_FILL_TIME_IFSET,
}

/// Whether a fill value is defined.
#[derive(Debug, Copy, Clone, PartialEq, Eq, Structural)]
pub enum H5D_fill_value_t {
    H5D_FILL_VALUE_ERROR,
    H5D_FILL_VALUE_UNDEFINED,
    H5D_FILL_VALUE_DEFAULT,
    H5D_FILL_VALUE_USER_DEFINED,
}

/// How strongly a file close propagates to open objects.
#[derive(Debug, Copy, Clone, PartialEq, Eq, Structural)]
pub enum H5F_close_degree_t {
    H5F_CLOSE_DEFAULT,
    H5F_CLOSE_WEAK,
    H5F_CLOSE_SEMI,
    H5F_CLOSE_STRONG,
}

/// File format version bounds.
#[derive(Debug, Copy, Clone, PartialEq, Eq, Structural)]
pub enum H5F_libver_t {
    H5F_LIBVER_ERROR,
    H5F_LIBVER_EARLIEST,
    H5F_LIBVER_V18,
    H5F_LIBVER_V110,
    H5F_LIBVER_V112,
    H5F_LIBVER_V114,
}

/// File memory allocation type.
#[derive(Debug, Copy, Clone, PartialEq, Eq, Structural)]
pub enum H5F_mem_t {
    H5FD_MEM_NOLIST,
    H5FD_MEM_DEFAULT,
    H5FD_MEM_SUPER,
    H5FD_MEM_BTREE,
    H5FD_MEM_DRAW,
    H5FD_MEM_GHEAP,
    H5FD_MEM_LHEAP,
    H5FD_MEM_OHDR,
    H5FD_MEM_NTYPES,
}

/// File free-space management strategy.
#[derive(Debug, Copy, Clone, PartialEq, Eq, Structural)]
pub enum H5F_fspace_strategy_t {
    H5F_FSPACE_STRATEGY_FSM_AGGR,
    H5F_FSPACE_STRATEGY_PAGE,
    H5F_FSPACE_STRATEGY_AGGR,
    H5F_FSPACE_STRATEGY_NONE,
    H5F_FSPACE_STRATEGY_NTYPES,
}

/// Type of a stored object.
#[derive(Debug, Copy, Clone, PartialEq, Eq, Structural)]
pub enum H5O_type_t {
    H5O_TYPE_UNKNOWN,
    H5O_TYPE_GROUP,
    H5O_TYPE_DATASET,
    H5O_TYPE_NAMED_DATATYPE,
    H5O_TYPE_MAP,
    H5O_TYPE_NTYPES,
}

/// Kind of an object or region reference.
#[derive(Debug, Copy, Clone, PartialEq, Eq, Structural)]
pub enum H5R_type_t {
    H5R_BADTYPE,
    H5R_OBJECT1,
    H5R_DATASET_REGION1,
    H5R_OBJECT2,
    H5R_DATASET_REGION2,
    H5R_ATTR,
    H5R_MAXTYPE,
}

/// Kind of a link.
#[derive(Debug, Copy, Clone, PartialEq, Eq, Structural)]
pub enum H5L_type_t {
    H5L_TYPE_ERROR,
    H5L_TYPE_HARD,
    H5L_TYPE_SOFT,
    H5L_TYPE_EXTERNAL,
    H5L_TYPE_MAX,
}

/// Iteration order over an index.
#[derive(Debug, Copy, Clone, PartialEq, Eq, Structural)]
pub enum H5_iter_order_t {
    H5_ITER_UNKNOWN,
    H5_ITER_INC,
    H5_ITER_DEC,
    H5_ITER_NATIVE,
    H5_ITER_N,
}

/// Which index iteration walks.
#[derive(Debug, Copy, Clone, PartialEq, Eq, Structural)]
pub enum H5_index_t {
    H5_INDEX_UNKNOWN,
    H5_INDEX_NAME,
    H5_INDEX_CRT_ORDER,
    H5_INDEX_N,
}

/// Metadata cache increment mode.
#[derive(Debug, Copy, Clone, PartialEq, Eq, Structural)]
pub enum H5C_cache_incr_mode {
    H5C_incr__off,
    H5C_incr__threshold,
}

/// Metadata cache decrement mode.
#[derive(Debug, Copy, Clone, PartialEq, Eq, Structural)]
pub enum H5C_cache_decr_mode {
    H5C_decr__off,
    H5C_decr__threshold,
    H5C_decr__age_out,
    H5C_decr__age_out_with_threshold,
}

/// Metadata cache flash-increment mode.
#[derive(Debug, Copy, Clone, PartialEq, Eq, Structural)]
pub enum H5C_cache_flash_incr_mode {
    H5C_flash_incr__off,
    H5C_flash_incr__add_space,
}

/// Opaque object token, carried through unread.
#[derive(Debug, Copy, Clone)]
pub struct H5O_token_t {
    pub __data: [u8; 16],
}

/// Opaque reference value, carried through unread.
#[derive(Debug, Copy, Clone)]
pub struct H5R_ref_t {
    pub __data: [u8; 64],
}

/// A three-component library version.
#[derive(Debug, Clone, Copy, PartialEq, Eq, Structural)]
pub struct Version {
    pub major: u8,
    pub minor: u8,
    pub micro: u8,
}

impl Version {
    /// Whether this version is at least `major.minor.micro`, in
    /// lexicographic order of the three components.
    pub open spec fn spec_at_least(self, major: u8, minor: u8, micro: u8) -> bool {
        self.major > major
            || (self.major == major && self.minor > minor)
            || (self.major == major && self.minor == minor && self.micro >= micro)
    }
}

/// What the library knows of the engine after the embedder has loaded it:
/// whether loading succeeded, from which path, and the version the engine
/// reported.  The embedder constructs this once through `init`.
pub struct Runtime {
    pub initialized: bool,
    pub path: Option<String>,
    pub version: Option<Version>,
}

/// Records the outcome of loading the engine.  The embedder performs the
/// load itself and hands in the path it used and the version the engine
/// reported; repeated initialization keeps the first outcome.
pub fn init(rt: &mut Runtime, path: String, version: Version) -> (r: Result<(), crate::Error>)
    ensures
        r is Ok,
        old(rt).initialized ==> *final(rt) == *old(rt),
        !old(rt).initialized ==> final(rt).initialized
            && final(rt).path == Some(path)
            && final(rt).version == Some(version),
{
    if rt.initialized {
        return Ok(());
    }
    rt.path = Some(path);
    rt.version = Some(version);
    rt.initialized = true;
    Ok(())
}

/// Whether the engine has been loaded.
pub fn is_initialized(rt: &Runtime) -> (r: bool)
    ensures
        r == rt.initialized,
{
    rt.initialized
}

/// The path the engine was loaded from, if any.
pub fn library_path(rt: &Runtime) -> (r: Option<String>)
    ensures
        r == rt.path,
{
    match &rt.path {
        None => None,
        Some(p) => Some(p.clone()),
    }
}

/// The version the loaded engine reported, if any.
pub fn hdf5_version(rt: &Runtime) -> (r: Option<Version>)
    ensures
        r == rt.version,
{
    rt.version
}

/// Whether the loaded engine's version is at least `major.minor.micro`;
/// `false` when the engine is not loaded.
pub fn hdf5_version_at_least(rt: &Runtime, major: u8, minor: u8, micro: u8) -> (r: bool)
    ensures
        r == match rt.version {
            Some(v) => v.spec_at_least(major, minor, micro),
            None => false,
        },
{
    match rt.version {
        None => false,
        Some(v) => {
            v.major > major
                || (v.major == major && v.minor > minor)
                || (v.major == major && v.minor == minor && v.micro >= micro)
        },
    }
}

/// The engine's property-list class identifiers, as the embedder loaded
/// them once the engine is up.  Reading one never changes it.
#[derive(Debug, Clone, Copy, PartialEq, Eq, Structural, Default)]
pub struct PlistClasses {
    pub file_create: hid_t,
    pub file_access: hid_t,
    pub dataset_create: hid_t,
    pub dataset_access: hid_t,
    pub dataset_xfer: hid_t,
    pub group_create: hid_t,
    pub group_access: hid_t,
    pub datatype_create: hid_t,
    pub datatype_access: hid_t,
    pub link_create: hid_t,
    pub link_access: hid_t,
    pub attribute_create: hid_t,
    pub attribute_access: hid_t,
    pub object_copy: hid_t,
}

pub fn H5P_FILE_CREATE_get(c: &PlistClasses) -> (r: hid_t)
    ensures
        r == c.file_create,
{
    c.file_create
}

pub fn H5P_FILE_ACCESS_get(c: &PlistClasses) -> (r: hid_t)
    ensures
        r == c.file_access,
{
    c.file_access
}

pub fn H5P_DATASET_CREATE_get(c: &PlistClasses) -> (r: hid_t)
    ensures
        r == c.dataset_create,
{
    c.dataset_create
}

pub fn H5P_DATASET_ACCESS_get(c: &PlistClasses) -> (r: hid_t)
    ensures
        r == c.dataset_access,
{
    c.dataset_access
}

pub fn H5P_DATASET_XFER_get(c: &PlistClasses) -> (r: hid_t)
    ensures
        r == c.dataset_xfer,
{
    c.dataset_xfer
}

pub fn H5P_GROUP_CREATE_get(c: &PlistClasses) -> (r: hid_t)
    ensures
        r == c.group_create,
{
    c.group_create
}

pub fn H5P_GROUP_ACCESS_get(c: &PlistClasses) -> (r: hid_t)
    ensures
        r == c.group_access,
{
    c.group_access
}

pub fn H5P_DATATYPE_CREATE_get(c: &PlistClasses) -> (r: hid_t)
    ensures
        r == c.datatype_create,
{
    c.datatype_create
}

pub fn H5P_DATATYPE_ACCESS_get(c: &PlistClasses) -> (r: hid_t)
    ensures
        r == c.datatype_access,
{
    c.datatype_access
}

pub fn H5P_LINK_CREATE_get(c: &PlistClasses) -> (r: hid_t)
    ensures
        r == c.link_create,
{
    c.link_create
}

pub fn H5P_LINK_ACCESS_get(c: &PlistClasses) -> (r: hid_t)
    ensures
        r == c.link_access,
{
    c.link_access
}

pub fn H5P_ATTRIBUTE_CREATE_get(c: &PlistClasses) -> (r: hid_t)
    ensures
        r == c.attribute_create,
{
    c.attribute_create
}

pub fn H5P_ATTRIBUTE_ACCESS_get(c: &PlistClasses) -> (r: hid_t)
    ensures
        r == c.attribute_access,
{
    c.attribute_access
}

pub fn H5P_OBJECT_COPY_get(c: &PlistClasses) -> (r: hid_t)
    ensures
        r == c.object_copy,
{
    c.object_copy
}

pub fn H5P_FILE_CREATE(c: &PlistClasses) -> (r: hid_t)
    ensures
        r == c.file_create,
{
    H5P_FILE_CREATE_get(c)
}

pub fn H5P_FILE_ACCESS(c: &PlistClasses) -> (r: hid_t)
    ensures
        r == c.file_access,
{
    H5P_FILE_ACCESS_get(c)
}

pub fn H5P_DATASET_CREATE(c: &PlistClasses) -> (r: hid_t)
    ensures
        r == c.dataset_create,
{
    H5P_DATASET_CREATE_get(c)
}

pub fn H5P_DATASET_ACCESS(c: &PlistClasses) -> (r: hid_t)
    ensures
        r == c.dataset_access,
{
    H5P_DATASET_ACCESS_get(c)
}

pub fn H5P_DATASET_XFER(c: &PlistClasses) -> (r: hid_t)
    ensures
        r == c.dataset_xfer,
{
    H5P_DATASET_XFER_get(c)
}

pub fn H5P_GROUP_CREATE(c: &PlistClasses) -> (r: hid_t)
    ensures
        r == c.group_create,
{
    H5P_GROUP_CREATE_get(c)
}

pub fn H5P_GROUP_ACCESS(c: &PlistClasses) -> (r: hid_t)
    ensures
        r == c.group_access,
{
    H5P_GROUP_ACCESS_get(c)
}

pub fn H5P_DATATYPE_CREATE(c: &PlistClasses) -> (r: hid_t)
    ensures
        r == c.datatype_create,
{
    H5P_DATATYPE_CREATE_get(c)
}

pub fn H5P_DATATYPE_ACCESS(c: &PlistClasses) -> (r: hid_t)
    ensures
        r == c.datatype_access,
{
    H5P_DATATYPE_ACCESS_get(c)
}

pub fn H5P_LINK_CREATE(c: &PlistClasses) -> (r: hid_t)
    ensures
        r == c.link_create,
{
    H5P_LINK_CREATE_get(c)
}

pub fn H5P_LINK_ACCESS(c: &PlistClasses) -> (r: hid_t)
    ensures
        r == c.link_access,
{
    H5P_LINK_ACCESS_get(c)
}

pub fn H5P_ATTRIBUTE_CREATE(c: &PlistClasses) -> (r: hid_t)
    ensures
        r == c.attribute_create,
{
    H5P_ATTRIBUTE_CREATE_get(c)
}

pub fn H5P_ATTRIBUTE_ACCESS(c: &PlistClasses) -> (r: hid_t)
    ensures
        r == c.attribute_access,
{
    H5P_ATTRIBUTE_ACCESS_get(c)
}

pub fn H5P_OBJECT_COPY(c: &PlistClasses) -> (r: hid_t)
    ensures
        r == c.object_copy,
{
    H5P_OBJECT_COPY_get(c)
}

/// The attribute names attached to one stored object, as the embedder
/// mirrors them.  Names are unique; creating a held name or reading or
/// deleting a missing one fails.
#[derive(Debug, PartialEq, Eq)]
pub struct AttributeDir {
    pub names: Vec<String>,
}

/// Whether some held name reads `name`.
pub open spec fn spec_has_name(names: Seq<Seq<char>>, name: Seq<char>) -> bool {
    exists|i: int| 0 <= i < names.len() && names[i] == name
}

impl AttributeDir {
    /// A directory with no attributes.
    pub fn new() -> (r: AttributeDir)
        ensures
            r.names@.len() == 0,
    {
        AttributeDir { names: Vec::new() }
    }

    /// The index of a held name.
    fn find(&self, name: &str) -> (r: Option<usize>)
        ensures
            r is Some <==> spec_has_name(self.names@.map_values(|s: String| s@), name@),
    {
        let name_s: String = name.to_owned();
        let mut i: usize = 0;
        while i < self.names.len()
            invariant
                name_s@ == name@,
                i <= self.names@.len(),
                forall|j: int| 0 <= j < i ==> (#[trigger] self.names@[j])@ != name@,
            decreases self.names@.len() - i,
        {
            if self.names[i].eq(&name_s) {
                proof {
                    let m = self.names@.map_values(|s: String| s@);
                    assert(m[i as int] == name@);
                }
                return Some(i);
            }
            i = i + 1;
        }
        proof {
            let m = self.names@.map_values(|s: String| s@);
            if spec_has_name(m, name@) {
                let w = choose|k: int| 0 <= k < m.len() && m[k] == name@;
                assert(self.names@[w]@ == name@);
            }
        }
        None
    }

    /// Creates an attribute under a name not yet held.
    pub fn new_attr(&mut self, name: &str) -> (r: Result<(), Error>)
        ensures
            r is Ok <==> !spec_has_name(old(self).names@.map_values(|s: String| s@), name@),
            r is Ok ==> final(self).names@.len() == old(self).names@.len() + 1
                && final(self).names@.last()@ == name@
                && forall|j: int|
                    0 <= j < old(self).names@.len() ==> final(self).names@[j] == old(
                        self,
                    ).names@[j],
            r is Err ==> *final(self) == *old(self),
    {
        if self.find(name).is_some() {
            return Err(Error::ParameterError);
        }
        self.names.push(name.to_owned());
        Ok(())
    }

    /// Reads an attribute: succeeds exactly for a held name.
    pub fn attr(&self, name: &str) -> (r: Result<(), Error>)
        ensures
            r is Ok <==> spec_has_name(self.names@.map_values(|s: String| s@), name@),
    {
        match self.find(name) {
            Some(_) => Ok(()),
            None => Err(Error::ParameterError),
        }
    }

    /// Deletes an attribute: succeeds exactly for a held name.  On
    /// success, the directory keeps exactly the other names, in their
    /// order; on failure it is unchanged.
    pub fn delete_attr(&mut self, name: &str) -> (r: Result<(), Error>)
        ensures
            r is Ok <==> spec_has_name(old(self).names@.map_values(|s: String| s@), name@),
            r is Ok ==> final(self).names@.map_values(|s: String| s@) == spec_without_name(
                old(self).names@.map_values(|s: String| s@),
                name@,
            ),
            r is Ok ==> !spec_has_name(final(self).names@.map_values(|s: String| s@), name@),
            r is Err ==> *final(self) == *old(self),
    {
        let name_s: String = name.to_owned();
        let mut kept: Vec<String> = Vec::new();
        let mut found = false;
        let mut i: usize = 0;
        proof {
            reveal(Seq::filter);
            assert(self.names@.take(0int).map_values(|s: String| s@) =~= Seq::<Seq<char>>::empty());
        }
        while i < self.names.len()
            invariant
                name_s@ == name@,
                i <= self.names@.len(),
                found == spec_has_name(
                    self.names@.take(i as int).map_values(|s: String| s@),
                    name@,
                ),
                kept@.map_values(|s: String| s@) == spec_without_name(
                    self.names@.take(i as int).map_values(|s: String| s@),
                    name@,
                ),
                forall|j: int| 0 <= j < kept@.len() ==> (#[trigger] kept@[j])@ != name@,
            decreases self.names@.len() - i,
        {
            proof {
                reveal(Seq::filter);
                let pre = self.names@.take(i as int).map_values(|s: String| s@);
                let post = self.names@.take(i + 1).map_values(|s: String| s@);
                assert(post =~= pre.push(self.names@[i as int]@));
                assert(post.drop_last() =~= pre);
                assert(forall|k: int| 0 <= k < pre.len() ==> post[k] == pre[k]);
            }
            if self.names[i].eq(&name_s) {
                found = true;
                proof {
                    let post = self.names@.take(i + 1).map_values(|s: String| s@);
                    assert(post[i as int] == name@);
                }
            } else {
                kept.push(self.names[i].clone());
                proof {
                    let pre = self.names@.take(i as int).map_values(|s: String| s@);
                    let post = self.names@.take(i + 1).map_values(|s: String| s@);
                    assert(kept@.map_values(|s: String| s@) =~= spec_without_name(pre, name@).push(
                        self.names@[i as int]@,
                    ));
                    if spec_has_name(post, name@) {
                        let w = choose|k: int| 0 <= k < post.len() && post[k] == name@;
                        if w < i {
                            assert(pre[w] == name@);
                        }
                    }
                    if spec_has_name(pre, name@) {
                        let w = choose|k: int| 0 <= k < pre.len() && pre[k] == name@;
                        assert(post[w] == name@);
                    }
                }
            }
            i = i + 1;
        }
        proof {
            assert(self.names@.take(self.names@.len() as int) =~= self.names@);
        }
        if !found {
            return Err(Error::ParameterError);
        }
        self.names = kept;
        proof {
            let m = self.names@.map_values(|s: String| s@);
            if spec_has_name(m, name@) {
                let w = choose|k: int| 0 <= k < m.len() && m[k] == name@;
                assert(self.names@[w]@ == name@);
            }
        }
        Ok(())
    }
}

/// The held names with every occurrence of `name` removed, order kept.
pub open spec fn spec_without_name(names: Seq<Seq<char>>, name: Seq<char>) -> Seq<Seq<char>> {
    names.filter(|n: Seq<char>| n != name)
}

/// An object the engine resolved a reference to, by kind and handle.
#[derive(Clone, Debug, PartialEq, Eq, Structural)]
pub enum ReferencedObject {
    Group(hid_t),
    Dataset(hid_t),
    Datatype(hid_t),
}

impl ReferencedObject {
    /// Classifies a resolved object handle by the object type the engine
    /// reported.  Only groups, datasets and named datatypes can be
    /// referenced; every other type is rejected.
    pub fn from_type_and_id(object_type: H5O_type_t, object_id: hid_t) -> (r: Result<
        ReferencedObject,
        crate::Error,
    >)
        ensures
            r == match object_type {
                H5O_type_t::H5O_TYPE_GROUP => Ok::<ReferencedObject, crate::Error>(
                    ReferencedObject::Group(object_id),
                ),
                H5O_type_t::H5O_TYPE_DATASET => Ok(ReferencedObject::Dataset(object_id)),
                H5O_type_t::H5O_TYPE_NAMED_DATATYPE => Ok(ReferencedObject::Datatype(object_id)),
                _ => Err(crate::Error::ParameterError),
            },
    {
        match object_type {
            H5O_type_t::H5O_TYPE_GROUP => Ok(ReferencedObject::Group(object_id)),
            H5O_type_t::H5O_TYPE_DATASET => Ok(ReferencedObject::Dataset(object_id)),
            H5O_type_t::H5O_TYPE_NAMED_DATATYPE => Ok(ReferencedObject::Datatype(object_id)),
            _ => Err(crate::Error::ParameterError),
        }
    }
}

} // verus!
