//! Models of the engine's property lists that this library configures:
//! object-copy properties and dataset-access properties.  Each list is
//! held as the plain values it carries; the embedder moves those values
//! into and out of the native engine.

use vstd::prelude::*;

use crate::Error;

verus! {

/// Copy object without copying attributes.
pub const H5O_COPY_WITHOUT_ATTR_FLAG: u32 = 0x0010;

/// Copy only immediate members of a group.
pub const H5O_COPY_SHALLOW_HIERARCHY_FLAG: u32 = 0x0001;

/// Expand soft links into new objects.
pub const H5O_COPY_EXPAND_SOFT_LINK_FLAG: u32 = 0x0002;

/// Expand external links into new objects.
pub const H5O_COPY_EXPAND_EXT_LINK_FLAG: u32 = 0x0004;

/// Object copy properties: a word of `H5O_COPY_*` flag bits.
#[derive(Debug, PartialEq, Eq, Structural)]
pub struct ObjectCopy {
    pub flags: u32,
}

impl Clone for ObjectCopy {
    fn clone(&self) -> (r: Self)
        ensures
            r == *self,
    {
        ObjectCopy { flags: self.flags }
    }
}

/// Builder used to create object copy property lists.
#[derive(Clone, Debug, PartialEq, Eq, Structural)]
pub struct ObjectCopyBuilder {
    pub copy_without_attr: Option<bool>,
    pub shallow_hierarchy: Option<bool>,
    pub expand_soft_links: Option<bool>,
    pub expand_ext_links: Option<bool>,
}

impl Default for ObjectCopyBuilder {
    /// A fresh builder leaves every option unset.
    fn default() -> (r: Self)
        ensures
            r == ObjectCopyBuilder::spec_new(),
    {
        ObjectCopyBuilder {
            copy_without_attr: None,
            shallow_hierarchy: None,
            expand_soft_links: None,
            expand_ext_links: None,
        }
    }
}

impl ObjectCopyBuilder {
    /// The builder with every option unset.
    pub open spec fn spec_new() -> ObjectCopyBuilder {
        ObjectCopyBuilder {
            copy_without_attr: None,
            shallow_hierarchy: None,
            expand_soft_links: None,
            expand_ext_links: None,
        }
    }

    /// The flag word this builder produces: each set option contributes
    /// its flag bit when true; an unset option contributes nothing.
    pub open spec fn spec_flags(self) -> u32 {
        (if self.copy_without_attr == Some(true) {
            H5O_COPY_WITHOUT_ATTR_FLAG
        } else {
            0u32
        }) | (if self.shallow_hierarchy == Some(true) {
            H5O_COPY_SHALLOW_HIERARCHY_FLAG
        } else {
            0u32
        }) | (if self.expand_soft_links == Some(true) {
            H5O_COPY_EXPAND_SOFT_LINK_FLAG
        } else {
            0u32
        }) | (if self.expand_ext_links == Some(true) {
            H5O_COPY_EXPAND_EXT_LINK_FLAG
        } else {
            0u32
        })
    }

    /// Creates a new object copy property list builder.
    pub fn new() -> (r: Self)
        ensures
            r == ObjectCopyBuilder::spec_new(),
    {
        Self::default()
    }

    /// Creates a new builder from an existing property list, with every
    /// option set from the list's flag bits.
    pub fn from_plist(plist: &ObjectCopy) -> (r: Result<Self, Error>)
        ensures
            r matches Ok(b) && b == (ObjectCopyBuilder {
                copy_without_attr: Some(plist.spec_copy_without_attr()),
                shallow_hierarchy: Some(plist.spec_shallow_hierarchy()),
                expand_soft_links: Some(plist.spec_expand_soft_links()),
                expand_ext_links: Some(plist.spec_expand_ext_links()),
            }),
    {
        let flags = match plist.get_flags() {
            Ok(f) => f,
            Err(e) => {
                return Err(e);
            },
        };
        Ok(
            ObjectCopyBuilder {
                copy_without_attr: Some(flags & H5O_COPY_WITHOUT_ATTR_FLAG != 0),
                shallow_hierarchy: Some(flags & H5O_COPY_SHALLOW_HIERARCHY_FLAG != 0),
                expand_soft_links: Some(flags & H5O_COPY_EXPAND_SOFT_LINK_FLAG != 0),
                expand_ext_links: Some(flags & H5O_COPY_EXPAND_EXT_LINK_FLAG != 0),
            },
        )
    }

    /// Copy object without copying attributes.
    pub fn copy_without_attr(&mut self, enable: bool) -> (r: &mut Self)
        ensures
            *r == (ObjectCopyBuilder { copy_without_attr: Some(enable), ..*old(self) }),
            *final(self) == *final(r),
    {
        self.copy_without_attr = Some(enable);
        self
    }

    /// Copy only immediate members of a group (shallow copy).
    pub fn shallow_hierarchy(&mut self, enable: bool) -> (r: &mut Self)
        ensures
            *r == (ObjectCopyBuilder { shallow_hierarchy: Some(enable), ..*old(self) }),
            *final(self) == *final(r),
    {
        self.shallow_hierarchy = Some(enable);
        self
    }

    /// Expand soft links into new objects.
    pub fn expand_soft_links(&mut self, enable: bool) -> (r: &mut Self)
        ensures
            *r == (ObjectCopyBuilder { expand_soft_links: Some(enable), ..*old(self) }),
            *final(self) == *final(r),
    {
        self.expand_soft_links = Some(enable);
        self
    }

    /// Expand external links into new objects.
    pub fn expand_ext_links(&mut self, enable: bool) -> (r: &mut Self)
        ensures
            *r == (ObjectCopyBuilder { expand_ext_links: Some(enable), ..*old(self) }),
            *final(self) == *final(r),
    {
        self.expand_ext_links = Some(enable);
        self
    }

    /// Copies the builder settings into an object copy property list: the
    /// list's flag word becomes the OR of the enabled options.  A builder
    /// whose options OR to zero sets nothing and leaves the list
    /// untouched, so existing flags cannot be cleared through `apply`.
    pub fn apply(&self, plist: &mut ObjectCopy) -> (r: Result<(), Error>)
        ensures
            r is Ok,
            final(plist).flags == if self.spec_flags() != 0 {
                self.spec_flags()
            } else {
                old(plist).flags
            },
    {
        let flags = (if let Some(true) = self.copy_without_attr {
            H5O_COPY_WITHOUT_ATTR_FLAG
        } else {
            0u32
        }) | (if let Some(true) = self.shallow_hierarchy {
            H5O_COPY_SHALLOW_HIERARCHY_FLAG
        } else {
            0u32
        }) | (if let Some(true) = self.expand_soft_links {
            H5O_COPY_EXPAND_SOFT_LINK_FLAG
        } else {
            0u32
        }) | (if let Some(true) = self.expand_ext_links {
            H5O_COPY_EXPAND_EXT_LINK_FLAG
        } else {
            0u32
        });
        if flags != 0 {
            plist.flags = flags;
        }
        Ok(())
    }

    /// Constructs a new object copy property list from the builder.
    pub fn finish(&self) -> (r: Result<ObjectCopy, Error>)
        ensures
            r matches Ok(p) && p.flags == self.spec_flags(),
    {
        let mut plist = match ObjectCopy::try_new() {
            Ok(p) => p,
            Err(e) => {
                return Err(e);
            },
        };
        match self.apply(&mut plist) {
            Ok(()) => Ok(plist),
            Err(e) => Err(e),
        }
    }
}

impl ObjectCopy {
    pub open spec fn spec_copy_without_attr(self) -> bool {
        self.flags & H5O_COPY_WITHOUT_ATTR_FLAG != 0
    }

    pub open spec fn spec_shallow_hierarchy(self) -> bool {
        self.flags & H5O_COPY_SHALLOW_HIERARCHY_FLAG != 0
    }

    pub open spec fn spec_expand_soft_links(self) -> bool {
        self.flags & H5O_COPY_EXPAND_SOFT_LINK_FLAG != 0
    }

    pub open spec fn spec_expand_ext_links(self) -> bool {
        self.flags & H5O_COPY_EXPAND_EXT_LINK_FLAG != 0
    }

    /// Creates a new object copy property list with no flags set.
    pub fn try_new() -> (r: Result<Self, Error>)
        ensures
            r matches Ok(p) && p.flags == 0u32,
    {
        Ok(ObjectCopy { flags: 0 })
    }

    /// Creates a new object copy property list builder.
    pub fn build() -> (r: ObjectCopyBuilder)
        ensures
            r == ObjectCopyBuilder::spec_new(),
    {
        ObjectCopyBuilder::new()
    }

    /// The raw flag word of the list.
    pub fn get_flags(&self) -> (r: Result<u32, Error>)
        ensures
            r == Ok::<u32, Error>(self.flags),
    {
        Ok(self.flags)
    }

    /// Whether attributes are excluded from copies.
    pub fn copy_without_attr(&self) -> (r: bool)
        ensures
            r == self.spec_copy_without_attr(),
    {
        self.flags & H5O_COPY_WITHOUT_ATTR_FLAG != 0
    }

    /// Whether group copies are shallow.
    pub fn shallow_hierarchy(&self) -> (r: bool)
        ensures
            r == self.spec_shallow_hierarchy(),
    {
        self.flags & H5O_COPY_SHALLOW_HIERARCHY_FLAG != 0
    }

    /// Whether soft links are expanded.
    pub fn expand_soft_links(&self) -> (r: bool)
        ensures
            r == self.spec_expand_soft_links(),
    {
        self.flags & H5O_COPY_EXPAND_SOFT_LINK_FLAG != 0
    }

    /// Whether external links are expanded.
    pub fn expand_ext_links(&self) -> (r: bool)
        ensures
            r == self.spec_expand_ext_links(),
    {
        self.flags & H5O_COPY_EXPAND_EXT_LINK_FLAG != 0
    }
}

/// Raw data chunk cache parameters.  The eviction weight `w0` is an IEEE
/// 754 double-precision value carried by bit pattern.
#[derive(Clone, Copy, Debug, PartialEq, Eq, Structural)]
pub struct ChunkCache {
    pub nslots: usize,
    pub nbytes: usize,
    pub w0_bits: u64,
}

/// Bit pattern of the double-precision value three quarters, the engine's
/// default chunk cache eviction weight.
pub const CHUNK_CACHE_DEFAULT_W0_BITS: u64 = 0x3FE8_0000_0000_0000;

/// The engine's default chunk cache: 521 slots of one mebibyte in all.
pub const CHUNK_CACHE_DEFAULT_NSLOTS: usize = 521;

pub const CHUNK_CACHE_DEFAULT_NBYTES: usize = 1048576;

impl ChunkCache {
    pub open spec fn spec_default() -> ChunkCache {
        ChunkCache {
            nslots: CHUNK_CACHE_DEFAULT_NSLOTS,
            nbytes: CHUNK_CACHE_DEFAULT_NBYTES,
            w0_bits: CHUNK_CACHE_DEFAULT_W0_BITS,
        }
    }
}

impl Default for ChunkCache {
    /// The engine's documented default cache geometry.
    fn default() -> (r: Self)
        ensures
            r == ChunkCache::spec_default(),
    {
        ChunkCache {
            nslots: CHUNK_CACHE_DEFAULT_NSLOTS,
            nbytes: CHUNK_CACHE_DEFAULT_NBYTES,
            w0_bits: CHUNK_CACHE_DEFAULT_W0_BITS,
        }
    }
}

/// Options for including or excluding missing mapped elements in a
/// virtual dataset view.
#[derive(Clone, Copy, Debug, PartialEq, Eq, Structural)]
pub enum VirtualView {
    /// Include all data before the first missing mapped data.
    FirstMissing,
    /// Include all available mapped data, filling missing data with a
    /// fill value.
    LastAvailable,
}

impl Default for VirtualView {
    /// The engine's default view includes all available mapped data.
    fn default() -> (r: Self)
        ensures
            r == VirtualView::LastAvailable,
    {
        VirtualView::LastAvailable
    }
}

/// Dataset access properties.
#[derive(Debug, PartialEq, Eq)]
pub struct DatasetAccess {
    pub chunk_cache: ChunkCache,
    pub efile_prefix: String,
    pub virtual_view: VirtualView,
    pub virtual_printf_gap: usize,
    pub all_coll_metadata_ops: bool,
}

impl Clone for DatasetAccess {
    fn clone(&self) -> (r: Self)
        ensures
            r.chunk_cache == self.chunk_cache,
            r.efile_prefix@ == self.efile_prefix@,
            r.virtual_view == self.virtual_view,
            r.virtual_printf_gap == self.virtual_printf_gap,
            r.all_coll_metadata_ops == self.all_coll_metadata_ops,
    {
        DatasetAccess {
            chunk_cache: self.chunk_cache,
            efile_prefix: self.efile_prefix.clone(),
            virtual_view: self.virtual_view,
            virtual_printf_gap: self.virtual_printf_gap,
            all_coll_metadata_ops: self.all_coll_metadata_ops,
        }
    }
}

/// Builder used to create dataset access property lists.
#[derive(Clone, Debug, Default)]
pub struct DatasetAccessBuilder {
    pub chunk_cache: Option<ChunkCache>,
    pub efile_prefix: Option<String>,
    pub virtual_view: Option<VirtualView>,
    pub virtual_printf_gap: Option<usize>,
    pub all_coll_metadata_ops: Option<bool>,
}

impl DatasetAccessBuilder {
    /// Creates a new dataset access property list builder.
    pub fn new() -> (r: Self)
        ensures
            r.chunk_cache is None,
            r.efile_prefix is None,
            r.virtual_view is None,
            r.virtual_printf_gap is None,
            r.all_coll_metadata_ops is None,
    {
        DatasetAccessBuilder {
            chunk_cache: None,
            efile_prefix: None,
            virtual_view: None,
            virtual_printf_gap: None,
            all_coll_metadata_ops: None,
        }
    }

    /// Creates a new builder from an existing property list, with every
    /// option set from the list's values.
    pub fn from_plist(plist: &DatasetAccess) -> (r: Result<Self, Error>)
        ensures
            r matches Ok(b) && {
                &&& b.chunk_cache == Some(plist.chunk_cache)
                &&& b.efile_prefix matches Some(p) && p@ == plist.efile_prefix@
                &&& b.virtual_view == Some(plist.virtual_view)
                &&& b.virtual_printf_gap == Some(plist.virtual_printf_gap)
                &&& b.all_coll_metadata_ops == Some(plist.all_coll_metadata_ops)
            },
    {
        let mut builder = DatasetAccessBuilder::new();
        let v = match plist.get_chunk_cache() {
            Ok(v) => v,
            Err(e) => {
                return Err(e);
            },
        };
        builder.chunk_cache(v.nslots, v.nbytes, v.w0_bits);
        let p = match plist.get_efile_prefix() {
            Ok(p) => p,
            Err(e) => {
                return Err(e);
            },
        };
        builder.efile_prefix(p.as_str());
        builder.virtual_view(plist.get_virtual_view());
        builder.virtual_printf_gap(plist.get_virtual_printf_gap());
        builder.all_coll_metadata_ops(plist.get_all_coll_metadata_ops());
        Ok(builder)
    }

    /// Sets the chunk cache options; the eviction weight is given by bit
    /// pattern.
    pub fn chunk_cache(&mut self, nslots: usize, nbytes: usize, w0_bits: u64) -> (r: &mut Self)
        ensures
            *r == (DatasetAccessBuilder {
                chunk_cache: Some(ChunkCache { nslots, nbytes, w0_bits }),
                ..*old(self)
            }),
            *final(self) == *final(r),
    {
        self.chunk_cache = Some(ChunkCache { nslots, nbytes, w0_bits });
        self
    }

    /// Sets the external dataset storage file prefix.
    pub fn efile_prefix(&mut self, prefix: &str) -> (r: &mut Self)
        ensures
            r.efile_prefix matches Some(p) && p@ == prefix@,
            r.chunk_cache == old(self).chunk_cache,
            r.virtual_view == old(self).virtual_view,
            r.virtual_printf_gap == old(self).virtual_printf_gap,
            r.all_coll_metadata_ops == old(self).all_coll_metadata_ops,
            *final(self) == *final(r),
    {
        self.efile_prefix = Some(prefix.to_owned());
        self
    }

    /// Sets the virtual dataset view options.
    pub fn virtual_view(&mut self, view: VirtualView) -> (r: &mut Self)
        ensures
            *r == (DatasetAccessBuilder { virtual_view: Some(view), ..*old(self) }),
            *final(self) == *final(r),
    {
        self.virtual_view = Some(view);
        self
    }

    /// Sets the maximum number of files/datasets allowed to be missing
    /// when determining the extent of an unlimited virtual dataset with
    /// printf-style mappings.
    pub fn virtual_printf_gap(&mut self, gap_size: usize) -> (r: &mut Self)
        ensures
            *r == (DatasetAccessBuilder { virtual_printf_gap: Some(gap_size), ..*old(self) }),
            *final(self) == *final(r),
    {
        self.virtual_printf_gap = Some(gap_size);
        self
    }

    /// Sets metadata I/O mode for read options to collective or
    /// independent.
    pub fn all_coll_metadata_ops(&mut self, is_collective: bool) -> (r: &mut Self)
        ensures
            *r == (DatasetAccessBuilder { all_coll_metadata_ops: Some(is_collective), ..*old(self) }),
            *final(self) == *final(r),
    {
        self.all_coll_metadata_ops = Some(is_collective);
        self
    }

    /// Copies the builder settings into a dataset access property list:
    /// each set option replaces the list's value, each unset option
    /// leaves it unchanged.
    pub fn apply(&self, plist: &mut DatasetAccess) -> (r: Result<(), Error>)
        ensures
            r is Ok,
            final(plist).chunk_cache == match self.chunk_cache {
                Some(c) => c,
                None => old(plist).chunk_cache,
            },
            final(plist).efile_prefix@ == match self.efile_prefix {
                Some(p) => p@,
                None => old(plist).efile_prefix@,
            },
            final(plist).virtual_view == match self.virtual_view {
                Some(v) => v,
                None => old(plist).virtual_view,
            },
            final(plist).virtual_printf_gap == match self.virtual_printf_gap {
                Some(g) => g,
                None => old(plist).virtual_printf_gap,
            },
            final(plist).all_coll_metadata_ops == match self.all_coll_metadata_ops {
                Some(c) => c,
                None => old(plist).all_coll_metadata_ops,
            },
    {
        if let Some(c) = self.chunk_cache {
            plist.chunk_cache = c;
        }
        if let Some(p) = &self.efile_prefix {
            plist.efile_prefix = p.clone();
        }
        if let Some(v) = self.virtual_view {
            plist.virtual_view = v;
        }
        if let Some(g) = self.virtual_printf_gap {
            plist.virtual_printf_gap = g;
        }
        if let Some(c) = self.all_coll_metadata_ops {
            plist.all_coll_metadata_ops = c;
        }
        Ok(())
    }

    /// Constructs a new dataset access property list from the builder.
    pub fn finish(&self) -> (r: Result<DatasetAccess, Error>)
        ensures
            r matches Ok(p) && {
                &&& p.chunk_cache == match self.chunk_cache {
                    Some(c) => c,
                    None => ChunkCache::spec_default(),
                }
                &&& p.efile_prefix@ == match self.efile_prefix {
                    Some(q) => q@,
                    None => Seq::<char>::empty(),
                }
                &&& p.virtual_view == match self.virtual_view {
                    Some(v) => v,
                    None => VirtualView::LastAvailable,
                }
                &&& p.virtual_printf_gap == match self.virtual_printf_gap {
                    Some(g) => g,
                    None => 0usize,
                }
                &&& p.all_coll_metadata_ops == match self.all_coll_metadata_ops {
                    Some(c) => c,
                    None => false,
                }
            },
    {
        let mut plist = match DatasetAccess::try_new() {
            Ok(p) => p,
            Err(e) => {
                return Err(e);
            },
        };
        match self.apply(&mut plist) {
            Ok(()) => Ok(plist),
            Err(e) => Err(e),
        }
    }
}

impl DatasetAccess {
    /// Creates a new dataset access property list with the engine's
    /// default values.
    pub fn try_new() -> (r: Result<Self, Error>)
        ensures
            r matches Ok(p) && {
                &&& p.chunk_cache == ChunkCache::spec_default()
                &&& p.efile_prefix@ == Seq::<char>::empty()
                &&& p.virtual_view == VirtualView::LastAvailable
                &&& p.virtual_printf_gap == 0usize
                &&& p.all_coll_metadata_ops == false
            },
    {
        Ok(
            DatasetAccess {
                chunk_cache: ChunkCache::default(),
                efile_prefix: String::new(),
                virtual_view: VirtualView::LastAvailable,
                virtual_printf_gap: 0,
                all_coll_metadata_ops: false,
            },
        )
    }

    /// Creates a new dataset access property list builder.
    pub fn build() -> (r: DatasetAccessBuilder)
        ensures
            r.chunk_cache is None,
            r.efile_prefix is None,
            r.virtual_view is None,
            r.virtual_printf_gap is None,
            r.all_coll_metadata_ops is None,
    {
        DatasetAccessBuilder::new()
    }

    /// The raw data chunk cache parameters.
    pub fn get_chunk_cache(&self) -> (r: Result<ChunkCache, Error>)
        ensures
            r == Ok::<ChunkCache, Error>(self.chunk_cache),
    {
        Ok(self.chunk_cache)
    }

    /// Returns the raw data chunk cache parameters.
    pub fn chunk_cache(&self) -> (r: ChunkCache)
        ensures
            r == self.chunk_cache,
    {
        self.chunk_cache
    }

    /// The external dataset storage file prefix.
    pub fn get_efile_prefix(&self) -> (r: Result<String, Error>)
        ensures
            r matches Ok(p) && p@ == self.efile_prefix@,
    {
        Ok(self.efile_prefix.clone())
    }

    /// Returns the external dataset storage file prefix.
    pub fn efile_prefix(&self) -> (r: String)
        ensures
            r@ == self.efile_prefix@,
    {
        self.efile_prefix.clone()
    }

    /// The virtual dataset view options.
    pub fn get_virtual_view(&self) -> (r: VirtualView)
        ensures
            r == self.virtual_view,
    {
        self.virtual_view
    }

    /// Returns the virtual dataset view options.
    pub fn virtual_view(&self) -> (r: VirtualView)
        ensures
            r == self.virtual_view,
    {
        self.virtual_view
    }

    /// The printf-style mapping gap size.
    pub fn get_virtual_printf_gap(&self) -> (r: usize)
        ensures
            r == self.virtual_printf_gap,
    {
        self.virtual_printf_gap
    }

    /// Returns the maximum number of files/datasets allowed to be missing
    /// when determining the extent of an unlimited virtual dataset with
    /// printf-style mappings.
    pub fn virtual_printf_gap(&self) -> (r: usize)
        ensures
            r == self.virtual_printf_gap,
    {
        self.virtual_printf_gap
    }

    /// Whether metadata I/O reads are collective.
    pub fn get_all_coll_metadata_ops(&self) -> (r: bool)
        ensures
            r == self.all_coll_metadata_ops,
    {
        self.all_coll_metadata_ops
    }

    /// Returns `true` if metadata I/O reads are set to collective, or
    /// `false` if independent.
    pub fn all_coll_metadata_ops(&self) -> (r: bool)
        ensures
            r == self.all_coll_metadata_ops,
    {
        self.all_coll_metadata_ops
    }
}

} // verus!
