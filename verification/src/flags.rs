//! The hint bits that come with each notification.

use vstd::prelude::*;

verus! {

/// Events were dropped: the subtree has to be walked again.
pub const MUST_SCAN_SUBDIRS: u32 = 0x0000_0001;

/// The drop happened in the client's own queue.
pub const USER_DROPPED: u32 = 0x0000_0002;

/// The drop happened in the kernel.
pub const KERNEL_DROPPED: u32 = 0x0000_0004;

/// The event id counter wrapped around.
pub const IDS_WRAPPED: u32 = 0x0000_0008;

/// Marks the end of the replayed history; carries no change.
pub const HISTORY_DONE: u32 = 0x0000_0010;

/// A watched root itself was moved or removed.
pub const ROOT_CHANGED: u32 = 0x0000_0020;

/// A volume was mounted at the path.
pub const MOUNT: u32 = 0x0000_0040;

/// A volume was unmounted at the path.
pub const UNMOUNT: u32 = 0x0000_0080;

pub const ITEM_CREATED: u32 = 0x0000_0100;

pub const ITEM_REMOVED: u32 = 0x0000_0200;

pub const INODE_META_MOD: u32 = 0x0000_0400;

pub const ITEM_RENAMED: u32 = 0x0000_0800;

pub const ITEM_MODIFIED: u32 = 0x0000_1000;

pub const FINDER_INFO_MOD: u32 = 0x0000_2000;

pub const ITEM_CHANGE_OWNER: u32 = 0x0000_4000;

pub const ITEM_XATTR_MOD: u32 = 0x0000_8000;

pub const IS_FILE: u32 = 0x0001_0000;

pub const IS_DIR: u32 = 0x0002_0000;

pub const IS_SYMLINK: u32 = 0x0004_0000;

/// The change was made by the watching process itself.
pub const OWN_EVENT: u32 = 0x0008_0000;

pub const IS_HARDLINK: u32 = 0x0010_0000;

pub const IS_LAST_HARDLINK: u32 = 0x0020_0000;

pub const ITEM_CLONED: u32 = 0x0040_0000;

/// Every bit that has a name.
pub const ALL_BITS: u32 = 0x007F_FFFF;

/// Whether `bits` holds named bits only.
pub open spec fn known(bits: u32) -> bool {
    bits & !ALL_BITS == 0
}

/// Whether every bit of `mask` is set in `bits`.
pub open spec fn holds(bits: u32, mask: u32) -> bool {
    bits & mask == mask
}

/// A decoded word of hint bits: no bit without a name is set.
#[derive(Clone, Copy, Debug, PartialEq, Eq, Structural)]
pub struct StreamFlags {
    bits: u32,
}

impl View for StreamFlags {
    type V = u32;

    closed spec fn view(&self) -> u32 {
        self.bits
    }
}

impl StreamFlags {
    #[verifier::type_invariant]
    spec fn well_formed(self) -> bool {
        known(self.bits)
    }

    /// Whether every bit of `mask` is set.
    pub open spec fn has(self, mask: u32) -> bool {
        holds(self@, mask)
    }

    /// The set with no bit.
    pub fn empty() -> (r: StreamFlags)
        ensures
            r@ == 0,
    {
        assert(known(0u32)) by (bit_vector);
        StreamFlags { bits: 0 }
    }

    /// The set with every named bit.
    pub fn all() -> (r: StreamFlags)
        ensures
            r@ == ALL_BITS,
    {
        assert(known(ALL_BITS)) by (bit_vector);
        StreamFlags { bits: ALL_BITS }
    }

    /// Decodes a raw word: `None` where a bit without a name is set.
    pub fn from_bits(bits: u32) -> (r: Option<StreamFlags>)
        ensures
            r is Some <==> known(bits),
            r matches Some(f) ==> f@ == bits,
    {
        if bits & !ALL_BITS == 0 {
            Some(StreamFlags { bits })
        } else {
            None
        }
    }

    /// Decodes a raw word and drops the bits without a name.
    pub fn from_bits_truncate(bits: u32) -> (r: StreamFlags)
        ensures
            r@ == bits & ALL_BITS,
    {
        assert(known(bits & ALL_BITS)) by (bit_vector);
        StreamFlags { bits: bits & ALL_BITS }
    }

    /// The raw word.
    pub fn bits(&self) -> (r: u32)
        ensures
            r == self@,
            known(r),
    {
        proof {
            use_type_invariant(self);
        }
        self.bits
    }

    pub fn is_empty(&self) -> (r: bool)
        ensures
            r == (self@ == 0),
    {
        self.bits == 0
    }

    /// Membership: whether every bit of `mask` is set.
    pub fn contains(&self, mask: u32) -> (r: bool)
        ensures
            r == self.has(mask),
    {
        self.bits & mask == mask
    }

    /// Whether any bit of `mask` is set.
    pub fn intersects(&self, mask: u32) -> (r: bool)
        ensures
            r == (self@ & mask != 0),
    {
        self.bits & mask != 0
    }

    pub fn union(self, other: StreamFlags) -> (r: StreamFlags)
        ensures
            r@ == self@ | other@,
    {
        proof {
            use_type_invariant(self);
            use_type_invariant(other);
        }
        let a: u32 = self.bits;
        let b: u32 = other.bits;
        assert(known(a | b)) by (bit_vector)
            requires
                known(a),
                known(b),
        ;
        StreamFlags { bits: a | b }
    }

    pub fn intersection(self, other: StreamFlags) -> (r: StreamFlags)
        ensures
            r@ == self@ & other@,
    {
        proof {
            use_type_invariant(self);
        }
        let a: u32 = self.bits;
        let b: u32 = other.bits;
        assert(known(a & b)) by (bit_vector)
            requires
                known(a),
        ;
        StreamFlags { bits: a & b }
    }

    /// The bits of `self` that `other` lacks.
    pub fn difference(self, other: StreamFlags) -> (r: StreamFlags)
        ensures
            r@ == self@ & !other@,
    {
        proof {
            use_type_invariant(self);
        }
        let a: u32 = self.bits;
        let b: u32 = other.bits;
        assert(known(a & !b)) by (bit_vector)
            requires
                known(a),
        ;
        StreamFlags { bits: a & !b }
    }
}

/// A raw word decodes exactly when it lies within the named bits:
/// given as a bound on the word, since the named bits are the low ones.
pub proof fn lemma_known_is_bound(bits: u32)
    ensures
        known(bits) <==> bits <= ALL_BITS,
{
    assert(known(bits) <==> bits <= ALL_BITS) by (bit_vector);
}

} // verus!
