//! Decoding of the per-event bitmask delivered by the native change facility.

use vstd::prelude::*;

verus! {

/// No flag set.
pub const NONE: u32 = 0x0;
/// Events were coalesced; the subtree under the path must be scanned again.
pub const MUST_SCAN_SUB_DIRS: u32 = 0x1;
/// The user-side buffer overflowed and events were dropped.
pub const USER_DROPPED: u32 = 0x2;
/// The kernel-side buffer overflowed and events were dropped.
pub const KERNEL_DROPPED: u32 = 0x4;
/// The 64-bit event identifier wrapped around.
pub const EVENT_IDS_WRAPPED: u32 = 0x8;
/// Replay of historical events up to the resume point is complete.
pub const HISTORY_DONE: u32 = 0x10;
/// A watched root, or one of its ancestors, changed.
pub const ROOT_CHANGED: u32 = 0x20;
/// A volume was mounted under a watched root.
pub const MOUNT: u32 = 0x40;
/// A volume was unmounted under a watched root.
pub const UNMOUNT: u32 = 0x80;
/// The item was created.
pub const ITEM_CREATED: u32 = 0x100;
/// The item was removed.
pub const ITEM_REMOVED: u32 = 0x200;
/// The item's inode metadata changed.
pub const ITEM_INODE_META_MOD: u32 = 0x400;
/// The item was renamed.
pub const ITEM_RENAMED: u32 = 0x800;
/// The item's contents were modified.
pub const ITEM_MODIFIED: u32 = 0x1000;
/// The item's finder info changed.
pub const ITEM_FINDER_INFO_MOD: u32 = 0x2000;
/// The item's owner changed.
pub const ITEM_CHANGE_OWNER: u32 = 0x4000;
/// The item's extended attributes changed.
pub const ITEM_XATTR_MOD: u32 = 0x8000;
/// The item is a regular file.
pub const ITEM_IS_FILE: u32 = 0x10000;
/// The item is a directory.
pub const ITEM_IS_DIR: u32 = 0x20000;
/// The item is a symbolic link.
pub const ITEM_IS_SYMLINK: u32 = 0x40000;
/// The event was caused by the watching process itself.
pub const OWN_EVENT: u32 = 0x80000;
/// The item is a hard link.
pub const ITEM_IS_HARDLINK: u32 = 0x100000;
/// The item is the last hard link to its file.
pub const ITEM_IS_LAST_HARDLINK: u32 = 0x200000;
/// The item is a clone or was cloned.
pub const ITEM_CLONED: u32 = 0x400000;

/// Every bit that this decoder recognises.
pub const KNOWN_FLAGS: u32 = 0x7f_ffff;

/// Bits that mean the facility lost precision: the whole root is suspect.
pub const RESCAN_FLAGS: u32 = MUST_SCAN_SUB_DIRS | USER_DROPPED | KERNEL_DROPPED | ROOT_CHANGED;

/// Bits that say the event concerns exactly one non-directory object.
pub const NODE_FLAGS: u32 = ITEM_IS_FILE | ITEM_IS_SYMLINK | ITEM_IS_HARDLINK | ITEM_IS_LAST_HARDLINK;

/// Bits that say the event concerns a directory.
pub const FOLDER_FLAGS: u32 = ITEM_IS_DIR | MOUNT | UNMOUNT;

/// What a consumer has to do about one event.
#[derive(Clone, Copy, Debug, PartialEq, Eq, Structural)]
pub enum ScanType {
    /// Look at the single object named by the event's path.
    SingleNode,
    /// Look at the directory named by the event's path.
    Folder,
    /// Events were lost: enumerate the whole root again.
    ReScan,
    /// Informational only; nothing changed.
    Nop,
}

/// The set of flags of a decoded mask: the raw bits with every unknown bit cleared.
pub open spec fn decoded(raw: u32) -> u32 {
    raw & KNOWN_FLAGS
}

/// The classification of a flag set, by priority: lost events first, then
/// single-object granularity, then directory granularity.
pub open spec fn classify(bits: u32) -> ScanType {
    if bits & RESCAN_FLAGS != 0 {
        ScanType::ReScan
    } else if bits & NODE_FLAGS != 0 {
        ScanType::SingleNode
    } else if bits & FOLDER_FLAGS != 0 {
        ScanType::Folder
    } else {
        ScanType::Nop
    }
}

/// A set of event flags; it never holds a bit outside `KNOWN_FLAGS`.
#[derive(Clone, Copy, Debug, PartialEq, Eq, Structural)]
pub struct EventFlag {
    bits: u32,
}

impl View for EventFlag {
    type V = u32;

    closed spec fn view(&self) -> u32 {
        self.bits
    }
}

impl EventFlag {
    #[verifier::type_invariant]
    spec fn known_only(self) -> bool {
        self.bits & !KNOWN_FLAGS == 0
    }

    /// Decodes a raw mask, dropping the bits that are not recognised.
    pub fn from_bits_truncate(raw: u32) -> (r: EventFlag)
        ensures
            r@ == decoded(raw),
    {
        let bits = raw & KNOWN_FLAGS;
        assert(bits & !KNOWN_FLAGS == 0) by (bit_vector)
            requires
                bits == raw & 0x7f_ffffu32,
        ;
        EventFlag { bits }
    }

    /// The empty set.
    pub fn empty() -> (r: EventFlag)
        ensures
            r@ == 0,
    {
        assert(0u32 & !KNOWN_FLAGS == 0) by (bit_vector);
        EventFlag { bits: 0 }
    }

    /// The mask of this set.
    pub fn bits(&self) -> (r: u32)
        ensures
            r == self@,
            r & !KNOWN_FLAGS == 0,
    {
        proof {
            use_type_invariant(self);
        }
        self.bits
    }

    /// Whether every bit of `mask` is in the set.
    pub fn contains(&self, mask: u32) -> (r: bool)
        ensures
            r == (self@ & mask == mask),
    {
        self.bits & mask == mask
    }

    /// Whether any bit of `mask` is in the set.
    pub fn intersects(&self, mask: u32) -> (r: bool)
        ensures
            r == (self@ & mask != 0),
    {
        self.bits & mask != 0
    }

    /// The union of two sets.
    pub fn union(&self, other: &EventFlag) -> (r: EventFlag)
        ensures
            r@ == self@ | other@,
    {
        proof {
            use_type_invariant(self);
            use_type_invariant(other);
        }
        let (a, b) = (self.bits, other.bits);
        assert((a | b) & !KNOWN_FLAGS == 0) by (bit_vector)
            requires
                a & !0x7f_ffffu32 == 0,
                b & !0x7f_ffffu32 == 0,
        ;
        EventFlag { bits: a | b }
    }

    /// The classification of this set, by the priority of `classify`.
    pub fn scan_type(&self) -> (r: ScanType)
        ensures
            r == classify(self@),
    {
        if self.intersects(RESCAN_FLAGS) {
            ScanType::ReScan
        } else if self.intersects(NODE_FLAGS) {
            ScanType::SingleNode
        } else if self.intersects(FOLDER_FLAGS) {
            ScanType::Folder
        } else {
            ScanType::Nop
        }
    }
}

/// Decoding drops unknown bits: a mask with extra unrecognised bits decodes to
/// the same set as the mask without them, and decoding a decoded set changes
/// nothing.
pub proof fn lemma_decode_truncates(raw: u32, extra: u32)
    requires
        extra & KNOWN_FLAGS == 0,
    ensures
        decoded(raw | extra) == decoded(raw),
        decoded(decoded(raw)) == decoded(raw),
{
    assert((raw | extra) & 0x7f_ffffu32 == raw & 0x7f_ffffu32) by (bit_vector)
        requires
            extra & 0x7f_ffffu32 == 0,
    ;
    assert((raw & 0x7f_ffffu32) & 0x7f_ffffu32 == raw & 0x7f_ffffu32) by (bit_vector);
}

/// Unknown bits never change the classification of a mask.
pub proof fn lemma_classify_decoded(raw: u32)
    ensures
        classify(decoded(raw)) == classify(raw),
{
    assert(RESCAN_FLAGS == 0x27u32 && NODE_FLAGS == 0x350000u32 && FOLDER_FLAGS == 0x200c0u32)
        by (bit_vector);
    assert((raw & 0x7f_ffffu32) & 0x27u32 == raw & 0x27u32) by (bit_vector);
    assert((raw & 0x7f_ffffu32) & 0x350000u32 == raw & 0x350000u32) by (bit_vector);
    assert((raw & 0x7f_ffffu32) & 0x200c0u32 == raw & 0x200c0u32) by (bit_vector);
}

} // verus!
