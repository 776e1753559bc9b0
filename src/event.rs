//! Event records, the rescan decision, and the decoding of one native batch.

use vstd::prelude::*;
use crate::flags::{classify, decoded, EventFlag, ScanType};

verus! {

/// One change notification: an absolute path kept byte for byte, its decoded
/// flags, and the stream's event identifier.
#[derive(Debug)]
pub struct FsEvent {
    /// The path of this event, as the native facility encoded it.
    pub path: Vec<u8>,
    /// The event type.
    pub flag: EventFlag,
    /// The event id.
    pub id: u64,
}

/// Whether an event of classification `kind` at `path` makes a consumer that
/// watches `root` enumerate `root` again. Paths compare exactly, byte for byte.
pub open spec fn rescan_needed(kind: ScanType, path: Seq<u8>, root: Seq<u8>) -> bool {
    match kind {
        ScanType::ReScan => true,
        ScanType::SingleNode | ScanType::Folder => path == root,
        ScanType::Nop => false,
    }
}

/// Whether two byte strings are equal.
pub fn bytes_equal(a: &[u8], b: &[u8]) -> (r: bool)
    ensures
        r == (a@ == b@),
{
    if a.len() != b.len() {
        return false;
    }
    let mut i: usize = 0;
    while i < a.len()
        invariant
            a@.len() == b@.len(),
            0 <= i <= a@.len(),
            a@.subrange(0, i as int) == b@.subrange(0, i as int),
        decreases a@.len() - i,
    {
        if a[i] != b[i] {
            assert(a@[i as int] != b@[i as int]);
            return false;
        }
        assert(a@.subrange(0, i + 1) == a@.subrange(0, i as int).push(a@[i as int]));
        assert(b@.subrange(0, i + 1) == b@.subrange(0, i as int).push(b@[i as int]));
        i = i + 1;
    }
    assert(a@ == a@.subrange(0, a@.len() as int));
    assert(b@ == b@.subrange(0, b@.len() as int));
    true
}

/// An owned copy of a byte string.
pub fn copy_bytes(a: &[u8]) -> (r: Vec<u8>)
    ensures
        r@ == a@,
{
    let mut out: Vec<u8> = Vec::with_capacity(a.len());
    let mut i: usize = 0;
    while i < a.len()
        invariant
            0 <= i <= a@.len(),
            out@ == a@.subrange(0, i as int),
        decreases a@.len() - i,
    {
        out.push(a[i]);
        assert(a@.subrange(0, i + 1) == a@.subrange(0, i as int).push(a@[i as int]));
        i = i + 1;
    }
    assert(a@ == a@.subrange(0, a@.len() as int));
    out
}

impl FsEvent {
    /// Whether this record is the decoding of `path`, `raw` and `id`.
    pub open spec fn decodes(self, path: Seq<u8>, raw: u32, id: u64) -> bool {
        &&& self.path@ == path
        &&& self.flag@ == decoded(raw)
        &&& self.id == id
    }

    /// Builds a record from the owned bytes of a path, a raw flag mask, whose
    /// unknown bits are dropped, and an event id.
    pub fn from_parts(path: Vec<u8>, raw: u32, id: u64) -> (r: FsEvent)
        ensures
            r.decodes(path@, raw, id),
    {
        FsEvent { path, flag: EventFlag::from_bits_truncate(raw), id }
    }

    /// Whether a consumer watching `root` must enumerate `root` again, as
    /// `rescan_needed` says of this event.
    pub open spec fn rescan_spec(&self, root: Seq<u8>) -> bool {
        rescan_needed(classify(self.flag@), self.path@, root)
    }

    /// Decides between a full rescan of `root` and handling this event's path
    /// alone.
    pub fn should_rescan(&self, root: &[u8]) -> (r: bool)
        ensures
            r == self.rescan_spec(root@),
    {
        match self.flag.scan_type() {
            ScanType::ReScan => true,
            ScanType::SingleNode | ScanType::Folder => bytes_equal(self.path.as_slice(), root),
            ScanType::Nop => false,
        }
    }
}

/// Decodes one native batch of `count` items, given as parallel arrays of
/// paths, raw flag masks and ids. Nothing past `count` is read; when an array
/// holds fewer than `count` items the batch is refused. The records keep the
/// native order.
pub fn decode_batch(paths: &Vec<Vec<u8>>, flags: &[u32], ids: &[u64], count: usize) -> (r:
    Option<Vec<FsEvent>>)
    ensures
        r.is_some() <==> (count <= paths@.len() && count <= flags@.len() && count <= ids@.len()),
        r matches Some(events) ==> {
            &&& events@.len() == count
            &&& forall|i: int|
                0 <= i < count ==> (#[trigger] events@[i]).decodes(
                    paths@[i]@,
                    flags@[i],
                    ids@[i],
                )
        },
{
    if count > paths.len() || count > flags.len() || count > ids.len() {
        return None;
    }
    let mut events: Vec<FsEvent> = Vec::with_capacity(count);
    let mut i: usize = 0;
    while i < count
        invariant
            count <= paths@.len(),
            count <= flags@.len(),
            count <= ids@.len(),
            0 <= i <= count,
            events@.len() == i,
            forall|j: int|
                0 <= j < i ==> (#[trigger] events@[j]).decodes(paths@[j]@, flags@[j], ids@[j]),
        decreases count - i,
    {
        let path = copy_bytes(paths[i].as_slice());
        events.push(FsEvent::from_parts(path, flags[i], ids[i]));
        i = i + 1;
    }
    Some(events)
}

/// An event classified `ReScan` asks for a rescan whatever its path.
pub proof fn lemma_rescan_always(event: FsEvent, root: Seq<u8>)
    requires
        classify(event.flag@) == ScanType::ReScan,
    ensures
        event.rescan_spec(root),
{
}

/// An event classified `SingleNode` or `Folder` asks for a rescan exactly when
/// its path is the root.
pub proof fn lemma_rescan_at_root(event: FsEvent, root: Seq<u8>)
    requires
        classify(event.flag@) == ScanType::SingleNode || classify(event.flag@)
            == ScanType::Folder,
    ensures
        event.rescan_spec(root) <==> event.path@ == root,
{
}

/// An event classified `Nop` never asks for a rescan, whatever its path.
pub proof fn lemma_rescan_never_for_nop(event: FsEvent, root: Seq<u8>)
    requires
        classify(event.flag@) == ScanType::Nop,
    ensures
        !event.rescan_spec(root),
{
}

/// A decoded batch keeps the native order: when the native ids ascend, no
/// record with a smaller id stands after one with a larger id.
pub proof fn lemma_decoded_order(
    events: Seq<FsEvent>,
    paths: Seq<Vec<u8>>,
    flags: Seq<u32>,
    ids: Seq<u64>,
)
    requires
        events.len() <= paths.len(),
        events.len() <= flags.len(),
        events.len() <= ids.len(),
        forall|i: int| 0 <= i < events.len() ==> (#[trigger] events[i]).decodes(paths[i]@, flags[i], ids[i]),
        forall|i: int, j: int| 0 <= i <= j < ids.len() ==> ids[i] <= ids[j],
    ensures
        forall|i: int, j: int| 0 <= i < events.len() && 0 <= j < events.len() && events[j].id < events[i].id ==> j < i,
{
    assert forall|i: int, j: int| 0 <= i < events.len() && 0 <= j < events.len() && events[j].id < events[i].id implies j < i by {
        assert(events[i].decodes(paths[i]@, flags[i], ids[i]));
        assert(events[j].decodes(paths[j]@, flags[j], ids[j]));
    }
}

} // verus!
