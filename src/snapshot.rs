//! Snapshot requests, their queue, and the bytes and names of the files
//! that export them.

use vstd::prelude::*;

use crate::text::{append_str, decimal, push_decimal, string_of};

verus! {

/// Which buffer a snapshot reads back.
#[derive(Clone, Copy, Debug, PartialEq, Eq, Structural)]
pub enum SnapshotType {
    /// The plane of the state buffer that the kernel wrote last.
    State,
    /// The average-energy buffer.
    Energy,
}

/// A queued request: what to read back, and the file name to write it to
/// (a dated name is chosen when there is none).
pub type SnapshotRequest = (SnapshotType, Option<String>);

impl SnapshotType {
    pub open spec fn spec_name(self) -> Seq<char> {
        match self {
            SnapshotType::State => "state"@,
            SnapshotType::Energy => "energy"@,
        }
    }

    /// The name that dated snapshot files start with.
    pub fn name(&self) -> (r: &'static str)
        ensures
            r@ == self.spec_name(),
    {
        match self {
            SnapshotType::State => "state",
            SnapshotType::Energy => "energy",
        }
    }
}

/// The request that the next drain takes, and the queue after it: the
/// oldest request leaves first.
pub open spec fn drained(q: Seq<SnapshotRequest>) -> (Option<SnapshotRequest>, Seq<SnapshotRequest>) {
    if q.len() == 0 {
        (None, q)
    } else {
        (Some(q[0]), q.drop_first())
    }
}

/// Snapshot requests waiting for a frame to export them.
pub struct SnapshotQueue {
    snapshots: Vec<SnapshotRequest>,
}

impl View for SnapshotQueue {
    type V = Seq<SnapshotRequest>;

    closed spec fn view(&self) -> Seq<SnapshotRequest> {
        self.snapshots@
    }
}

impl SnapshotQueue {
    /// An empty queue.
    pub fn new() -> (r: Self)
        ensures
            r@ == Seq::<SnapshotRequest>::empty(),
    {
        SnapshotQueue { snapshots: Vec::new() }
    }

    /// Queues one request.
    pub fn push(&mut self, snapshot: SnapshotType, name: Option<String>)
        ensures
            final(self)@ == old(self)@.push((snapshot, name)),
    {
        self.snapshots.push((snapshot, name));
    }

    /// Queues `snapshots`, in their order.
    pub fn extend(&mut self, snapshots: Vec<SnapshotRequest>)
        ensures
            final(self)@ == old(self)@ + snapshots@,
    {
        let mut more = snapshots;
        self.snapshots.append(&mut more);
    }

    /// Takes the oldest request.
    pub fn pop(&mut self) -> (r: Option<SnapshotRequest>)
        ensures
            (r, final(self)@) == drained(old(self)@),
    {
        if self.snapshots.len() == 0 {
            None
        } else {
            Some(self.snapshots.remove(0))
        }
    }

    pub fn len(&self) -> (r: usize)
        ensures
            r == self@.len(),
    {
        self.snapshots.len()
    }

    pub fn is_empty(&self) -> (r: bool)
        ensures
            r == (self@.len() == 0),
    {
        self.snapshots.len() == 0
    }
}

impl Default for SnapshotQueue {
    fn default() -> (r: Self)
        ensures
            r@ == Seq::<SnapshotRequest>::empty(),
    {
        SnapshotQueue::new()
    }
}

/// The four bytes of `x`, least significant first.
pub open spec fn le_u32(x: u32) -> Seq<u8> {
    seq![
        (x % 256) as u8,
        ((x / 256) % 256) as u8,
        ((x / 65536) % 256) as u8,
        ((x / 16777216) % 256) as u8,
    ]
}

/// A snapshot file: the grid width and height as little-endian `u32`, then
/// the raw bytes read back from the GPU.
pub open spec fn framed(width: u32, height: u32, data: Seq<u8>) -> Seq<u8> {
    le_u32(width) + le_u32(height) + data
}

fn push_le_u32(out: &mut Vec<u8>, x: u32)
    ensures
        final(out)@ == old(out)@ + le_u32(x),
{
    out.push((x % 256) as u8);
    out.push(((x / 256) % 256) as u8);
    out.push(((x / 65536) % 256) as u8);
    out.push(((x / 16777216) % 256) as u8);
    assert(out@ =~= old(out)@ + le_u32(x));
}

/// The contents of a snapshot file for a `width` by `height` grid.
pub fn snapshot_file(width: u32, height: u32, data: Vec<u8>) -> (r: Vec<u8>)
    ensures
        r@ == framed(width, height, data@),
{
    let mut out: Vec<u8> = Vec::new();
    push_le_u32(&mut out, width);
    push_le_u32(&mut out, height);
    let mut rest = data;
    out.append(&mut rest);
    assert(out@ =~= framed(width, height, data@));
    out
}

/// `NAME-TIMESTAMP.EXT` for the first candidate, `NAME-TIMESTAMP-N.EXT`
/// for the `N`th after it.
pub open spec fn dated_name(name: Seq<char>, timestamp: u64, index: u64, ext: Seq<char>) -> Seq<
    char,
> {
    if index == 0 {
        name + "-"@ + decimal(timestamp as nat) + "."@ + ext
    } else {
        name + "-"@ + decimal(timestamp as nat) + "-"@ + decimal(index as nat) + "."@ + ext
    }
}

/// The `index`th candidate name of a dated file. The caller tries the
/// candidates in order and takes the first that names no existing file.
pub fn dated_file_name(name: &str, timestamp: u64, index: u64, ext: &str) -> (r: String)
    ensures
        r@ == dated_name(name@, timestamp, index, ext@),
{
    let mut out: Vec<char> = Vec::new();
    append_str(&mut out, name);
    append_str(&mut out, "-");
    push_decimal(&mut out, timestamp);
    if index != 0 {
        append_str(&mut out, "-");
        push_decimal(&mut out, index);
    }
    append_str(&mut out, ".");
    append_str(&mut out, ext);
    string_of(&out)
}

} // verus!
