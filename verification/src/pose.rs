//! The shared pose cache: the most recent joint positions of the ghost.

use vstd::prelude::*;

verus! {

/// One joint value: an IEEE 754 binary64 number, held as its bit pattern.
///
/// The core stores and copies joint values and never computes with them, so
/// the bit pattern is all it needs, and it keeps every value apart from every
/// other one.
#[derive(Clone, Copy, Debug, PartialEq, Eq, Structural)]
pub struct Scalar {
    pub bits: u64,
}

/// The time a message was stamped with: seconds and nanoseconds.
#[derive(Clone, Copy, Debug, PartialEq, Eq, Structural)]
pub struct Stamp {
    pub sec: i32,
    pub nanosec: u32,
}

/// The metadata that travels with a pose.
#[derive(Debug, PartialEq, Eq)]
pub struct Header {
    pub stamp: Stamp,
    pub frame_id: String,
}

/// A [`Header`] as a mathematical value.
pub struct HeaderView {
    pub stamp: Stamp,
    pub frame_id: Seq<char>,
}

impl View for Header {
    type V = HeaderView;

    open spec fn view(&self) -> HeaderView {
        HeaderView { stamp: self.stamp, frame_id: self.frame_id@ }
    }
}

impl Clone for Header {
    /// An independent copy: equal as a value, sharing nothing.
    fn clone(&self) -> (header: Header)
        ensures
            header@ == self@,
    {
        Header { stamp: self.stamp, frame_id: self.frame_id.clone() }
    }
}

/// A copy of the ghost's joint positions at one moment, with its header.
#[derive(Debug, PartialEq, Eq)]
pub struct PoseSnapshot {
    pub header: Header,
    pub positions: Vec<Scalar>,
}

/// A [`PoseSnapshot`] as a mathematical value.
pub struct PoseSnapshotView {
    pub header: HeaderView,
    pub positions: Seq<Scalar>,
}

impl View for PoseSnapshot {
    type V = PoseSnapshotView;

    open spec fn view(&self) -> PoseSnapshotView {
        PoseSnapshotView { header: self.header@, positions: self.positions@ }
    }
}

impl PoseSnapshotView {
    /// The snapshot before any pose was observed: a zero stamp, no frame, no
    /// joints.
    pub open spec fn empty() -> PoseSnapshotView {
        PoseSnapshotView {
            header: HeaderView { stamp: Stamp { sec: 0, nanosec: 0 }, frame_id: Seq::empty() },
            positions: Seq::empty(),
        }
    }

    /// This snapshot with its positions replaced as a whole; the header stays.
    pub open spec fn with_positions(self, positions: Seq<Scalar>) -> PoseSnapshotView {
        PoseSnapshotView { header: self.header, positions }
    }
}

impl PoseSnapshot {
    /// The snapshot before any pose was observed.
    pub fn empty() -> (snapshot: PoseSnapshot)
        ensures
            snapshot@ == PoseSnapshotView::empty(),
    {
        PoseSnapshot {
            header: Header { stamp: Stamp { sec: 0, nanosec: 0 }, frame_id: String::new() },
            positions: Vec::new(),
        }
    }

}

impl Clone for PoseSnapshot {
    /// An independent copy: equal as a value, sharing nothing.
    fn clone(&self) -> (snapshot: PoseSnapshot)
        ensures
            snapshot@ == self@,
    {
        PoseSnapshot { header: self.header.clone(), positions: self.positions.clone() }
    }
}

/// The latest known pose of the ghost.
///
/// The cache owns its snapshot: a reader gets a copy, never a reference into
/// the cache, and a writer replaces the positions as a whole. Whoever shares a
/// cache between tasks keeps it behind a lock; every method here then runs
/// under that lock from start to end, so no reader sees half an update.
#[derive(Debug)]
pub struct PoseCache {
    current: PoseSnapshot,
}

impl View for PoseCache {
    type V = PoseSnapshotView;

    closed spec fn view(&self) -> PoseSnapshotView {
        self.current@
    }
}

impl PoseCache {
    /// A cache that has seen no pose yet.
    pub fn new() -> (cache: PoseCache)
        ensures
            cache@ == PoseSnapshotView::empty(),
    {
        PoseCache { current: PoseSnapshot::empty() }
    }

    /// A cache that starts from a given snapshot.
    pub fn holding(snapshot: PoseSnapshot) -> (cache: PoseCache)
        ensures
            cache@ == snapshot@,
    {
        PoseCache { current: snapshot }
    }

    /// Replaces the stored positions by `new_positions`, all of them at once.
    /// The header is kept.
    pub fn update(&mut self, new_positions: Vec<Scalar>)
        ensures
            final(self)@ == old(self)@.with_positions(new_positions@),
    {
        self.current.positions = new_positions;
    }

    /// A copy of the current snapshot. Later updates of the cache do not show
    /// in it.
    pub fn read(&self) -> (snapshot: PoseSnapshot)
        ensures
            snapshot@ == self@,
    {
        self.current.clone()
    }

    /// Takes one item of the pose feed. A pose is stored and `true` is
    /// returned; a feed that yields nothing leaves the cache as it is and
    /// `false` is returned, for the driver to report.
    pub fn ingest(&mut self, item: Option<Vec<Scalar>>) -> (stored: bool)
        ensures
            stored == item.is_some(),
            final(self)@ == match item {
                Some(positions) => old(self)@.with_positions(positions@),
                None => old(self)@,
            },
    {
        match item {
            Some(positions) => {
                self.update(positions);
                true
            },
            None => false,
        }
    }
}

} // verus!
