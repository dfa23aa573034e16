use vstd::prelude::*;

use crate::matrix::{has_shape, TemperatureMatrix};

verus! {

/// The dimensions that the sensor gives every frame.
#[derive(Clone, Copy, Debug, PartialEq, Eq)]
pub struct FrameShape {
    pub rows: usize,
    pub cols: usize,
}

/// A value the store may hold: the initial empty matrix, or a complete frame
/// of the sensor's shape.
pub open spec fn admissible(m: Seq<Seq<u32>>, shape: FrameShape) -> bool {
    m.len() == 0 || has_shape(m, shape.rows as nat, shape.cols as nat)
}

/// The latest sampled frame.
///
/// `set` replaces the whole matrix and `get` copies the whole matrix out, so
/// where the store is shared behind a lock, each read sees the matrix of
/// exactly one write (or the initial empty one).
pub struct SnapshotStore {
    shape: FrameShape,
    current: TemperatureMatrix,
}

impl View for SnapshotStore {
    type V = Seq<Seq<u32>>;

    /// The matrix currently held.
    closed spec fn view(&self) -> Seq<Seq<u32>> {
        self.current@
    }
}

impl SnapshotStore {
    #[verifier::type_invariant]
    spec fn holds_admissible(&self) -> bool {
        admissible(self.current@, self.shape)
    }

    /// The shape of every frame this store accepts.
    pub closed spec fn shape(&self) -> FrameShape {
        self.shape
    }

    /// Whether `m` is a value this store can hold.
    pub open spec fn admits(&self, m: Seq<Seq<u32>>) -> bool {
        admissible(m, self.shape())
    }

    /// Whether `m` is a frame that may be written to this store.
    pub open spec fn accepts(&self, m: Seq<Seq<u32>>) -> bool {
        has_shape(m, self.shape().rows as nat, self.shape().cols as nat)
    }

    /// A store for frames of `rows` by `cols` readings, holding the empty matrix.
    pub fn new(rows: usize, cols: usize) -> (s: SnapshotStore)
        ensures
            s.shape() == (FrameShape { rows, cols }),
            s@ == Seq::<Seq<u32>>::empty(),
    {
        SnapshotStore { shape: FrameShape { rows, cols }, current: TemperatureMatrix::empty() }
    }

    pub fn frame_shape(&self) -> (r: FrameShape)
        ensures
            r == self.shape(),
    {
        self.shape
    }

    /// Replaces the stored matrix with `m`.
    pub fn set(&mut self, m: TemperatureMatrix)
        requires
            old(self).accepts(m@),
        ensures
            final(self)@ == m@,
            final(self).shape() == old(self).shape(),
    {
        self.current = m;
    }

    /// An independent copy of the stored matrix.
    pub fn get(&self) -> (r: TemperatureMatrix)
        ensures
            r@ == self@,
            self.admits(r@),
    {
        proof {
            use_type_invariant(self);
        }
        self.current.copy()
    }
}


/// Each store of `states` comes from the one before by writing the matching
/// frame of `writes`, as `set` does.
pub open spec fn written_in_turn(states: Seq<SnapshotStore>, writes: Seq<TemperatureMatrix>) -> bool {
    &&& states.len() == writes.len() + 1
    &&& forall|i: int|
        0 <= i < writes.len() ==> {
            &&& states[i].accepts(writes[i]@)
            &&& #[trigger] states[i + 1]@ == writes[i]@
            &&& states[i + 1].shape() == states[i].shape()
        }
}

/// Writing never changes the shape a store accepts.
pub proof fn lemma_writes_keep_shape(states: Seq<SnapshotStore>, writes: Seq<TemperatureMatrix>, k: int)
    requires
        written_in_turn(states, writes),
        0 <= k <= writes.len(),
    ensures
        states[k].shape() == states[0].shape(),
    decreases k,
{
    if k > 0 {
        lemma_writes_keep_shape(states, writes, k - 1);
        assert(states[(k - 1) + 1]@ == writes[k - 1]@);
    }
}

/// A read after a run of writes returns the matrix of exactly one write, the
/// latest, or the initial matrix where there was none: never an older value
/// and never rows of two frames. After a write the read has the store's shape.
pub proof fn lemma_read_after_writes(
    states: Seq<SnapshotStore>,
    writes: Seq<TemperatureMatrix>,
    read: Seq<Seq<u32>>,
)
    requires
        written_in_turn(states, writes),
        read == states.last()@,
    ensures
        writes.len() == 0 ==> read == states[0]@,
        writes.len() > 0 ==> read == writes.last()@ && states[0].accepts(read),
        read == states[0]@ || exists|i: int| 0 <= i < writes.len() && read == writes[i]@,
{
    if writes.len() > 0 {
        let n = writes.len() - 1;
        assert(states[n + 1]@ == writes[n]@);
        lemma_writes_keep_shape(states, writes, n + 1);
    }
}

} // verus!
