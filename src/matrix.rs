use vstd::prelude::*;

verus! {

/// A frame of thermal readings, row by row.
///
/// Each reading is the bit pattern of an IEEE-754 single-precision value in
/// degrees Celsius, so that a frame can be held, copied and compared exactly.
pub struct TemperatureMatrix {
    pub rows: Vec<Vec<u32>>,
}

/// Every row of `m` holds `cols` readings and there are `rows` of them.
pub open spec fn has_shape(m: Seq<Seq<u32>>, rows: nat, cols: nat) -> bool {
    &&& m.len() == rows
    &&& forall|i: int| 0 <= i < m.len() ==> #[trigger] m[i].len() == cols
}

impl View for TemperatureMatrix {
    type V = Seq<Seq<u32>>;

    open spec fn view(&self) -> Seq<Seq<u32>> {
        self.rows@.map_values(|r: Vec<u32>| r@)
    }
}

impl TemperatureMatrix {
    /// The matrix with no rows, held before the first frame is sampled.
    pub fn empty() -> (r: TemperatureMatrix)
        ensures
            r@ == Seq::<Seq<u32>>::empty(),
    {
        let r = TemperatureMatrix { rows: Vec::new() };
        assert(r@ =~= Seq::<Seq<u32>>::empty());
        r
    }

    pub fn from_rows(rows: Vec<Vec<u32>>) -> (r: TemperatureMatrix)
        ensures
            r.rows@ == rows@,
            r@ == rows@.map_values(|v: Vec<u32>| v@),
    {
        TemperatureMatrix { rows }
    }

    pub fn row_count(&self) -> (n: usize)
        ensures
            n == self@.len(),
    {
        self.rows.len()
    }

    /// Whether the matrix has exactly `rows` rows of `cols` readings each.
    pub fn is_shaped(&self, rows: usize, cols: usize) -> (b: bool)
        ensures
            b == has_shape(self@, rows as nat, cols as nat),
    {
        if self.rows.len() != rows {
            return false;
        }
        let mut i: usize = 0;
        while i < self.rows.len()
            invariant
                i <= self.rows@.len(),
                self.rows@.len() == rows,
                forall|j: int| 0 <= j < i ==> #[trigger] self@[j].len() == cols,
            decreases self.rows@.len() - i,
        {
            if self.rows[i].len() != cols {
                assert(self@[i as int].len() != cols);
                return false;
            }
            i = i + 1;
        }
        true
    }

    /// An independent copy, holding the same readings.
    pub fn copy(&self) -> (r: TemperatureMatrix)
        ensures
            r@ == self@,
    {
        let mut out: Vec<Vec<u32>> = Vec::new();
        let mut i: usize = 0;
        while i < self.rows.len()
            invariant
                i <= self.rows@.len(),
                out@.len() == i,
                forall|j: int| 0 <= j < i ==> #[trigger] out@[j]@ == self.rows@[j]@,
            decreases self.rows@.len() - i,
        {
            let src = &self.rows[i];
            let mut row: Vec<u32> = Vec::new();
            let mut k: usize = 0;
            while k < src.len()
                invariant
                    k <= src@.len(),
                    row@ == src@.subrange(0, k as int),
                decreases src@.len() - k,
            {
                row.push(src[k]);
                k = k + 1;
                assert(row@ =~= src@.subrange(0, k as int));
            }
            assert(row@ =~= src@);
            out.push(row);
            i = i + 1;
        }
        let r = TemperatureMatrix { rows: out };
        assert(r@ =~= self@);
        r
    }
}

} // verus!
