use vstd::prelude::*;
use crate::resolution::SphereResolution;

verus! {

impl SphereResolution {
    /// `(a, b, c)` is a triangle that cell `(i, j)` contributes: its upper
    /// triangle, which the northernmost stack leaves out, or its lower
    /// triangle, which the southernmost stack leaves out.
    pub open spec fn cell_has(&self, i: int, j: int, a: int, b: int, c: int) -> bool {
        &&& 0 <= i < self.stacks
        &&& 0 <= j < self.sectors
        &&& {
            ||| i != 0 && a == self.at(i, j) && b == self.at(i + 1, j) && c == self.at(i, j + 1)
            ||| i != self.stacks - 1 && a == self.at(i, j + 1) && b == self.at(i + 1, j) && c
                == self.at(i + 1, j + 1)
        }
    }

    /// `(a, b, c)` is a triangle of some cell of the sphere.
    pub open spec fn is_triangle(&self, a: int, b: int, c: int) -> bool {
        exists|i: int, j: int| #[trigger] self.cell_has(i, j, a, b, c)
    }

    /// A sequence of indices is a list of triangles of the sphere: its
    /// length is a multiple of three, and each three entries that start at
    /// a multiple of three are a triangle of some cell.
    pub open spec fn triangulated(&self, s: Seq<u32>) -> bool {
        &&& s.len() % 3 == 0
        &&& forall|t: int|
            0 <= t < s.len() / 3 ==> self.is_triangle(
                #[trigger] s[3 * t] as int,
                s[3 * t + 1] as int,
                s[3 * t + 2] as int,
            )
    }

    /// Two triangle lists, one after the other, are a triangle list.
    pub proof fn lemma_triangulated_concat(&self, head: Seq<u32>, tail: Seq<u32>)
        requires
            self.triangulated(head),
            self.triangulated(tail),
        ensures
            self.triangulated(head + tail),
    {
        let s = head + tail;
        let h = head.len() as int / 3;
        assert forall|t: int| 0 <= t < s.len() / 3 implies self.is_triangle(
            #[trigger] s[3 * t] as int,
            s[3 * t + 1] as int,
            s[3 * t + 2] as int,
        ) by {
            if t < h {
                assert(s[3 * t] == head[3 * t]);
                assert(s[3 * t + 1] == head[3 * t + 1]);
                assert(s[3 * t + 2] == head[3 * t + 2]);
            } else {
                let u = t - h;
                assert(s[3 * t] == tail[3 * u]);
                assert(s[3 * t + 1] == tail[3 * u + 1]);
                assert(s[3 * t + 2] == tail[3 * u + 2]);
            }
        }
    }

    /// What one cell contributes is a triangle list.
    pub proof fn lemma_cell_triangulated(&self, i: int, j: int)
        requires
            0 <= i < self.stacks,
            0 <= j < self.sectors,
            self.spec_vertex_count() <= u32::MAX,
        ensures
            self.triangulated(self.cell_indices(i, j)),
    {
        self.lemma_cell_in_range(i, j);
        let s = self.cell_indices(i, j);
        let (a0, b0, c0) = (self.at(i, j), self.at(i + 1, j), self.at(i, j + 1));
        let (a1, b1, c1) = (self.at(i, j + 1), self.at(i + 1, j), self.at(i + 1, j + 1));
        assert forall|t: int| 0 <= t < s.len() / 3 implies self.is_triangle(
            #[trigger] s[3 * t] as int,
            s[3 * t + 1] as int,
            s[3 * t + 2] as int,
        ) by {
            if i != 0 && t == 0 {
                assert(self.cell_has(i, j, a0, b0, c0));
            } else {
                assert(i != self.stacks - 1);
                assert(self.cell_has(i, j, a1, b1, c1));
            }
        }
    }

    /// The first `j` cells of stack `i` contribute a triangle list.
    pub proof fn lemma_row_triangulated(&self, i: int, j: int)
        requires
            0 <= i < self.stacks,
            0 <= j <= self.sectors,
            self.spec_vertex_count() <= u32::MAX,
        ensures
            self.triangulated(self.row_prefix(i, j)),
        decreases j,
    {
        if j > 0 {
            self.lemma_row_triangulated(i, j - 1);
            self.lemma_cell_triangulated(i, j - 1);
            self.lemma_triangulated_concat(self.row_prefix(i, j - 1), self.cell_indices(i, j - 1));
        }
    }

    /// The first `i` stacks contribute a triangle list.
    pub proof fn lemma_stacks_triangulated(&self, i: int)
        requires
            0 <= i <= self.stacks,
            self.spec_vertex_count() <= u32::MAX,
        ensures
            self.triangulated(self.stacks_prefix(i)),
        decreases i,
    {
        if i > 0 {
            self.lemma_stacks_triangulated(i - 1);
            self.lemma_row_triangulated(i - 1, self.sectors as int);
            self.lemma_triangulated_concat(
                self.stacks_prefix(i - 1),
                self.row_prefix(i - 1, self.sectors as int),
            );
        }
    }

    /// The index buffer is a list of triangles, each of them a triangle of
    /// some cell of the sphere.
    pub proof fn lemma_indices_triangulated(&self)
        requires
            self.spec_vertex_count() <= u32::MAX,
        ensures
            self.triangulated(self.spec_indices()),
    {
        self.lemma_stacks_triangulated(self.stacks as int);
    }

    /// Where the contribution of cell `(i, j)` starts in the index buffer.
    pub open spec fn cell_offset(&self, i: int, j: int) -> int {
        self.stacks_prefix_len(i) + j * self.cell_len(i)
    }

    /// The entries of the first `j` cells of a stack open the entries of
    /// its first `k` cells, for `j` up to `k`.
    pub proof fn lemma_row_prefix_extends(&self, i: int, j: int, k: int)
        requires
            0 <= j <= k,
        ensures
            self.row_prefix(i, j).len() <= self.row_prefix(i, k).len(),
            forall|p: int|
                0 <= p < self.row_prefix(i, j).len() ==> self.row_prefix(i, k)[p]
                    == #[trigger] self.row_prefix(i, j)[p],
        decreases k,
    {
        if j < k {
            self.lemma_row_prefix_extends(i, j, k - 1);
        }
    }

    /// The entries of the first `i` stacks open the entries of the first
    /// `k` stacks, for `i` up to `k`.
    pub proof fn lemma_stacks_prefix_extends(&self, i: int, k: int)
        requires
            0 <= i <= k,
        ensures
            self.stacks_prefix(i).len() <= self.stacks_prefix(k).len(),
            forall|p: int|
                0 <= p < self.stacks_prefix(i).len() ==> self.stacks_prefix(k)[p]
                    == #[trigger] self.stacks_prefix(i)[p],
        decreases k,
    {
        if i < k {
            self.lemma_stacks_prefix_extends(i, k - 1);
        }
    }

    /// The triangles of each cell stand in the index buffer at a place that
    /// the cell's row and column give: the stacks before it come first,
    /// then the cells before it in its own stack.
    pub proof fn lemma_cell_at(&self, i: int, j: int, q: int)
        requires
            0 <= i < self.stacks,
            0 <= j < self.sectors,
            0 <= q < self.cell_len(i),
        ensures
            0 <= self.cell_offset(i, j),
            self.cell_offset(i, j) + self.cell_len(i) <= self.spec_indices().len(),
            self.spec_indices()[self.cell_offset(i, j) + q] == self.cell_indices(i, j)[q],
    {
        let n = self.sectors as int;
        let m = self.stacks as int;
        let c = self.cell_len(i);
        let row = self.row_prefix(i, n);
        let cells = self.row_prefix(i, j + 1);
        self.lemma_stacks_prefix_len(i);
        self.lemma_row_prefix_len(i, j);
        self.lemma_row_prefix_len(i, j + 1);
        self.lemma_row_prefix_len(i, n);
        assert((j + 1) * c == j * c + c) by (nonlinear_arith);
        assert(0 <= j * c) by (nonlinear_arith)
            requires
                0 <= j,
                0 <= c,
        ;
        // within the cells of the stack up to and including this one
        assert(self.cell_indices(i, j).len() == c);
        assert(cells[j * c + q] == self.cell_indices(i, j)[q]);
        // within the whole stack
        self.lemma_row_prefix_extends(i, j + 1, n);
        assert(row[j * c + q] == cells[j * c + q]);
        // within the stacks up to and including this one
        let upto = self.stacks_prefix(i + 1);
        assert(upto[self.stacks_prefix(i).len() + (j * c + q)] == row[j * c + q]);
        // within the whole buffer
        self.lemma_stacks_prefix_extends(i + 1, m);
        assert(self.spec_indices()[self.cell_offset(i, j) + q] == upto[self.cell_offset(i, j)
            + q]);
    }

    /// The shape that every triangle has. Its corners are three different
    /// vertices of the lattice; the second lies one row south of the first,
    /// in its column or in the column before, and the third lies one column
    /// east of the first or of the second.
    pub open spec fn well_wound(&self, a: int, b: int, c: int) -> bool {
        &&& 0 <= a < c < self.spec_vertex_count()
        &&& 0 <= b < self.spec_vertex_count()
        &&& a != b
        &&& b != c
        &&& (b == a + self.row_len() && c == a + 1) || (b == a + self.row_len() - 1 && c == b
            + 1)
    }

    /// Every triangle of the sphere is wound the same way.
    pub proof fn lemma_triangle_winding(&self, a: int, b: int, c: int)
        requires
            self.is_triangle(a, b, c),
        ensures
            self.well_wound(a, b, c),
    {
        let (i, j) = choose|i: int, j: int| #[trigger] self.cell_has(i, j, a, b, c);
        self.lemma_cell_in_range(i, j);
        let w = self.sectors + 1;
        assert((i + 1) * w == i * w + w) by (nonlinear_arith);
    }
}

} // verus!
