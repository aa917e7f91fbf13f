use vstd::prelude::*;
use crate::resolution::{MeshError, SphereResolution, lemma_valid_sides};

verus! {

impl SphereResolution {
    /// The index of the vertex in row `i`, column `j`.
    pub open spec fn at(&self, i: int, j: int) -> int {
        i * (self.sectors + 1) + j
    }

    /// The triangle of cell `(i, j)` that has two corners on the cell's
    /// northern edge.
    pub open spec fn upper_triangle(&self, i: int, j: int) -> Seq<u32> {
        seq![self.at(i, j) as u32, self.at(i + 1, j) as u32, self.at(i, j + 1) as u32]
    }

    /// The triangle of cell `(i, j)` that has two corners on the cell's
    /// southern edge.
    pub open spec fn lower_triangle(&self, i: int, j: int) -> Seq<u32> {
        seq![self.at(i, j + 1) as u32, self.at(i + 1, j) as u32, self.at(i + 1, j + 1) as u32]
    }

    /// What one cell contributes: its upper triangle unless the cell lies in
    /// the northernmost stack, where that triangle has no area, then its
    /// lower triangle unless the cell lies in the southernmost stack.
    pub open spec fn cell_indices(&self, i: int, j: int) -> Seq<u32> {
        let upper = if i != 0 {
            self.upper_triangle(i, j)
        } else {
            Seq::<u32>::empty()
        };
        let lower = if i != self.stacks - 1 {
            self.lower_triangle(i, j)
        } else {
            Seq::<u32>::empty()
        };
        upper + lower
    }

    /// The number of entries that each cell of stack `i` contributes.
    pub open spec fn cell_len(&self, i: int) -> int {
        (if i != 0 {
            3int
        } else {
            0int
        }) + (if i != self.stacks - 1 {
            3int
        } else {
            0int
        })
    }

    /// The entries of the first `j` cells of stack `i`.
    pub open spec fn row_prefix(&self, i: int, j: int) -> Seq<u32>
        decreases j,
    {
        if j <= 0 {
            Seq::<u32>::empty()
        } else {
            self.row_prefix(i, j - 1) + self.cell_indices(i, j - 1)
        }
    }

    /// The entries of the first `i` stacks.
    pub open spec fn stacks_prefix(&self, i: int) -> Seq<u32>
        decreases i,
    {
        if i <= 0 {
            Seq::<u32>::empty()
        } else {
            self.stacks_prefix(i - 1) + self.row_prefix(i - 1, self.sectors as int)
        }
    }

    /// The index buffer: stack after stack from the north, cell after cell
    /// from the seam, three entries for each triangle.
    pub open spec fn spec_indices(&self) -> Seq<u32> {
        self.stacks_prefix(self.stacks as int)
    }

    /// The number of entries of the first `i` stacks.
    pub open spec fn stacks_prefix_len(&self, i: int) -> int {
        if i <= 0 {
            0
        } else if i < self.stacks {
            3 * self.sectors + 6 * self.sectors * (i - 1)
        } else {
            6 * self.sectors * (self.stacks - 1)
        }
    }

    /// The triangle list of a sphere over its lattice.
    pub fn indices(&self) -> (r: Result<Vec<u32>, MeshError>)
        ensures
            r is Ok <==> self.valid(),
            r matches Ok(buffer) ==> {
                &&& buffer@ == self.spec_indices()
                &&& buffer@.len() == self.spec_index_count()
                &&& forall|p: int|
                    0 <= p < buffer@.len() ==> (#[trigger] buffer@[p]) < self.spec_vertex_count()
                &&& self.triangulated(buffer@)
            },
            r matches Err(e) ==> self.verdict() == Err::<(), MeshError>(e),
    {
        match self.validate() {
            Err(e) => {
                return Err(e);
            },
            Ok(()) => {},
        }
        proof {
            lemma_valid_sides(*self);
        }
        let mut buffer: Vec<u32> = Vec::new();
        let width: usize = self.sectors + 1;
        let mut i: usize = 0;
        while i < self.stacks
            invariant
                self.valid(),
                self.sectors < u32::MAX,
                width == self.sectors + 1,
                i <= self.stacks,
                buffer@ == self.stacks_prefix(i as int),
            decreases self.stacks - i,
        {
            proof {
                self.lemma_cell_in_range(i as int, 0);
                assert((i + 1) * (self.sectors + 1) == i * (self.sectors + 1) + (self.sectors
                    + 1)) by (nonlinear_arith);
            }
            let k1: usize = i * width;
            let k2: usize = k1 + width;
            let mut j: usize = 0;
            while j < self.sectors
                invariant
                    self.valid(),
                    self.sectors < u32::MAX,
                    width == self.sectors + 1,
                    i < self.stacks,
                    j <= self.sectors,
                    k1 == i * width,
                    k2 == k1 + width,
                    buffer@ == self.stacks_prefix(i as int) + self.row_prefix(i as int, j as int),
                decreases self.sectors - j,
            {
                proof {
                    self.lemma_cell_in_range(i as int, j as int);
                    assert((i + 1) * (self.sectors + 1) == i * (self.sectors + 1) + (self.sectors
                        + 1)) by (nonlinear_arith);
                }
                let ghost before = buffer@;
                if i != 0 {
                    buffer.push((k1 + j) as u32);
                    buffer.push((k2 + j) as u32);
                    buffer.push((k1 + j) as u32 + 1);
                }
                if i != self.stacks - 1 {
                    buffer.push((k1 + j) as u32 + 1);
                    buffer.push((k2 + j) as u32);
                    buffer.push((k2 + j) as u32 + 1);
                }
                proof {
                    assert(buffer@ =~= before + self.cell_indices(i as int, j as int));
                    assert(before + self.cell_indices(i as int, j as int) =~= self.stacks_prefix(
                        i as int,
                    ) + self.row_prefix(i as int, j as int + 1));
                }
                j += 1;
            }
            i += 1;
        }
        proof {
            self.lemma_indices_len();
            self.lemma_indices_in_range();
            self.lemma_indices_triangulated();
        }
        Ok(buffer)
    }

    /// The four corners of a cell have indices below the vertex count, the
    /// south-eastern corner the largest of them.
    pub proof fn lemma_cell_in_range(&self, i: int, j: int)
        requires
            0 <= i < self.stacks,
            0 <= j < self.sectors,
        ensures
            0 <= self.at(i, j) < self.at(i, j + 1) < self.at(i + 1, j) < self.at(i + 1, j + 1)
                < self.spec_vertex_count(),
            0 <= i * (self.sectors + 1) <= self.at(i, j),
    {
        let w = self.sectors + 1;
        assert((i + 1) * w == i * w + w) by (nonlinear_arith);
        assert(0 <= i * w) by (nonlinear_arith)
            requires
                0 <= i,
                0 <= w,
        ;
        assert((i + 1) * w <= self.stacks * w) by (nonlinear_arith)
            requires
                i + 1 <= self.stacks,
                0 <= w,
        ;
        assert((self.stacks + 1) * w == self.stacks * w + w) by (nonlinear_arith);
    }

    /// The first `j` cells of stack `i` hold `j` times what one cell holds.
    pub proof fn lemma_row_prefix_len(&self, i: int, j: int)
        requires
            0 <= j,
        ensures
            self.row_prefix(i, j).len() == j * self.cell_len(i),
        decreases j,
    {
        let c = self.cell_len(i);
        if j > 0 {
            self.lemma_row_prefix_len(i, j - 1);
            assert(self.cell_indices(i, j - 1).len() == c);
            assert(j * c == (j - 1) * c + c) by (nonlinear_arith);
        } else {
            assert(j * c == 0) by (nonlinear_arith)
                requires
                    j == 0,
            ;
        }
    }

    /// The number of entries of the first `i` stacks, in closed form.
    pub proof fn lemma_stacks_prefix_len(&self, i: int)
        requires
            0 <= i <= self.stacks,
        ensures
            self.stacks_prefix(i).len() == self.stacks_prefix_len(i),
        decreases i,
    {
        if i > 0 {
            let n = self.sectors as int;
            let m = self.stacks as int;
            self.lemma_stacks_prefix_len(i - 1);
            self.lemma_row_prefix_len(i - 1, n);
            let c = self.cell_len(i - 1);
            assert(self.stacks_prefix(i).len() == self.stacks_prefix_len(i - 1) + n * c);
            if m == 1 {
                assert(c == 0);
                assert(n * 0 == 0);
                assert(6 * n * (m - 1) == 0) by (nonlinear_arith)
                    requires
                        m == 1,
                ;
            } else if i == 1 {
                assert(c == 3);
                assert(n * 3 == 3 * n);
                assert(6 * n * (i - 1) == 0) by (nonlinear_arith)
                    requires
                        i == 1,
                ;
                if i == m {
                } else {
                }
            } else if i < m {
                assert(c == 6);
                assert(3 * n + 6 * n * (i - 2) + n * 6 == 3 * n + 6 * n * (i - 1))
                    by (nonlinear_arith);
            } else {
                assert(c == 3);
                assert(3 * n + 6 * n * (m - 2) + n * 3 == 6 * n * (m - 1)) by (nonlinear_arith);
            }
        }
    }

    /// The index buffer has six entries for each cell of the inner stacks
    /// and three for each cell of the two stacks at the poles.
    pub proof fn lemma_indices_len(&self)
        requires
            self.stacks >= 1,
        ensures
            self.spec_indices().len() == self.spec_index_count(),
    {
        self.lemma_stacks_prefix_len(self.stacks as int);
    }

    /// Every entry of a cell's contribution is the index of a vertex.
    pub proof fn lemma_cell_indices_in_range(&self, i: int, j: int)
        requires
            0 <= i < self.stacks,
            0 <= j < self.sectors,
            self.spec_vertex_count() <= u32::MAX,
        ensures
            forall|p: int|
                0 <= p < self.cell_indices(i, j).len() ==> (#[trigger] self.cell_indices(i, j)[p])
                    < self.spec_vertex_count(),
    {
        self.lemma_cell_in_range(i, j);
    }

    /// Every entry of the first `j` cells of stack `i` is the index of a
    /// vertex.
    pub proof fn lemma_row_prefix_in_range(&self, i: int, j: int)
        requires
            0 <= i < self.stacks,
            0 <= j <= self.sectors,
            self.spec_vertex_count() <= u32::MAX,
        ensures
            forall|p: int|
                0 <= p < self.row_prefix(i, j).len() ==> (#[trigger] self.row_prefix(i, j)[p])
                    < self.spec_vertex_count(),
        decreases j,
    {
        if j > 0 {
            self.lemma_row_prefix_in_range(i, j - 1);
            self.lemma_cell_indices_in_range(i, j - 1);
            let head = self.row_prefix(i, j - 1);
            let tail = self.cell_indices(i, j - 1);
            assert forall|p: int| 0 <= p < self.row_prefix(i, j).len() implies (
            #[trigger] self.row_prefix(i, j)[p]) < self.spec_vertex_count() by {
                if p < head.len() {
                    assert(self.row_prefix(i, j)[p] == head[p]);
                } else {
                    assert(self.row_prefix(i, j)[p] == tail[p - head.len()]);
                }
            }
        }
    }

    /// Every entry of the first `i` stacks is the index of a vertex.
    pub proof fn lemma_stacks_prefix_in_range(&self, i: int)
        requires
            0 <= i <= self.stacks,
            self.spec_vertex_count() <= u32::MAX,
        ensures
            forall|p: int|
                0 <= p < self.stacks_prefix(i).len() ==> (#[trigger] self.stacks_prefix(i)[p])
                    < self.spec_vertex_count(),
        decreases i,
    {
        if i > 0 {
            self.lemma_stacks_prefix_in_range(i - 1);
            self.lemma_row_prefix_in_range(i - 1, self.sectors as int);
            let head = self.stacks_prefix(i - 1);
            let tail = self.row_prefix(i - 1, self.sectors as int);
            assert forall|p: int| 0 <= p < self.stacks_prefix(i).len() implies (
            #[trigger] self.stacks_prefix(i)[p]) < self.spec_vertex_count() by {
                if p < head.len() {
                    assert(self.stacks_prefix(i)[p] == head[p]);
                } else {
                    assert(self.stacks_prefix(i)[p] == tail[p - head.len()]);
                }
            }
        }
    }

    /// No entry of the index buffer refers past the end of the lattice.
    pub proof fn lemma_indices_in_range(&self)
        requires
            self.spec_vertex_count() <= u32::MAX,
        ensures
            forall|p: int|
                0 <= p < self.spec_indices().len() ==> (#[trigger] self.spec_indices()[p])
                    < self.spec_vertex_count(),
    {
        self.lemma_stacks_prefix_in_range(self.stacks as int);
    }
}

} // verus!
