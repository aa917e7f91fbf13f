use vstd::prelude::*;

verus! {

/// Why a sphere cannot be tessellated at a requested resolution.
#[derive(Clone, Copy, Debug, PartialEq, Eq, Structural)]
pub enum MeshError {
    /// Fewer than three sectors, or no stack at all.
    InvalidResolution,
    /// More vertices than a 32-bit index can address, or more indices than
    /// a buffer can hold.
    TooLarge,
}

/// How finely a sphere is cut: `sectors` slices around the axis and `stacks`
/// bands from pole to pole.
#[derive(Clone, Copy, Debug, PartialEq, Eq, Structural)]
pub struct SphereResolution {
    pub sectors: usize,
    pub stacks: usize,
}

impl SphereResolution {
    /// At least three sectors and at least one stack.
    pub open spec fn usable(&self) -> bool {
        self.sectors >= 3 && self.stacks >= 1
    }

    /// Vertices in one stack row: the seam vertex occurs twice.
    pub open spec fn row_len(&self) -> int {
        self.sectors + 1
    }

    /// Vertices of the whole lattice, both pole rows included.
    pub open spec fn spec_vertex_count(&self) -> int {
        (self.stacks + 1) * (self.sectors + 1)
    }

    /// Entries of the index buffer: two triangles for each cell of the inner
    /// stacks, one for each cell of a stack that touches a pole.
    pub open spec fn spec_index_count(&self) -> int {
        6 * self.sectors * (self.stacks - 1)
    }

    /// Every vertex has a 32-bit index and the index buffer has a length.
    pub open spec fn addressable(&self) -> bool {
        self.spec_vertex_count() <= u32::MAX && self.spec_index_count() <= usize::MAX
    }

    /// The resolutions for which a mesh is produced.
    pub open spec fn valid(&self) -> bool {
        self.usable() && self.addressable()
    }

    /// The verdict on a resolution: too coarse is reported before too fine.
    pub open spec fn verdict(&self) -> Result<(), MeshError> {
        if !self.usable() {
            Err(MeshError::InvalidResolution)
        } else if !self.addressable() {
            Err(MeshError::TooLarge)
        } else {
            Ok(())
        }
    }

    /// Holds the resolution against the lower bounds of a closed sphere and
    /// against the limits of 32-bit indexing.
    pub fn validate(&self) -> (r: Result<(), MeshError>)
        ensures
            r == self.verdict(),
            r is Ok <==> self.valid(),
    {
        if self.sectors < 3 || self.stacks < 1 {
            return Err(MeshError::InvalidResolution);
        }
        let s: u64 = self.sectors as u64;
        let t: u64 = self.stacks as u64;
        let limit: u64 = u32::MAX as u64;
        if s >= limit || t >= limit {
            proof {
                lemma_count_grows(self.stacks as int, self.sectors as int);
            }
            return Err(MeshError::TooLarge);
        }
        assert((t + 1) * (s + 1) <= 0xffff_ffff * 0xffff_ffff) by (nonlinear_arith)
            requires
                0 <= t < 0xffff_ffff,
                0 <= s < 0xffff_ffff,
        ;
        let vertices: u64 = (t + 1) * (s + 1);
        if vertices > limit {
            return Err(MeshError::TooLarge);
        }
        assert(s * (t - 1) <= (t + 1) * (s + 1)) by (nonlinear_arith)
            requires
                1 <= t,
                0 <= s,
        ;
        let cells: u64 = s * (t - 1);
        let indices: u64 = 6 * cells;
        assert(indices == 6 * self.sectors * (self.stacks - 1)) by (nonlinear_arith)
            requires
                indices == 6 * (s * (t - 1)),
                s == self.sectors,
                t == self.stacks,
        ;
        if indices > usize::MAX as u64 {
            return Err(MeshError::TooLarge);
        }
        Ok(())
    }

    /// The number of vertices of the lattice.
    pub fn vertex_count(&self) -> (r: Result<usize, MeshError>)
        ensures
            r is Ok <==> self.valid(),
            r matches Ok(n) ==> n == self.spec_vertex_count(),
            r matches Err(e) ==> self.verdict() == Err::<(), MeshError>(e),
    {
        match self.validate() {
            Err(e) => Err(e),
            Ok(()) => {
                proof {
                    lemma_count_grows(self.stacks as int, self.sectors as int);
                }
                Ok((self.stacks + 1) * (self.sectors + 1))
            },
        }
    }

    /// The number of entries of the index buffer.
    pub fn index_count(&self) -> (r: Result<usize, MeshError>)
        ensures
            r is Ok <==> self.valid(),
            r matches Ok(n) ==> n == self.spec_index_count(),
            r matches Err(e) ==> self.verdict() == Err::<(), MeshError>(e),
    {
        match self.validate() {
            Err(e) => Err(e),
            Ok(()) => {
                assert(0 <= self.sectors * (self.stacks - 1) <= 6 * self.sectors * (self.stacks
                    - 1)) by (nonlinear_arith)
                    requires
                        self.stacks >= 1,
                ;
                assert(6 * (self.sectors * (self.stacks - 1)) == 6 * self.sectors * (self.stacks
                    - 1)) by (nonlinear_arith);
                Ok(6 * (self.sectors * (self.stacks - 1)))
            },
        }
    }
}

/// Each side of the lattice of a valid resolution is shorter than the range
/// of a 32-bit index.
pub proof fn lemma_valid_sides(res: SphereResolution)
    requires
        res.valid(),
    ensures
        res.sectors < u32::MAX,
        res.stacks < u32::MAX,
{
    lemma_count_grows(res.stacks as int, res.sectors as int);
}

/// The vertex count is at least twice the longer side of the lattice.
pub proof fn lemma_count_grows(stacks: int, sectors: int)
    requires
        stacks >= 1,
        sectors >= 1,
    ensures
        (stacks + 1) * (sectors + 1) >= 2 * (sectors + 1),
        (stacks + 1) * (sectors + 1) >= 2 * (stacks + 1),
        (stacks + 1) * (sectors + 1) > stacks,
        (stacks + 1) * (sectors + 1) > sectors,
{
    assert((stacks + 1) * (sectors + 1) >= 2 * (sectors + 1)) by (nonlinear_arith)
        requires
            stacks >= 1,
            sectors >= 1,
    ;
    assert((stacks + 1) * (sectors + 1) >= 2 * (stacks + 1)) by (nonlinear_arith)
        requires
            stacks >= 1,
            sectors >= 1,
    ;
}

} // verus!
