use vstd::prelude::*;
use crate::resolution::{MeshError, SphereResolution, lemma_valid_sides};

verus! {

/// One vertex of the sphere, named by its place on the lattice: `stack`
/// counts rows from the north pole, `sector` counts columns from the seam.
#[derive(Clone, Copy, Debug, PartialEq, Eq, Structural)]
pub struct GridPoint {
    pub stack: usize,
    pub sector: usize,
}

impl SphereResolution {
    /// Rows run from 0 to `stacks`, columns from 0 to `sectors`, both ends
    /// included.
    pub open spec fn on_lattice(&self, p: GridPoint) -> bool {
        p.stack <= self.stacks && p.sector <= self.sectors
    }

    /// The place of a lattice point in the vertex buffer: rows follow one
    /// another, each `sectors + 1` long.
    pub open spec fn spec_vertex_index(&self, p: GridPoint) -> int {
        p.stack * (self.sectors + 1) + p.sector
    }

    /// The lattice point that stands at place `k` of the vertex buffer.
    pub open spec fn point_at(&self, k: int) -> GridPoint {
        GridPoint {
            stack: (k / (self.sectors + 1)) as usize,
            sector: (k % (self.sectors + 1)) as usize,
        }
    }

    /// The vertices in buffer order.
    pub open spec fn spec_lattice(&self) -> Seq<GridPoint> {
        Seq::new(self.spec_vertex_count() as nat, |k: int| self.point_at(k))
    }

    /// The index under which the triangles refer to a lattice point, or
    /// `None` for a point off the lattice or a resolution that has no mesh.
    pub fn vertex_index(&self, p: GridPoint) -> (r: Option<u32>)
        ensures
            r is Some <==> self.valid() && self.on_lattice(p),
            r matches Some(k) ==> k == self.spec_vertex_index(p) && k < self.spec_vertex_count()
                && self.point_at(k as int) == p,
    {
        if self.validate().is_err() {
            return None;
        }
        if p.stack > self.stacks || p.sector > self.sectors {
            return None;
        }
        proof {
            lemma_valid_sides(*self);
            self.lemma_index_in_range(p);
            self.lemma_point_at_index(p);
        }
        let k: usize = p.stack * (self.sectors + 1) + p.sector;
        Some(k as u32)
    }

    /// The lattice of a sphere, row after row from the north pole to the
    /// south pole, each row from the seam once around and back onto it.
    pub fn lattice(&self) -> (r: Result<Vec<GridPoint>, MeshError>)
        ensures
            r is Ok <==> self.valid(),
            r matches Ok(points) ==> points@ == self.spec_lattice() && points@.len()
                == self.spec_vertex_count(),
            r matches Err(e) ==> self.verdict() == Err::<(), MeshError>(e),
    {
        match self.validate() {
            Err(e) => {
                return Err(e);
            },
            Ok(()) => {},
        }
        proof {
            lemma_valid_sides(*self);
        }
        let mut points: Vec<GridPoint> = Vec::new();
        let mut i: usize = 0;
        while i <= self.stacks
            invariant
                self.sectors < u32::MAX,
                self.stacks < u32::MAX,
                i <= self.stacks + 1,
                points@.len() == i * (self.sectors + 1),
                forall|k: int| 0 <= k < points@.len() ==> points@[k] == self.point_at(k),
            decreases self.stacks + 1 - i,
        {
            let mut j: usize = 0;
            while j <= self.sectors
                invariant
                    self.sectors < u32::MAX,
                    i <= self.stacks,
                    j <= self.sectors + 1,
                    points@.len() == i * (self.sectors + 1) + j,
                    forall|k: int| 0 <= k < points@.len() ==> points@[k] == self.point_at(k),
                decreases self.sectors + 1 - j,
            {
                let p = GridPoint { stack: i, sector: j };
                proof {
                    self.lemma_point_at_index(p);
                }
                points.push(p);
                j += 1;
            }
            proof {
                assert((i + 1) * (self.sectors + 1) == i * (self.sectors + 1) + (self.sectors
                    + 1)) by (nonlinear_arith);
            }
            i += 1;
        }
        assert(points@ =~= self.spec_lattice());
        Ok(points)
    }

    /// A point on the lattice has an index below the vertex count.
    pub proof fn lemma_index_in_range(&self, p: GridPoint)
        requires
            self.on_lattice(p),
        ensures
            0 <= self.spec_vertex_index(p) < self.spec_vertex_count(),
            p.stack * (self.sectors + 1) <= self.spec_vertex_index(p),
    {
        let w = self.sectors + 1;
        assert(p.stack * w <= self.stacks * w) by (nonlinear_arith)
            requires
                0 <= p.stack <= self.stacks,
                w >= 0,
        ;
        assert((self.stacks + 1) * w == self.stacks * w + w) by (nonlinear_arith);
        assert(0 <= p.stack * w) by (nonlinear_arith)
            requires
                0 <= p.stack,
                w >= 0,
        ;
    }

    /// Numbering a lattice point and looking the number up again gives the
    /// point back.
    pub proof fn lemma_point_at_index(&self, p: GridPoint)
        requires
            self.on_lattice(p),
        ensures
            self.point_at(self.spec_vertex_index(p)) == p,
    {
        let w = self.sectors + 1;
        let k = self.spec_vertex_index(p);
        vstd::arithmetic::div_mod::lemma_fundamental_div_mod_converse(
            k,
            w,
            p.stack as int,
            p.sector as int,
        );
    }

    /// Looking up a place of the vertex buffer and numbering the point found
    /// there gives the place back, and the point is on the lattice.
    pub proof fn lemma_index_of_point_at(&self, k: int)
        requires
            0 <= k < self.spec_vertex_count(),
            self.spec_vertex_count() <= usize::MAX,
        ensures
            self.on_lattice(self.point_at(k)),
            self.spec_vertex_index(self.point_at(k)) == k,
    {
        let w = self.sectors + 1;
        vstd::arithmetic::div_mod::lemma_fundamental_div_mod(k, w);
        vstd::arithmetic::div_mod::lemma_mod_bound(k, w);
        vstd::arithmetic::div_mod::lemma_div_pos_is_pos(k, w);
        let q = k / w;
        let r = k % w;
        assert(q <= self.stacks) by (nonlinear_arith)
            requires
                k == w * q + r,
                0 <= r < w,
                k < (self.stacks + 1) * w,
                w > 0,
        ;
        assert(q <= k) by (nonlinear_arith)
            requires
                k == w * q + r,
                0 <= r,
                w >= 1,
                q >= 0,
        ;
        assert(w * q == q * w) by (nonlinear_arith);
    }
}

} // verus!
