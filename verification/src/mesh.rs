use vstd::prelude::*;
use crate::lattice::GridPoint;
use crate::resolution::{MeshError, SphereResolution};

verus! {

/// The lattice of a sphere together with the triangles over it: the vertex
/// buffer and the index buffer of the mesh, before the vertices are given
/// coordinates. Every index addresses a vertex of the lattice.
pub fn tessellate(res: &SphereResolution) -> (r: Result<(Vec<GridPoint>, Vec<u32>), MeshError>)
    ensures
        r is Ok <==> res.valid(),
        r matches Ok((points, indices)) ==> {
            &&& points@ == res.spec_lattice()
            &&& points@.len() == res.spec_vertex_count()
            &&& indices@ == res.spec_indices()
            &&& indices@.len() == res.spec_index_count()
            &&& res.triangulated(indices@)
            &&& forall|p: int| 0 <= p < indices@.len() ==> (#[trigger] indices@[p]) < points@.len()
        },
        r matches Err(e) ==> res.verdict() == Err::<(), MeshError>(e),
{
    let points = match res.lattice() {
        Ok(points) => points,
        Err(e) => {
            return Err(e);
        },
    };
    let indices = match res.indices() {
        Ok(indices) => indices,
        Err(e) => {
            return Err(e);
        },
    };
    Ok((points, indices))
}

} // verus!
