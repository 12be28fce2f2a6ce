use vstd::prelude::*;

verus! {

/// How many rays a render cast.
#[derive(Copy, Clone)]
pub struct CastStats {
    pub ray_count: u64,
}

impl CastStats {
    /// Statistics of a render that cast no ray yet.
    pub fn zero() -> (r: Self)
        ensures
            r.ray_count == 0,
    {
        CastStats { ray_count: 0 }
    }

    /// Adds the rays counted in `rhs` to these statistics.
    pub fn add_assign(&mut self, rhs: Self)
        requires
            old(self).ray_count + rhs.ray_count <= u64::MAX,
        ensures
            final(self).ray_count == old(self).ray_count + rhs.ray_count,
    {
        self.ray_count = self.ray_count + rhs.ray_count;
    }
}

} // verus!
