use vstd::prelude::*;

verus! {

/// Immutable cost parameters of the memory-hard hash, fixed once at startup
/// and shared read-only by every call. They shape new hashes only: an existing
/// encoded hash always verifies with the parameters embedded in it, so costs
/// can be raised later without breaking stored hashes.
#[derive(Clone, Copy, Debug, PartialEq, Eq, Structural)]
pub struct HashParameters {
    /// Memory cost in 1 KiB blocks.
    pub m_cost: u32,
    /// Time cost: number of iterations.
    pub t_cost: u32,
    /// Degree of parallelism (lanes).
    pub p_cost: u32,
    /// Length of the raw digest in bytes.
    pub output_len: usize,
}

impl HashParameters {
    /// The ranges the Argon2 primitive accepts: at least 8 KiB of memory and
    /// 8 blocks per lane, at least one iteration, between 1 and 2^24 - 1
    /// lanes, and a digest of 4 bytes up to 2^32 - 1.
    pub open spec fn wf(self) -> bool {
        &&& self.m_cost >= 8
        &&& self.m_cost >= 8 * self.p_cost
        &&& self.t_cost >= 1
        &&& 1 <= self.p_cost <= 0xFFFFFF
        &&& 4 <= self.output_len <= 0xFFFFFFFF
    }

    /// The OWASP-recommended minimum costs for this algorithm: 19 MiB of
    /// memory, 2 iterations, 1 lane, and a 32-byte digest.
    pub fn recommended() -> (r: Self)
        ensures
            r.wf(),
            r.m_cost == 19456,
            r.t_cost == 2,
            r.p_cost == 1,
            r.output_len == 32,
    {
        HashParameters { m_cost: 19456, t_cost: 2, p_cost: 1, output_len: 32 }
    }
}

} // verus!
