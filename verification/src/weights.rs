//! The cost of operations: the computation time and the proof size that a
//! call is charged for. All arithmetic on weights saturates.

use vstd::prelude::*;

pub mod common;
pub mod structure;

verus! {

/// The sum of two numbers, or the greatest number where the sum is larger.
pub open spec fn saturating_add(a: u64, b: u64) -> u64 {
    if a + b > u64::MAX {
        u64::MAX
    } else {
        (a + b) as u64
    }
}

/// The product of two numbers, or the greatest number where the product is
/// larger.
pub open spec fn saturating_mul(a: u64, b: u64) -> u64 {
    if a * b > u64::MAX {
        u64::MAX
    } else {
        (a * b) as u64
    }
}

/// The product of two numbers, saturating.
fn mul_saturating(a: u64, b: u64) -> (product: u64)
    ensures
        product == saturating_mul(a, b),
{
    match a.checked_mul(b) {
        Some(product) => product,
        None => u64::MAX,
    }
}

/// The weight of a call.
#[derive(Clone, Copy, Debug, PartialEq, Eq, Structural)]
pub struct Weight {
    /// The computation time, in picoseconds on the reference hardware.
    pub ref_time: u64,
    /// The size of the storage proof, in bytes.
    pub proof_size: u64,
}

impl Weight {
    /// The computation time.
    pub fn ref_time(&self) -> (time: u64)
        ensures
            time == self.ref_time,
    {
        self.ref_time
    }

    /// The proof size.
    pub fn proof_size(&self) -> (size: u64)
        ensures
            size == self.proof_size,
    {
        self.proof_size
    }

    /// The weight with the given parts.
    pub fn from_parts(ref_time: u64, proof_size: u64) -> (weight: Weight)
        ensures
            weight == (Weight { ref_time, proof_size }),
    {
        Weight { ref_time, proof_size }
    }

    /// The sum of two weights, part by part.
    pub fn saturating_add(self, rhs: Weight) -> (sum: Weight)
        ensures
            sum == (Weight {
                ref_time: saturating_add(self.ref_time, rhs.ref_time),
                proof_size: saturating_add(self.proof_size, rhs.proof_size),
            }),
    {
        Weight {
            ref_time: self.ref_time.saturating_add(rhs.ref_time),
            proof_size: self.proof_size.saturating_add(rhs.proof_size),
        }
    }

    /// The weight taken `scalar` times, part by part.
    pub fn saturating_mul(self, scalar: u64) -> (product: Weight)
        ensures
            product == (Weight {
                ref_time: saturating_mul(self.ref_time, scalar),
                proof_size: saturating_mul(self.proof_size, scalar),
            }),
    {
        Weight {
            ref_time: mul_saturating(self.ref_time, scalar),
            proof_size: mul_saturating(self.proof_size, scalar),
        }
    }
}

/// The weight of the database operations of a runtime.
#[derive(Clone, Copy, Debug, PartialEq, Eq, Structural)]
pub struct RuntimeDbWeight {
    /// The computation time of one read.
    pub read: u64,
    /// The computation time of one write.
    pub write: u64,
}

impl RuntimeDbWeight {
    /// The weight of `r` reads.
    pub fn reads(self, r: u64) -> (weight: Weight)
        ensures
            weight == (Weight { ref_time: saturating_mul(self.read, r), proof_size: 0 }),
    {
        Weight::from_parts(mul_saturating(self.read, r), 0)
    }

    /// The weight of `w` writes.
    pub fn writes(self, w: u64) -> (weight: Weight)
        ensures
            weight == (Weight { ref_time: saturating_mul(self.write, w), proof_size: 0 }),
    {
        Weight::from_parts(mul_saturating(self.write, w), 0)
    }
}

/// The database weights of a RocksDB backend.
pub open spec fn rocks_db_weight() -> RuntimeDbWeight {
    RuntimeDbWeight { read: 25_000_000, write: 100_000_000 }
}

/// The database weights of a RocksDB backend.
#[verifier::when_used_as_spec(rocks_db_weight)]
pub fn rocks_db() -> (weights: RuntimeDbWeight)
    ensures
        weights == rocks_db_weight(),
{
    RuntimeDbWeight { read: 25_000_000, write: 100_000_000 }
}

} // verus!
