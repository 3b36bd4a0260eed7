//! Weights: what a call costs in computation time and in proof size.

use vstd::prelude::*;

verus! {

/// The units of computation time of one nanosecond.
pub const WEIGHT_REF_TIME_PER_NANOS: u64 = 1_000;

/// The units of computation time of one microsecond.
pub const WEIGHT_REF_TIME_PER_MICROS: u64 = 1_000_000;

/// The units of computation time of one millisecond.
pub const WEIGHT_REF_TIME_PER_MILLIS: u64 = 1_000_000_000;

/// `n`, capped at the largest `u64`.
pub open spec fn capped(n: int) -> u64 {
    if n <= u64::MAX {
        n as u64
    } else {
        u64::MAX
    }
}

/// `a * b`, capped at the largest `u64`.
pub fn saturating_mul(a: u64, b: u64) -> (r: u64)
    ensures
        r == capped(a * b),
{
    match a.checked_mul(b) {
        Some(product) => product,
        None => u64::MAX,
    }
}

#[derive(Clone, Copy, Debug, PartialEq, Eq, Structural)]
pub struct Weight {
    /// The weight of computational time used based on some reference hardware.
    pub ref_time: u64,
    /// The weight of storage space used by proof of validity.
    pub proof_size: u64,
}

impl Weight {
    pub fn from_parts(ref_time: u64, proof_size: u64) -> (r: Self)
        ensures
            r == (Weight { ref_time, proof_size }),
    {
        Weight { ref_time, proof_size }
    }

    pub fn ref_time(&self) -> (r: u64)
        ensures
            r == self.ref_time,
    {
        self.ref_time
    }

    pub fn proof_size(&self) -> (r: u64)
        ensures
            r == self.proof_size,
    {
        self.proof_size
    }

    /// The sum of two weights, each part capped at the largest `u64`.
    pub fn saturating_add(self, rhs: Self) -> (r: Self)
        ensures
            r.ref_time == capped(self.ref_time + rhs.ref_time),
            r.proof_size == capped(self.proof_size + rhs.proof_size),
    {
        Weight {
            ref_time: self.ref_time.saturating_add(rhs.ref_time),
            proof_size: self.proof_size.saturating_add(rhs.proof_size),
        }
    }

    /// The weight taken `scalar` times, each part capped at the largest
    /// `u64`.
    pub fn saturating_mul(self, scalar: u64) -> (r: Self)
        ensures
            r.ref_time == capped(self.ref_time * scalar),
            r.proof_size == capped(self.proof_size * scalar),
    {
        Weight {
            ref_time: saturating_mul(self.ref_time, scalar),
            proof_size: saturating_mul(self.proof_size, scalar),
        }
    }
}

/// The weight of database operations that the runtime can invoke.
#[derive(Clone, Copy, Debug, PartialEq, Eq, Structural)]
pub struct RuntimeDbWeight {
    pub read: u64,
    pub write: u64,
}

impl RuntimeDbWeight {
    pub fn reads(self, r: u64) -> (w: Weight)
        ensures
            w == (Weight { ref_time: capped(self.read * r), proof_size: 0 }),
    {
        Weight::from_parts(saturating_mul(self.read, r), 0)
    }

    pub fn writes(self, w: u64) -> (weight: Weight)
        ensures
            weight == (Weight { ref_time: capped(self.write * w), proof_size: 0 }),
    {
        Weight::from_parts(saturating_mul(self.write, w), 0)
    }
}

/// Time to execute a NO-OP extrinsic, for example `System::remark`.
pub fn extrinsic_base_weight() -> (w: Weight)
    ensures
        w == (Weight { ref_time: 83_409_000, proof_size: 0 }),
{
    Weight::from_parts(saturating_mul(WEIGHT_REF_TIME_PER_NANOS, 83_409), 0)
}

/// The weight of a heartbeat that is validated and then taken in, with `k`
/// keys and `e` external addresses, on a database with the costs `db`: four
/// reads and one write beside what grows with `k` and `e`.
pub fn validate_unsigned_and_then_heartbeat(k: u32, e: u32, db: RuntimeDbWeight) -> (w: Weight)
    ensures
        w.ref_time == capped(45_808_559 + 74_644 * k + 593_796 * e + 4 * db.read + db.write),
        w.proof_size == 10_345_712 + 64 * k + 25 * e,
{
    Weight::from_parts(45_808_559, 0u64).saturating_add(
        Weight::from_parts(0, 10_345_712),
    ).saturating_add(Weight::from_parts(74_644, 0u64).saturating_mul(k as u64)).saturating_add(
        Weight::from_parts(593_796, 0u64).saturating_mul(e as u64),
    ).saturating_add(db.reads(4u64)).saturating_add(db.writes(1u64)).saturating_add(
        Weight::from_parts(0, 64).saturating_mul(k as u64),
    ).saturating_add(Weight::from_parts(0, 25).saturating_mul(e as u64))
}

} // verus!
