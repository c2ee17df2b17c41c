//! A small deterministic generator of uniform fixed-point samples.
//!
//! The host acquires seed material from its entropy source once, at
//! game construction; everything after that is a pure function of the
//! seed, so a whole game replay is reproducible. Seeding fails loudly
//! when the host hands over too little material.

use vstd::prelude::*;
use crate::fixed::SCALE;

verus! {

/// Why seeding the generator failed.
#[derive(Clone, Copy, Debug, PartialEq, Eq, Structural)]
pub enum RNGSourceError {
    RangeError,
    QuotaError,
    UnknownError,
}

/// Decode an entropy source's status code: zero is success, one a range
/// fault, two an exhausted quota, anything else unknown.
pub fn rng_source_result(rv: usize) -> (r: Result<(), RNGSourceError>)
    ensures
        rv == 0 ==> r == Result::<(), RNGSourceError>::Ok(()),
        rv == 1 ==> r == Result::<(), RNGSourceError>::Err(RNGSourceError::RangeError),
        rv == 2 ==> r == Result::<(), RNGSourceError>::Err(RNGSourceError::QuotaError),
        rv >= 3 ==> r == Result::<(), RNGSourceError>::Err(RNGSourceError::UnknownError),
{
    match rv {
        0 => Ok(()),
        1 => Err(RNGSourceError::RangeError),
        2 => Err(RNGSourceError::QuotaError),
        _ => Err(RNGSourceError::UnknownError),
    }
}

/// A nonzero state for the shift-register generator: the seed itself,
/// or a fixed odd constant when the seed is zero (a zero state would
/// stay zero forever).
pub open spec fn spec_rng_seed(seed: u64) -> u64 {
    if seed == 0 {
        0x9E37_79B9_7F4A_7C15u64
    } else {
        seed
    }
}

/// One xorshift step of the generator state.
pub open spec fn spec_rng_step(s: u64) -> u64 {
    let a = s ^ (s << 13);
    let b = a ^ (a >> 7);
    b ^ (b << 17)
}

/// A uniform fixed-point sample in `[0, SCALE)` drawn from a state.
pub open spec fn spec_rng_unit(s: u64) -> i64 {
    (spec_rng_step(s) % (SCALE as u64)) as i64
}

/// The deterministic generator. The state is never zero once seeded
/// through `new`.
#[derive(Clone, Copy, Debug, PartialEq, Eq, Structural)]
pub struct Rng {
    pub state: u64,
}

impl Rng {
    /// Seed the generator.
    pub fn new(seed: u64) -> (r: Rng)
        ensures
            r.state == spec_rng_seed(seed),
    {
        if seed == 0 {
            Rng { state: 0x9E37_79B9_7F4A_7C15u64 }
        } else {
            Rng { state: seed }
        }
    }

    /// Draw a uniform fixed-point sample in `[0, 1)`, that is in
    /// `[0, SCALE)` micro-units.
    pub fn next_unit(&mut self) -> (r: i64)
        ensures
            final(self).state == spec_rng_step(old(self).state),
            r == spec_rng_unit(old(self).state),
            0 <= r < SCALE,
    {
        let a = self.state ^ (self.state << 13);
        let b = a ^ (a >> 7);
        let c = b ^ (b << 17);
        self.state = c;
        (c % (SCALE as u64)) as i64
    }
}

/// Fold the first eight bytes of seed material into a generator seed,
/// little-endian.
pub open spec fn spec_seed_from_bytes(bytes: Seq<u8>) -> u64
    recommends
        bytes.len() >= 8,
{
    (bytes[0] as u64) | ((bytes[1] as u64) << 8) | ((bytes[2] as u64) << 16) | ((bytes[3] as u64)
        << 24) | ((bytes[4] as u64) << 32) | ((bytes[5] as u64) << 40) | ((bytes[6] as u64) << 48)
        | ((bytes[7] as u64) << 56)
}

/// Build a seeded generator from host entropy: at least eight bytes, or
/// a range fault.
pub fn new_rng(seed_bytes: &Vec<u8>) -> (r: Result<Rng, RNGSourceError>)
    ensures
        seed_bytes@.len() >= 8 ==> r == Result::<Rng, RNGSourceError>::Ok(
            Rng { state: spec_rng_seed(spec_seed_from_bytes(seed_bytes@)) },
        ),
        seed_bytes@.len() < 8 ==> r == Result::<Rng, RNGSourceError>::Err(
            RNGSourceError::RangeError,
        ),
{
    if seed_bytes.len() < 8 {
        return Err(RNGSourceError::RangeError);
    }
    let seed = (seed_bytes[0] as u64) | ((seed_bytes[1] as u64) << 8) | ((seed_bytes[2] as u64)
        << 16) | ((seed_bytes[3] as u64) << 24) | ((seed_bytes[4] as u64) << 32) | ((
    seed_bytes[5] as u64) << 40) | ((seed_bytes[6] as u64) << 48) | ((seed_bytes[7] as u64) << 56);
    Ok(Rng::new(seed))
}

} // verus!
