//! Pluggable randomness: one operation, filling a buffer with bytes that
//! are opaque to the guest.
//!
//! [`OsRandom`] draws from the platform entropy source; [`Deterministic`]
//! is a seeded, reproducible drop-in alternative satisfying the same
//! contract — a test backend, not a special case anywhere else.

use vstd::prelude::*;

use crate::error::{Error, ErrorKind};

verus! {

/// A randomness source. Nothing can be promised about the bytes
/// themselves; what holds of every successful outcome is that exactly
/// `len` bytes come back. A source backed by the platform may fail when
/// the entropy source does.
pub trait RandomSource: Sized {
    /// Produce `len` bytes.
    fn get_bytes(&mut self, len: usize) -> (r: Result<Vec<u8>, Error>)
        ensures
            r matches Ok(buf) ==> buf@.len() == len,
    ;
}

/// Relies on `cap_rand::rngs::OsRng` and `TryRngCore::try_fill_bytes`:
/// filling a borrowed slice writes all of it, or reports the platform's
/// failure, and either way leaves the vector's length alone and never
/// panics or exits. The bytes are the platform entropy source's, so
/// nothing is stated of them.
#[verifier::external_body]
fn fill_from_entropy(buf: &mut Vec<u8>) -> (r: Result<(), Error>)
    ensures
        final(buf)@.len() == old(buf)@.len(),
        r matches Err(e) ==> e == Error::Kind(ErrorKind::Io),
{
    let mut rng = cap_rand::rngs::OsRng::default(cap_rand::ambient_authority());
    match cap_rand::TryRngCore::try_fill_bytes(&mut rng, buf.as_mut_slice()) {
        Ok(()) => Ok(()),
        Err(_) => Err(Error::Kind(ErrorKind::Io)),
    }
}

/// The platform entropy source.
pub struct OsRandom {}

impl OsRandom {
    /// A handle on the platform entropy source.
    pub fn new() -> OsRandom {
        OsRandom {  }
    }
}

impl RandomSource for OsRandom {
    fn get_bytes(&mut self, len: usize) -> (r: Result<Vec<u8>, Error>) {
        let mut buf: Vec<u8> = Vec::new();
        while buf.len() < len
            invariant
                buf@.len() <= len,
            decreases len - buf@.len(),
        {
            buf.push(0u8);
        }
        match fill_from_entropy(&mut buf) {
            Ok(()) => Ok(buf),
            Err(e) => Err(e),
        }
    }
}

/// A deterministic source: a seeded xorshift generator, reproducible
/// run after run. A drop-in alternative for tests and virtual contexts.
pub struct Deterministic {
    state: u64,
}

impl Deterministic {
    /// A deterministic source seeded with `seed`.
    pub fn new(seed: u64) -> Deterministic {
        let state = if seed == 0 {
            0x9E3779B97F4A7C15u64
        } else {
            seed
        };
        Deterministic { state }
    }
}

impl RandomSource for Deterministic {
    fn get_bytes(&mut self, len: usize) -> (r: Result<Vec<u8>, Error>) {
        let mut buf: Vec<u8> = Vec::new();
        while buf.len() < len
            invariant
                buf@.len() <= len,
            decreases len - buf@.len(),
        {
            let mut x = self.state;
            x = x ^ (x << 13);
            x = x ^ (x >> 7);
            x = x ^ (x << 17);
            self.state = x;
            buf.push((x % 256) as u8);
        }
        Ok(buf)
    }
}

} // verus!
