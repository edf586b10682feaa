//! A random display color for users whose messages carry none.
use rand::Rng;
use vstd::prelude::*;

verus! {

/// Relies on rand::rngs::ThreadRng via rand::Rng::gen: three freshly drawn
/// bytes.  The result depends on the generator's state, so nothing is
/// promised about its value.
#[verifier::external_body]
pub fn get_color() -> (u8, u8, u8) {
    let mut rng = rand::thread_rng();
    let r = rng.gen();
    let g = rng.gen();
    let b = rng.gen();
    (r, g, b)
}

} // verus!
