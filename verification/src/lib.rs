//! Fullwidth text decoration: maps space and printable ASCII to the
//! Unicode Fullwidth Forms block and can append a run of pseudo-random
//! katakana characters, keeping a single trailing newline final.

use vstd::prelude::*;

pub mod cli;
pub mod kana;
pub mod mapper;

pub use kana::augment;
pub use kana::rand_kana;
pub use kana::KanaRng;
pub use mapper::map_text;
pub use mapper::to_fw;

verus! {

/// The whole transformation: every character mapped to its fullwidth
/// form, then, when `kana > 0`, the pseudo-random katakana suffix
/// spliced in ahead of a single trailing newline.
pub fn render(text: Vec<char>, kana: u8, rng: &mut KanaRng) -> (r: Vec<char>)
    ensures
        r@ == kana::augmented(mapper::mapped(text@), kana as nat, old(rng).state),
        final(rng).state == if kana == 0 {
            old(rng).state
        } else {
            kana::rng_iter(old(rng).state, kana as nat)
        },
{
    let m = mapper::map_text(&text);
    kana::augment(m, kana, rng)
}

} // verus!
