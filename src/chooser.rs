//! Picks the next challenge letter at random, never the one just used.
use vstd::prelude::*;
use rand::rngs::StdRng;
use rand::{Rng, SeedableRng};

verus! {

/// rand's seedable generator, carried through as an opaque value.
#[verifier::external_type_specification]
#[verifier::external_body]
pub struct ExStdRng(StdRng);

/// Relies on `SeedableRng::seed_from_u64` for `StdRng`: a generator whose
/// stream is fixed by the seed.
#[verifier::external_body]
fn seeded_rng(seed: u64) -> StdRng {
    StdRng::seed_from_u64(seed)
}

/// Relies on `Rng::gen_range` over `0..bound`: a value of the half-open range,
/// which is not empty here (the call panics on an empty one).
#[verifier::external_body]
fn draw_below(rng: &mut StdRng, bound: usize) -> (r: usize)
    requires
        bound > 0,
    ensures
        r < bound,
{
    rng.gen_range(0..bound)
}

/// Number of letters a challenge is drawn from.
pub const ALPHABET_LEN: usize = 26;

/// Draws made before falling back to a fixed choice.
pub const MAX_DRAWS: usize = 8;

/// The `i`-th capital letter of the Latin alphabet.
pub open spec fn letter_at(i: int) -> char {
    ((65 + i) as u8) as char
}

/// The letters a challenge may be.
pub open spec fn is_letter(c: char) -> bool {
    65 <= (c as u32) && (c as u32) < 65 + ALPHABET_LEN
}

/// The letter that follows `previous`, wrapping from the last to the first;
/// the first letter when there is no letter before.
pub open spec fn fallback_of(previous: Option<char>) -> char {
    match previous {
        Some(p) => if is_letter(p) && (p as u32) + 1 < 65 + ALPHABET_LEN {
            ((p as u32) + 1) as char
        } else {
            letter_at(0)
        },
        None => letter_at(0),
    }
}

/// The letter at `index`, in the order of the alphabet.
pub fn letter(index: usize) -> (r: char)
    requires
        index < ALPHABET_LEN,
    ensures
        r == letter_at(index as int),
        is_letter(r),
{
    (65u8 + index as u8) as char
}

/// What a draw of `index` yields: its letter, unless that letter was the
/// previous one.
pub fn accept_draw(previous: Option<char>, index: usize) -> (r: Option<char>)
    requires
        index < ALPHABET_LEN,
    ensures
        r == (if previous == Some(letter_at(index as int)) {
            None
        } else {
            Some(letter_at(index as int))
        }),
{
    let c = letter(index);
    match previous {
        Some(p) if p == c => None,
        _ => Some(c),
    }
}

/// The fixed choice made once the draws ran out: the letter after `previous`.
pub fn fallback_letter(previous: Option<char>) -> (r: char)
    ensures
        r == fallback_of(previous),
        is_letter(r),
        previous != Some(r),
{
    match previous {
        Some(p) => {
            let code = p as u32;
            if 65 <= code && code < 64 + ALPHABET_LEN as u32 {
                (code as u8 + 1) as char
            } else {
                letter(0)
            }
        },
        None => letter(0),
    }
}

/// Source of challenge letters.
pub struct RandomCharacterChooser {
    rng: StdRng,
}

impl RandomCharacterChooser {
    /// A chooser whose letters are fixed by `seed`.
    pub fn new(seed: u64) -> Self {
        RandomCharacterChooser { rng: seeded_rng(seed) }
    }

    /// A letter drawn uniformly, drawn again while it equals `previous`, and
    /// after `MAX_DRAWS` draws the letter after `previous`.
    pub fn next(&mut self, previous: Option<char>) -> (r: char)
        ensures
            is_letter(r),
            previous != Some(r),
    {
        let mut draws: usize = 0;
        while draws < MAX_DRAWS
            invariant
                draws <= MAX_DRAWS,
            decreases MAX_DRAWS - draws,
        {
            let index = draw_below(&mut self.rng, ALPHABET_LEN);
            if let Some(c) = accept_draw(previous, index) {
                return c;
            }
            draws = draws + 1;
        }
        fallback_letter(previous)
    }
}

} // verus!
