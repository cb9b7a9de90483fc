//! The katakana suffix generator: a deterministic pseudo-random source
//! of katakana characters, and the splicing of a generated run into a
//! text while keeping a single trailing newline final.

use crate::mapper::char_from_code;
use vstd::prelude::*;

verus! {

/// One step of the xorshift64 pseudo-random transition.
pub open spec fn xorshift_step(s: u64) -> u64 {
    let a = s ^ (s << 13);
    let b = a ^ (a >> 7);
    b ^ (b << 17)
}

/// The generator state after `i` steps from state `s`.
pub open spec fn rng_iter(s: u64, i: nat) -> u64
    decreases i,
{
    if i == 0 {
        s
    } else {
        xorshift_step(rng_iter(s, (i - 1) as nat))
    }
}

/// The katakana code point drawn from one generator output: an offset
/// into the katakana block [0x30A0, 0x30FF] of 96 code points.
pub open spec fn kana_code(x: u64) -> u32 {
    (0x30A0 + x % 96) as u32
}

/// The character of the `i`-th draw (counting from zero) from state `s`.
pub open spec fn kana_char_at(s: u64, i: nat) -> char {
    (kana_code(rng_iter(s, i + 1)) as char)
}

/// True of the characters of the katakana block.
pub open spec fn in_kana_block(c: char) -> bool {
    0x30A0 <= c as u32 <= 0x30FF
}

/// The run of `n` katakana characters drawn from state `s`.
pub open spec fn kana_run(s: u64, n: nat) -> Seq<char>
    decreases n,
{
    if n == 0 {
        Seq::empty()
    } else {
        seq![kana_char_at(s, 0)] + kana_run(xorshift_step(s), (n - 1) as nat)
    }
}

/// True when the text ends with a newline character.
pub open spec fn ends_with_newline(t: Seq<char>) -> bool {
    t.len() > 0 && t[t.len() - 1] == '\n'
}

/// The text decorated with a suffix of `n` katakana characters drawn
/// from state `s`: with `n == 0` the text itself; otherwise the text,
/// one ideographic space as a separator, then the run — except that a
/// single trailing newline of the text stays the final character.
pub open spec fn augmented(t: Seq<char>, n: nat, s: u64) -> Seq<char> {
    if n == 0 {
        t
    } else if ends_with_newline(t) {
        t.drop_last() + seq!['\u{3000}'] + kana_run(s, n) + seq!['\n']
    } else {
        t + seq!['\u{3000}'] + kana_run(s, n)
    }
}

/// Stepping the start state once shifts the whole state iteration by one.
pub proof fn lemma_rng_iter_shift(s: u64, i: nat)
    ensures
        rng_iter(xorshift_step(s), i) == rng_iter(s, i + 1),
    decreases i,
{
    reveal_with_fuel(rng_iter, 2);
    if i > 0 {
        lemma_rng_iter_shift(s, (i - 1) as nat);
    }
}

/// A katakana run grows at its back: one more draw appends the
/// character of the next state.
pub proof fn lemma_kana_run_snoc(s: u64, n: nat)
    ensures
        kana_run(s, n + 1) == kana_run(s, n).push(kana_char_at(s, n)),
    decreases n,
{
    reveal_with_fuel(kana_run, 2);
    if n == 0 {
        assert(kana_run(s, 1) =~= kana_run(s, 0).push(kana_char_at(s, 0)));
    } else {
        lemma_kana_run_snoc(xorshift_step(s), (n - 1) as nat);
        lemma_rng_iter_shift(s, n);
        assert(kana_char_at(xorshift_step(s), (n - 1) as nat) == kana_char_at(s, n));
        assert(kana_run(s, n + 1) =~= kana_run(s, n).push(kana_char_at(s, n)));
    }
}

/// A katakana run has one character per draw, and every one of them
/// lies in the katakana block.
pub proof fn lemma_kana_run_in_block(s: u64, n: nat)
    ensures
        kana_run(s, n).len() == n,
        forall|i: int| 0 <= i < n ==> in_kana_block(#[trigger] kana_run(s, n)[i]),
    decreases n,
{
    if n > 0 {
        lemma_kana_run_in_block(xorshift_step(s), (n - 1) as nat);
    }
}

/// A pseudo-random source of katakana characters (an xorshift64 core).
/// The generation policy in use: each draw picks one of the 96 code
/// points spanning the whole katakana block, from a general-purpose
/// pseudo-random generator. The caller seeds the generator and passes
/// it to the suffix generator, so the seeding policy and the source
/// itself can be swapped without touching the rest of the pipeline.
pub struct KanaRng {
    pub state: u64,
}

impl KanaRng {
    /// Creates a generator from a seed. The all-zero state is a fixed
    /// point of the xorshift transition, so a zero seed is replaced by
    /// a fixed odd constant.
    pub fn new(seed: u64) -> (r: KanaRng)
        ensures
            r.state == if seed == 0 {
                0x9E3779B97F4A7C15u64
            } else {
                seed
            },
    {
        if seed == 0 {
            KanaRng { state: 0x9E3779B97F4A7C15 }
        } else {
            KanaRng { state: seed }
        }
    }

    /// Advances the state one xorshift step and returns it.
    fn next(&mut self) -> (x: u64)
        ensures
            x == xorshift_step(old(self).state),
            final(self).state == x,
    {
        let s = self.state;
        let a = s ^ (s << 13);
        let b = a ^ (a >> 7);
        let x = b ^ (b << 17);
        self.state = x;
        x
    }
}

/// With a requested count of zero, the text is left exactly as it was.
pub proof fn lemma_augment_zero(t: Seq<char>, s: u64)
    ensures
        augmented(t, 0, s) == t,
{
}

/// With a positive count and no trailing newline, the result is the
/// text, one ideographic space, then exactly `n` characters of the
/// katakana block.
pub proof fn lemma_augment_no_newline(t: Seq<char>, n: nat, s: u64)
    requires
        n > 0,
        !ends_with_newline(t),
    ensures
        augmented(t, n, s).len() == t.len() + 1 + n,
        augmented(t, n, s).subrange(0, t.len() as int) == t,
        augmented(t, n, s)[t.len() as int] == '\u{3000}',
        forall|i: int|
            t.len() + 1 <= i < t.len() + 1 + n ==> in_kana_block(#[trigger] augmented(t, n, s)[i]),
{
    lemma_kana_run_in_block(s, n);
    assert(augmented(t, n, s).subrange(0, t.len() as int) =~= t);
}

/// With a positive count and a trailing newline, the result is the
/// text without that newline, one ideographic space, exactly `n`
/// characters of the katakana block, then exactly one newline again:
/// the newline is neither duplicated nor lost.
pub proof fn lemma_augment_newline(t: Seq<char>, n: nat, s: u64)
    requires
        n > 0,
        ends_with_newline(t),
    ensures
        augmented(t, n, s).len() == t.len() + 1 + n,
        augmented(t, n, s).subrange(0, t.len() - 1) == t.drop_last(),
        augmented(t, n, s)[t.len() - 1] == '\u{3000}',
        forall|i: int|
            t.len() <= i < t.len() + n ==> in_kana_block(#[trigger] augmented(t, n, s)[i]),
        augmented(t, n, s).last() == '\n',
        !ends_with_newline(augmented(t, n, s).drop_last()),
{
    lemma_kana_run_in_block(s, n);
    assert(augmented(t, n, s).subrange(0, t.len() - 1) =~= t.drop_last());
    assert(augmented(t, n, s).drop_last().last() == kana_run(s, n)[n - 1]);
}

/// Appends `n` pseudo-random katakana characters to the text after an
/// ideographic-space separator; a single trailing newline of the text
/// is kept final. With `n == 0` the text is returned unchanged.
pub fn augment(text: Vec<char>, n: u8, rng: &mut KanaRng) -> (r: Vec<char>)
    ensures
        r@ == augmented(text@, n as nat, old(rng).state),
        final(rng).state == if n == 0 {
            old(rng).state
        } else {
            rng_iter(old(rng).state, n as nat)
        },
{
    if n == 0 {
        return text;
    }
    let ghost t0 = text@;
    let ghost s0 = rng.state;
    let mut out = text;
    let had_nl = out.len() > 0 && out[out.len() - 1] == '\n';
    let ghost base = if had_nl {
        t0.drop_last()
    } else {
        t0
    };
    if had_nl {
        out.pop();
    }
    proof {
        assert(out@ =~= base);
    }
    out.push(char_from_code(0x3000));
    let mut i: u8 = 0;
    while i < n
        invariant
            i <= n,
            rng.state == rng_iter(s0, i as nat),
            out@ == base + seq!['\u{3000}'] + kana_run(s0, i as nat),
        decreases n - i,
    {
        let ghost before = rng.state;
        let k = rand_kana(rng);
        out.push(char_from_code(k));
        proof {
            lemma_kana_run_snoc(s0, i as nat);
            assert(rng.state == rng_iter(s0, (i + 1) as nat));
            assert((kana_code(xorshift_step(before)) as char) == kana_char_at(s0, i as nat));
            assert(out@ =~= base + seq!['\u{3000}'] + kana_run(s0, (i + 1) as nat));
        }
        i += 1;
    }
    if had_nl {
        out.push('\n');
    }
    proof {
        assert(out@ =~= augmented(t0, n as nat, s0));
    }
    out
}

/// Draws one pseudo-random katakana code point, always within the
/// katakana block [0x30A0, 0x30FF].
pub fn rand_kana(rng: &mut KanaRng) -> (k: u32)
    ensures
        k == kana_code(xorshift_step(old(rng).state)),
        final(rng).state == xorshift_step(old(rng).state),
        0x30A0 <= k <= 0x30FF,
{
    let x = rng.next();
    (0x30A0 + (x % 96)) as u32
}

} // verus!
