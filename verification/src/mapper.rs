//! The halfwidth-to-fullwidth character mapping.

use vstd::prelude::*;

verus! {

/// The fullwidth mapping on code points: space becomes the ideographic
/// space, the other printable ASCII code points shift into the Fullwidth
/// Forms block, and everything else is left unchanged.
pub open spec fn fw_code(u: u32) -> u32 {
    if u == 0x20 {
        0x3000
    } else if 0x21 <= u && u <= 0x7E {
        (u + 0xFEE0) as u32
    } else {
        u
    }
}

/// The fullwidth mapping on characters.
pub open spec fn fw_char(c: char) -> char {
    (fw_code(c as u32) as char)
}

/// The fullwidth mapping applied to every character of a text, in order.
pub open spec fn mapped(s: Seq<char>) -> Seq<char> {
    s.map_values(|c: char| fw_char(c))
}

/// Every printable ASCII code point other than space shifts by 0xFEE0
/// into the Fullwidth Forms block.
pub proof fn lemma_fw_printable(u: u32)
    requires
        0x21 <= u <= 0x7E,
    ensures
        fw_code(u) == u + 0xFEE0,
{
}

/// Space maps to the ideographic space.
pub proof fn lemma_fw_space()
    ensures
        fw_code(0x20) == 0x3000,
{
}

/// Every code point outside [0x20, 0x7E] is left unchanged, so any
/// character outside that range passes through the mapping untouched.
pub proof fn lemma_fw_identity(c: char)
    requires
        !(0x20 <= c as u32 <= 0x7E),
    ensures
        fw_char(c) == c,
{
}

/// The mapping is 1:1 on positions: it preserves the character count.
pub proof fn lemma_mapped_len(s: Seq<char>)
    ensures
        mapped(s).len() == s.len(),
{
}

/// Returns the fullwidth equivalent of `c` when one is defined
/// (space and printable ASCII), and `None` otherwise.
pub fn to_fw(c: char) -> (r: Option<char>)
    ensures
        r is Some <==> 0x20 <= c as u32 <= 0x7E,
        r is Some ==> r->0 == fw_char(c),
{
    let u = c as u32;
    if u == 0x20 {
        Some(char_from_code(0x3000))
    } else if 0x21 <= u && u <= 0x7E {
        Some(char_from_code(u + 0xFEE0))
    } else {
        None
    }
}

/// Applies the fullwidth mapping to every character of the text,
/// preserving order and count.
pub fn map_text(text: &Vec<char>) -> (r: Vec<char>)
    ensures
        r@ == mapped(text@),
{
    let mut out: Vec<char> = Vec::new();
    let mut i: usize = 0;
    while i < text.len()
        invariant
            i <= text@.len(),
            out@ == mapped(text@.take(i as int)),
        decreases text@.len() - i,
    {
        let c = text[i];
        match to_fw(c) {
            Some(f) => out.push(f),
            None => out.push(c),
        }
        proof {
            if !(0x20 <= c as u32 <= 0x7E) {
                lemma_fw_identity(c);
            }
            assert(mapped(text@.take(i + 1 as int)) =~= mapped(text@.take(i as int)).push(
                fw_char(c),
            ));
        }
        i += 1;
    }
    proof {
        assert(text@.take(text@.len() as int) =~= text@);
    }
    out
}

/// Relies on `char::from_u32`: its documentation promises `Some` exactly
/// when the argument is a Unicode scalar value, that is, any value in
/// [0, 0x10FFFF] outside the surrogate range [0xD800, 0xDFFF].
#[verifier::external_body]
pub(crate) fn char_from_code(u: u32) -> (r: char)
    requires
        u < 0xD800 || (0xE000 <= u && u <= 0x10FFFF),
    ensures
        r as u32 == u,
{
    char::from_u32(u).unwrap()
}

} // verus!
