//! Character classes used to read transcripts.
use vstd::prelude::*;

verus! {

/// The Unicode `White_Space` characters.
pub open spec fn is_white_space(c: char) -> bool {
    let v = c as u32;
    (0x09 <= v && v <= 0x0d) || v == 0x20 || v == 0x85 || v == 0xa0 || v == 0x1680 || (0x2000
        <= v && v <= 0x200a) || v == 0x2028 || v == 0x2029 || v == 0x202f || v == 0x205f || v
        == 0x3000
}

/// The ASCII punctuation characters: ``!"#$%&'()*+,-./:;<=>?@[\]^_`{|}~``.
pub open spec fn is_ascii_punct(c: char) -> bool {
    let v = c as u32;
    (0x21 <= v && v <= 0x2f) || (0x3a <= v && v <= 0x40) || (0x5b <= v && v <= 0x60) || (0x7b
        <= v && v <= 0x7e)
}

/// Whether `c` has the Unicode `White_Space` property.
pub fn white_space(c: char) -> (r: bool)
    ensures
        r == is_white_space(c),
{
    let v = c as u32;
    (0x09 <= v && v <= 0x0d) || v == 0x20 || v == 0x85 || v == 0xa0 || v == 0x1680 || (0x2000
        <= v && v <= 0x200a) || v == 0x2028 || v == 0x2029 || v == 0x202f || v == 0x205f || v
        == 0x3000
}

/// Whether `c` is ASCII punctuation.
pub fn ascii_punct(c: char) -> (r: bool)
    ensures
        r == is_ascii_punct(c),
{
    let v = c as u32;
    (0x21 <= v && v <= 0x2f) || (0x3a <= v && v <= 0x40) || (0x5b <= v && v <= 0x60) || (0x7b
        <= v && v <= 0x7e)
}

} // verus!
