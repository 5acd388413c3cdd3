use vstd::prelude::*;

verus! {

/// Whether `c` may begin a name.
pub open spec fn spec_is_name_start_char(c: char) -> bool {
    let v = c as u32;
    ||| v == 0x3A  // ':'
    ||| 0x41 <= v <= 0x5A  // 'A'..='Z'
    ||| v == 0x5F  // '_'
    ||| 0x61 <= v <= 0x7A  // 'a'..='z'
    ||| 0xC0 <= v <= 0xD6
    ||| 0xD8 <= v <= 0xF6
    ||| 0xF8 <= v <= 0x2FF
    ||| 0x370 <= v <= 0x37D
    ||| 0x37F <= v <= 0x1FFF
    ||| 0x200C <= v <= 0x200D
    ||| 0x2070 <= v <= 0x218F
    ||| 0x2C00 <= v <= 0x2FEF
    ||| 0x3001 <= v <= 0xD7FF
    ||| 0xF900 <= v <= 0xFDCF
    ||| 0xFDF0 <= v <= 0xFFFD
    ||| 0x10000 <= v <= 0xEFFFF
}

/// Whether `c` may appear in a name after its first character.
pub open spec fn spec_is_name_char(c: char) -> bool {
    let v = c as u32;
    ||| spec_is_name_start_char(c)
    ||| v == 0x2D  // '-'
    ||| v == 0x2E  // '.'
    ||| 0x30 <= v <= 0x39  // '0'..='9'
    ||| v == 0xB7
    ||| 0x300 <= v <= 0x36F
    ||| 0x203F <= v <= 0x2040
}

pub fn is_name_start_char(c: char) -> (r: bool)
    ensures
        r == spec_is_name_start_char(c),
{
    let v = c as u32;
    v == 0x3A || (0x41 <= v && v <= 0x5A) || v == 0x5F || (0x61 <= v && v <= 0x7A) || (0xC0
        <= v && v <= 0xD6) || (0xD8 <= v && v <= 0xF6) || (0xF8 <= v && v <= 0x2FF) || (0x370
        <= v && v <= 0x37D) || (0x37F <= v && v <= 0x1FFF) || (0x200C <= v && v <= 0x200D) || (
    0x2070 <= v && v <= 0x218F) || (0x2C00 <= v && v <= 0x2FEF) || (0x3001 <= v && v <= 0xD7FF)
        || (0xF900 <= v && v <= 0xFDCF) || (0xFDF0 <= v && v <= 0xFFFD) || (0x10000 <= v && v
        <= 0xEFFFF)
}

pub fn is_name_char(c: char) -> (r: bool)
    ensures
        r == spec_is_name_char(c),
{
    if is_name_start_char(c) {
        return true;
    }
    let v = c as u32;
    v == 0x2D || v == 0x2E || (0x30 <= v && v <= 0x39) || v == 0xB7 || (0x300 <= v && v <= 0x36F)
        || (0x203F <= v && v <= 0x2040)
}

} // verus!
