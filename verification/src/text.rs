//! Text made of single-byte characters.

use vstd::prelude::*;

verus! {

/// `String::push` of the standard library appends the given character to
/// the end of the string and changes nothing else.
pub assume_specification[ String::push ](text: &mut String, ch: char)
    ensures
        final(text)@ == old(text)@.push(ch),
;

/// The characters whose code points are the given bytes, one for one.
pub open spec fn ascii_text(bytes: Seq<u8>) -> Seq<char> {
    bytes.map_values(|b: u8| b as char)
}

/// Whether `b` is a printable ASCII character, a space or a tab.
pub open spec fn is_visible_ascii(b: u8) -> bool {
    0x20 <= b < 0x7f || b == 0x09
}

/// Whether every byte of `bytes` is visible ASCII.
pub open spec fn all_visible_ascii(bytes: Seq<u8>) -> bool {
    forall|i: int| 0 <= i < bytes.len() ==> is_visible_ascii(#[trigger] bytes[i])
}

/// What a header value reads as: its bytes as characters if all of them are
/// visible ASCII, nothing otherwise.
pub open spec fn visible_text_of(bytes: Seq<u8>) -> Option<Seq<char>> {
    if all_visible_ascii(bytes) {
        Some(ascii_text(bytes))
    } else {
        None
    }
}

/// Reads a header value as text. A value that holds a byte outside visible
/// ASCII has no text.
pub fn visible_text(bytes: &[u8]) -> (text: Option<String>)
    ensures
        match text {
            Some(t) => visible_text_of(bytes@) == Some(t@),
            None => visible_text_of(bytes@) is None,
        },
{
    let mut out = String::new();
    let mut i: usize = 0;
    while i < bytes.len()
        invariant
            i <= bytes.len(),
            all_visible_ascii(bytes@.take(i as int)),
            out@ == ascii_text(bytes@.take(i as int)),
        decreases bytes.len() - i,
    {
        let b: u8 = bytes[i];
        if !((0x20 <= b && b < 0x7f) || b == 0x09) {
            assert(!is_visible_ascii(bytes@[i as int]));
            return None;
        }
        out.push(b as char);
        proof {
            let before = bytes@.take(i as int);
            let after = bytes@.take(i + 1);
            assert(after =~= before.push(b));
            assert(ascii_text(after) =~= ascii_text(before).push(b as char));
        }
        i = i + 1;
    }
    assert(bytes@.take(i as int) =~= bytes@);
    Some(out)
}

} // verus!
