//! Text helpers for the short previews shown to the operator.

use vstd::prelude::*;
use vstd::string::*;
use vstd::utf8::*;

verus! {

/// The two characters that mark a preview as cut.
pub open spec fn ellipsis() -> Seq<char> {
    seq!['.', '.']
}

/// Where a text with the UTF-8 encoding `bytes` is cut for a limit of `limit`
/// bytes: at the last character boundary that is not behind the limit.
pub open spec fn cut_point(bytes: Seq<u8>, limit: nat) -> nat
    decreases limit,
{
    if limit == 0 || is_char_boundary(bytes, limit as int) {
        limit
    } else {
        cut_point(bytes, (limit - 1) as nat)
    }
}

/// The preview of `text`: the text itself while its UTF-8 encoding is shorter
/// than `max_len` bytes, otherwise what comes before the cut point, followed
/// by "..".
pub open spec fn shortened(text: Seq<char>, max_len: nat) -> Seq<char> {
    let bytes = encode_utf8(text);
    if bytes.len() < max_len {
        text
    } else {
        decode_utf8(bytes.subrange(0, cut_point(bytes, max_len) as int)) + ellipsis()
    }
}

/// Cuts `text` down to a preview: a text of fewer than `max_len` bytes comes
/// back whole, a longer one is cut after `max_len` bytes and marked with "..".
/// Lengths are counted in bytes of the UTF-8 encoding; a cut that would split
/// a character moves back to the start of that character.
pub fn shortened_text(text: &str, max_len: usize) -> (res: String)
    ensures
        res@ == shortened(text@, max_len as nat),
{
    if text.as_bytes().len() < max_len {
        text.to_owned()
    } else {
        let ghost bytes = encode_utf8(text@);
        proof {
            encode_utf8_valid_utf8(text@);
        }
        let mut cut: usize = max_len;
        while !text.is_char_boundary(cut)
            invariant
                bytes == text.spec_bytes(),
                valid_utf8(bytes),
                cut <= max_len,
                cut_point(bytes, cut as nat) == cut_point(bytes, max_len as nat),
            decreases cut,
        {
            cut = cut - 1;
        }
        let (head, _) = text.split_at(cut);
        let mut out = head.to_owned();
        out.append("..");
        proof {
            reveal_strlit("..");
            encode_utf8_decode_utf8(head@);
        }
        out
    }
}

} // verus!
