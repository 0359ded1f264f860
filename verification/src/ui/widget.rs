//! Names of UI widgets.
use vstd::prelude::*;
use vstd::string::*;
use vstd::utf8::*;

verus! {

/// The part of a label's text that goes into its name: texts longer than ten
/// bytes are cut to their first eight bytes.
pub open spec fn label_short(text: Seq<char>) -> Seq<char> {
    if encode_utf8(text).len() > 10 {
        decode_utf8(encode_utf8(text).subrange(0, 8))
    } else {
        text
    }
}

/// The entity name of a label with the given text: "Label " and the text,
/// shortened. The eighth byte of a text longer than ten bytes must end a
/// character.
pub fn label_name(text: &str) -> (name: String)
    requires
        text.spec_bytes().len() > 10 ==> is_char_boundary(text.spec_bytes(), 8),
    ensures
        name@ == "Label "@ + label_short(text@),
{
    let mut name = String::from_str("Label ");
    if text.as_bytes().len() > 10 {
        proof {
            encode_utf8_valid_utf8(text@);
        }
        let (short, _) = text.split_at(8);
        proof {
            encode_utf8_decode_utf8(short@);
            assert(short.spec_bytes() == encode_utf8(text@).subrange(0, 8));
            assert(short@ == label_short(text@));
        }
        name.append(short);
    } else {
        name.append(text);
    }
    proof {
        reveal_strlit("Label ");
    }
    name
}

} // verus!
