//! Building HTML elements from text.
use vstd::prelude::*;
use vstd::utf8::{
    decode_utf8, encode_utf8, encode_utf8_decode_utf8, encode_utf8_valid_utf8, is_ascii_chars_encode_utf8,
    is_char_boundary, is_char_boundary_iff_not_is_continuation_byte,
};
use crate::sql::{join, joined, views};
use crate::text::{find_from, find_pattern, occurs_at};

verus! {

/// The closing name of an element: the head cut at its first space, where
/// the position of that space, counted in characters, is taken as a byte
/// position in the head's UTF-8 text; the whole head when it has no space.
pub open spec fn closing_name(head: Seq<char>) -> Seq<char> {
    let i = find_from(head, " "@, 0);
    if i == -1 {
        head
    } else {
        decode_utf8(encode_utf8(head).subrange(0, i))
    }
}

/// An element: `<head>body</name>` with the closing name of the head.
pub open spec fn tag_text(head: Seq<char>, body: Seq<char>) -> Seq<char> {
    "<"@ + head + ">"@ + body + "</"@ + closing_name(head) + ">"@
}

/// The head can be cut: the character position of its first space falls on
/// a character boundary of its UTF-8 text (cutting elsewhere panics).
pub open spec fn tag_head_ok(head: Seq<char>) -> bool {
    find_from(head, " "@, 0) != -1 ==> is_char_boundary(encode_utf8(head), find_from(head, " "@, 0))
}

/// An element with a head and the concatenated body parts.
pub fn tag_str(head: &str, parts: &Vec<String>) -> (r: String)
    requires
        tag_head_ok(head@),
    ensures
        r@ == tag_text(head@, joined(views(parts@), ""@)),
{
    let all = join(parts, "");
    proof {
        reveal_strlit(" ");
        crate::text::lemma_find_from(head@, " "@, 0);
    }
    let close = match find_pattern(head, " ", 0) {
        Some(index) => {
            let (close, _) = head.split_at(index);
            proof {
                encode_utf8_decode_utf8(close@);
            }
            close
        },
        None => head,
    };
    let mut r = String::from_str("<");
    r.append(head);
    r.append(">");
    r.append(all.as_str());
    r.append("</");
    r.append(close);
    r.append(">");
    r
}

/// The head made of words, each followed by a space.
pub open spec fn words_head(words: Seq<Seq<char>>) -> Seq<char>
    decreases words.len(),
{
    if words.len() == 0 {
        seq![]
    } else {
        words_head(words.drop_last()) + words.last() + " "@
    }
}

/// An element whose head is the given words, each followed by a space.
pub fn tag(words: &Vec<&str>, parts: &Vec<String>) -> (r: String)
    requires
        tag_head_ok(words_head(words@.map_values(|w: &str| w@))),
    ensures
        r@ == tag_text(words_head(words@.map_values(|w: &str| w@)), joined(views(parts@), ""@)),
{
    let mut head = String::new();
    let n = words.len();
    let mut i: usize = 0;
    while i < n
        invariant
            n == words@.len(),
            i <= n,
            head@ == words_head(words@.map_values(|w: &str| w@).take(i as int)),
        decreases n - i,
    {
        head.append(words[i]);
        head.append(" ");
        proof {
            let t = words@.map_values(|w: &str| w@).take(i + 1);
            assert(t.drop_last() =~= words@.map_values(|w: &str| w@).take(i as int));
        }
        i = i + 1;
    }
    assert(words@.map_values(|w: &str| w@).take(n as int) =~= words@.map_values(|w: &str| w@));
    tag_str(head.as_str(), parts)
}

/// A whole page: the doctype and an `html` element around the parts.
pub fn html(parts: &Vec<String>) -> (r: String)
    ensures
        r@ == "<!DOCTYPE html>"@ + tag_text("html "@, joined(views(parts@), ""@)),
{
    let s = join(parts, "");
    let body = vec![s];
    assert(joined(views(body@), ""@) == joined(views(parts@), ""@)) by {
        assert(views(body@) =~= seq![joined(views(parts@), ""@)]);
    }
    proof {
        reveal_strlit("html ");
        reveal_strlit(" ");
        reveal_with_fuel(find_from, 6);
        assert("html "@.subrange(0, 1)[0] != " "@[0]);
        assert("html "@.subrange(1, 2)[0] != " "@[0]);
        assert("html "@.subrange(2, 3)[0] != " "@[0]);
        assert("html "@.subrange(3, 4)[0] != " "@[0]);
        assert("html "@.subrange(4, 5) =~= " "@);
        assert(find_from("html "@, " "@, 0) == 4);
        is_ascii_chars_encode_utf8("html "@);
        encode_utf8_valid_utf8("html "@);
        assert(encode_utf8("html "@)[4] == 32);
        is_char_boundary_iff_not_is_continuation_byte(encode_utf8("html "@), 4);
        assert(tag_head_ok("html "@));
    }
    let element = tag_str("html ", &body);
    let mut r = String::from_str("<!DOCTYPE html>");
    r.append(element.as_str());
    r
}

} // verus!
