//! The notice shown at the top of a page after a redirect, rebuilt from the
//! flash cookie that the redirect carried.
use vstd::prelude::*;
use crate::errors::{get_message_from_reason, reason_message};
use crate::text::{find_from, find_pattern, first_two_pieces, lemma_find_from, occurs_at, split_first_two, str_equal};

verus! {

/// A notice: its colour class, its text, and an optional second text.
pub struct Message<'a> {
    pub color: &'a str,
    pub text: String,
    pub optional: Option<String>,
}

/// The separator between the two texts of an `error_w_nick` flash.
pub open spec fn nick_separator() -> Seq<char> {
    ";;;"@
}

/// Can a flash of this kind and text be shown? Every kind can, but an
/// `error_w_nick` flash (that is not a login refusal) must hold the separator.
pub open spec fn flash_well_formed(kind: Seq<char>, text: Seq<char>) -> bool {
    (reason_message(kind, Some(text)) is None && kind == "error_w_nick"@) ==> find_from(
        text,
        nick_separator(),
        0,
    ) != -1
}

/// The notice that a flash of this kind and text gives: its colour, its
/// text and its second text; `None` for an unknown kind.
pub open spec fn flash_notice(kind: Seq<char>, text: Seq<char>) -> Option<
    (Seq<char>, Seq<char>, Option<Seq<char>>),
> {
    if let Some(m) = reason_message(kind, Some(text)) {
        Some(("danger"@, m, None))
    } else if kind == "error"@ {
        Some(("danger"@, text, None))
    } else if kind == "success"@ {
        Some(("success"@, text, None))
    } else if kind == "error_w_nick"@ {
        let pieces = first_two_pieces(text, nick_separator());
        Some(("danger"@, pieces.0, Some(pieces.1)))
    } else {
        None
    }
}

/// The view of a notice: colour, text and second text.
pub open spec fn notice_view(m: Message) -> (Seq<char>, Seq<char>, Option<Seq<char>>) {
    (
        m.color@,
        m.text@,
        match m.optional {
            None => None,
            Some(s) => Some(s@),
        },
    )
}

impl<'a> Message<'a> {
    /// Can a flash of this kind and text be shown (see `flash_well_formed`)?
    pub fn can_show(kind: &str, text: &str) -> (r: bool)
        ensures
            r == flash_well_formed(kind@, text@),
    {
        proof {
            reveal_strlit(";;;");
        }
        let is_login = str_equal(kind, "user does not exist") || str_equal(
            kind,
            "incorrect password",
        );
        if !is_login && str_equal(kind, "error_w_nick") {
            find_pattern(text, ";;;", 0).is_some()
        } else {
            true
        }
    }

    /// The notice for the flash that a redirect carried (its kind and text),
    /// if any.
    pub fn get_from_flash(flash: Option<(String, String)>) -> (r: Option<Message<'a>>)
        requires
            flash matches Some(f) ==> flash_well_formed(f.0@, f.1@),
        ensures
            match flash {
                None => r is None,
                Some(f) => match flash_notice(f.0@, f.1@) {
                    None => r is None,
                    Some(n) => r matches Some(m) && notice_view(m) == n,
                },
            },
    {
        match flash {
            None => None,
            Some(fl) => {
                let kind = fl.0.as_str();
                let text = fl.1.as_str();
                if let Some(t) = get_message_from_reason(kind, Some(text)) {
                    return Some(Message { color: "danger", text: t, optional: None });
                }
                if str_equal(kind, "error") {
                    Some(Message { color: "danger", text: fl.1.clone(), optional: None })
                } else if str_equal(kind, "success") {
                    Some(Message { color: "success", text: fl.1.clone(), optional: None })
                } else if str_equal(kind, "error_w_nick") {
                    proof {
                        reveal_strlit(";;;");
                    }
                    let (first, second) = split_first_two(text, ";;;");
                    Some(Message { color: "danger", text: first, optional: Some(second) })
                } else {
                    None
                }
            },
        }
    }
}

} // verus!

verus! {

/// A refused login carried by a redirect (its reason as the kind, the name
/// as the text) always gives a red notice with the login text and no
/// second text.
pub proof fn lemma_login_refusal_notice(e: crate::errors::LoginError)
    ensures
        flash_well_formed(crate::errors::login_reason(e), crate::errors::login_username(e)),
        flash_notice(crate::errors::login_reason(e), crate::errors::login_username(e)) == Some(
            (
                "danger"@,
                reason_message(
                    crate::errors::login_reason(e),
                    Some(crate::errors::login_username(e)),
                ).unwrap(),
                None::<Seq<char>>,
            ),
        ),
{
    crate::errors::lemma_login_reason_has_message(e);
}

proof fn lemma_kinds_are_not_login_reasons()
    ensures
        "success"@ != "user does not exist"@,
        "success"@ != "incorrect password"@,
        "error"@ != "user does not exist"@,
        "error"@ != "incorrect password"@,
        "error_w_nick"@ != "user does not exist"@,
        "error_w_nick"@ != "incorrect password"@,
        "error"@ != "success"@,
        "error_w_nick"@ != "success"@,
        "error_w_nick"@ != "error"@,
{
    reveal_strlit("success");
    reveal_strlit("error");
    reveal_strlit("error_w_nick");
    reveal_strlit("user does not exist");
    reveal_strlit("incorrect password");
    assert("success"@[0] != "user does not exist"@[0]);
    assert("success"@[0] != "incorrect password"@[0]);
    assert("error"@[0] != "user does not exist"@[0]);
    assert("error"@[0] != "incorrect password"@[0]);
    assert("error_w_nick"@[0] != "user does not exist"@[0]);
    assert("error_w_nick"@[0] != "incorrect password"@[0]);
    assert("error"@[0] != "success"@[0]);
    assert("error_w_nick"@[0] != "success"@[0]);
    assert("error_w_nick"@.len() != "error"@.len());
}

/// A `success` flash shows its text unchanged, whatever its length, in a
/// green notice; an `error` flash likewise in a red one; neither has a
/// second text.
pub proof fn lemma_plain_notices_keep_text(t: Seq<char>)
    ensures
        flash_well_formed("success"@, t),
        flash_well_formed("error"@, t),
        flash_notice("success"@, t) == Some(("success"@, t, None::<Seq<char>>)),
        flash_notice("error"@, t) == Some(("danger"@, t, None::<Seq<char>>)),
{
    lemma_kinds_are_not_login_reasons();
}

/// An `error_w_nick` flash whose text holds the separator shows, in a red
/// notice, the text before the first separator, and as its second text what
/// follows that separator up to the next one (or the end): the text starts
/// with the first piece, the separator and the second piece, and neither
/// piece holds the separator.
pub proof fn lemma_nick_notice_pieces(t: Seq<char>)
    requires
        find_from(t, nick_separator(), 0) != -1,
    ensures
        flash_well_formed("error_w_nick"@, t),
        flash_notice("error_w_nick"@, t) matches Some((c, a, Some(b))) && c == "danger"@ && t
            =~= a + nick_separator() + b + t.subrange(
            (a.len() + nick_separator().len() + b.len()) as int,
            t.len() as int,
        ) && (forall|j: int| 0 <= j && j + nick_separator().len() <= a.len() ==> !#[trigger] occurs_at(a, nick_separator(), j))
            && (forall|j: int| 0 <= j && j + nick_separator().len() <= b.len() ==> !#[trigger] occurs_at(b, nick_separator(), j))
            && (a.len() + nick_separator().len() + b.len() == t.len() || occurs_at(
            t,
            nick_separator(),
            (a.len() + nick_separator().len() + b.len()) as int,
        )),
{
    lemma_kinds_are_not_login_reasons();
    reveal_strlit(";;;");
    let sep = nick_separator();
    lemma_find_from(t, sep, 0);
    let i1 = find_from(t, sep, 0);
    lemma_find_from(t, sep, i1 + sep.len());
    let i2 = find_from(t, sep, i1 + sep.len());
    let a = t.subrange(0, i1);
    let end = if i2 == -1 { t.len() as int } else { i2 };
    let b = t.subrange(i1 + sep.len(), end);
    assert(t =~= a + sep + b + t.subrange((a.len() + sep.len() + b.len()) as int, t.len() as int));
    assert forall|j: int| 0 <= j && j + sep.len() <= a.len() implies !#[trigger] occurs_at(a, sep, j) by {
        if occurs_at(a, sep, j) {
            assert(t.subrange(j, j + sep.len()) =~= a.subrange(j, j + sep.len()));
            assert(occurs_at(t, sep, j));
        }
    }
    assert forall|j: int| 0 <= j && j + sep.len() <= b.len() implies !#[trigger] occurs_at(b, sep, j) by {
        if occurs_at(b, sep, j) {
            let k = i1 + sep.len() + j;
            assert(t.subrange(k, k + sep.len()) =~= b.subrange(j, j + sep.len()));
            assert(occurs_at(t, sep, k));
        }
    }
}

} // verus!
