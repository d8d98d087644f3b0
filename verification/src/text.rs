//! Small verified string utilities shared by the rest of the crate.
use vstd::prelude::*;

verus! {

/// The Unicode `White_Space` property, which is what `char::is_whitespace`
/// tests.
pub open spec fn is_white_space(c: char) -> bool {
    let v = c as u32;
    ||| 0x09 <= v <= 0x0D
    ||| v == 0x20
    ||| v == 0x85
    ||| v == 0xA0
    ||| v == 0x1680
    ||| 0x2000 <= v <= 0x200A
    ||| v == 0x2028
    ||| v == 0x2029
    ||| v == 0x202F
    ||| v == 0x205F
    ||| v == 0x3000
}

/// Does the text hold a white-space character?
pub open spec fn has_white_space(s: Seq<char>) -> bool {
    exists|i: int| 0 <= i < s.len() && #[trigger] is_white_space(s[i])
}

/// Tests a character for the Unicode `White_Space` property.
pub fn char_is_white_space(c: char) -> (r: bool)
    ensures
        r == is_white_space(c),
{
    let v = c as u32;
    (0x09 <= v && v <= 0x0D) || v == 0x20 || v == 0x85 || v == 0xA0 || v == 0x1680 || (0x2000
        <= v && v <= 0x200A) || v == 0x2028 || v == 0x2029 || v == 0x202F || v == 0x205F || v
        == 0x3000
}

/// Does `s` contain a white-space character (as `s.contains(char::is_whitespace)`)?
pub fn contains_white_space(s: &str) -> (r: bool)
    ensures
        r == has_white_space(s@),
{
    let n = s.unicode_len();
    let mut i: usize = 0;
    while i < n
        invariant
            n == s@.len(),
            i <= n,
            forall|j: int| 0 <= j < i ==> !is_white_space(#[trigger] s@[j]),
        decreases n - i,
    {
        let c = s.get_char(i);
        if char_is_white_space(c) {
            return true;
        }
        i = i + 1;
    }
    false
}

/// Compares two string slices by their characters.
pub fn str_equal(a: &str, b: &str) -> (r: bool)
    ensures
        r == (a@ == b@),
{
    let x = a.to_owned();
    let y = b.to_owned();
    x == y
}

/// The decimal digit character of a value below ten.
pub open spec fn digit_char(d: nat) -> char {
    (48 + d) as char
}

/// The decimal digits of a natural number, most significant first, with no
/// leading zeros (and `"0"` for zero).
pub open spec fn decimal_digits(n: nat) -> Seq<char>
    decreases n,
{
    if n < 10 {
        seq![digit_char(n)]
    } else {
        decimal_digits(n / 10).push(digit_char(n % 10))
    }
}

/// The text that `to_string` gives of an integer: an optional minus sign
/// followed by its decimal digits.
pub open spec fn decimal(n: int) -> Seq<char> {
    if n < 0 {
        seq!['-'] + decimal_digits((-n) as nat)
    } else {
        decimal_digits(n as nat)
    }
}

/// The one-character text of a decimal digit.
fn digit_text(d: u64) -> (r: &'static str)
    requires
        d < 10,
    ensures
        r@ == seq![digit_char(d as nat)],
{
    proof {
        reveal_strlit("0");
        reveal_strlit("1");
        reveal_strlit("2");
        reveal_strlit("3");
        reveal_strlit("4");
        reveal_strlit("5");
        reveal_strlit("6");
        reveal_strlit("7");
        reveal_strlit("8");
        reveal_strlit("9");
    }
    let r = match d {
        0 => "0",
        1 => "1",
        2 => "2",
        3 => "3",
        4 => "4",
        5 => "5",
        6 => "6",
        7 => "7",
        8 => "8",
        _ => "9",
    };
    assert(r@ =~= seq![digit_char(d as nat)]);
    r
}

fn push_decimal_digits(s: &mut String, n: u64)
    ensures
        final(s)@ == old(s)@ + decimal_digits(n as nat),
    decreases n,
{
    if n >= 10 {
        push_decimal_digits(s, n / 10);
    }
    s.append(digit_text(n % 10));
    assert(decimal_digits(n as nat) == if n < 10 {
        seq![digit_char(n as nat)]
    } else {
        decimal_digits((n / 10) as nat).push(digit_char((n % 10) as nat))
    });
}

/// The decimal text of an `i32`, as `i32::to_string` writes it.
pub fn i32_to_decimal(n: i32) -> (r: String)
    ensures
        r@ == decimal(n as int),
{
    let mut s = String::new();
    if n < 0 {
        proof {
            reveal_strlit("-");
        }
        s.append("-");
        let m: i64 = n as i64;
        push_decimal_digits(&mut s, (-m) as u64);
    } else {
        push_decimal_digits(&mut s, n as u64);
    }
    s
}

} // verus!

verus! {

/// Does `pat` occur in `s` starting at index `i`?
pub open spec fn occurs_at(s: Seq<char>, pat: Seq<char>, i: int) -> bool {
    0 <= i && i + pat.len() <= s.len() && s.subrange(i, i + pat.len()) == pat
}

/// The first index at or after `from` where `pat` occurs in `s`, or -1.
pub open spec fn find_from(s: Seq<char>, pat: Seq<char>, from: int) -> int
    decreases s.len() - from,
{
    if from < 0 || from >= s.len() || from + pat.len() > s.len() {
        -1
    } else if occurs_at(s, pat, from) {
        from
    } else {
        find_from(s, pat, from + 1)
    }
}

/// `find_from` gives the least occurrence at or after `from`, if any.
pub proof fn lemma_find_from(s: Seq<char>, pat: Seq<char>, from: int)
    requires
        0 <= from,
        pat.len() > 0,
    ensures
        find_from(s, pat, from) == -1 || (from <= find_from(s, pat, from) && occurs_at(
            s,
            pat,
            find_from(s, pat, from),
        )),
        forall|j: int|
            from <= j && (find_from(s, pat, from) == -1 || j < find_from(s, pat, from))
                ==> !#[trigger] occurs_at(s, pat, j),
    decreases s.len() - from,
{
    if from >= s.len() || from + pat.len() > s.len() {
    } else if occurs_at(s, pat, from) {
    } else {
        lemma_find_from(s, pat, from + 1);
        assert forall|j: int|
            from <= j && (find_from(s, pat, from) == -1 || j < find_from(s, pat, from))
                implies !#[trigger] occurs_at(s, pat, j) by {
            if j > from {
                assert(from + 1 <= j);
            }
        }
    }
}

/// Finds the first occurrence of a non-empty pattern at or after `from`.
pub fn find_pattern(s: &str, pat: &str, from: usize) -> (r: Option<usize>)
    requires
        pat@.len() > 0,
        from <= s@.len(),
    ensures
        match r {
            None => find_from(s@, pat@, from as int) == -1,
            Some(i) => i == find_from(s@, pat@, from as int),
        },
{
    let n = s.unicode_len();
    let m = pat.unicode_len();
    proof {
        lemma_find_from(s@, pat@, from as int);
    }
    if m > n {
        return None;
    }
    let mut i: usize = from;
    while i <= n - m
        invariant
            n == s@.len(),
            m == pat@.len(),
            m > 0,
            m <= n,
            from <= i,
            i <= n,
            forall|j: int| from <= j < i ==> !#[trigger] occurs_at(s@, pat@, j),
            find_from(s@, pat@, from as int) == -1 || (from <= find_from(s@, pat@, from as int)
                && occurs_at(s@, pat@, find_from(s@, pat@, from as int))),
            forall|j: int|
                from <= j && (find_from(s@, pat@, from as int) == -1 || j < find_from(
                    s@,
                    pat@,
                    from as int,
                )) ==> !#[trigger] occurs_at(s@, pat@, j),
        decreases n - i,
    {
        let mut k: usize = 0;
        let mut same = true;
        while k < m
            invariant
                n == s@.len(),
                m == pat@.len(),
                i + m <= n,
                k <= m,
                same <==> forall|t: int| 0 <= t < k ==> s@[i + t] == pat@[t],
            decreases m - k,
        {
            if s.get_char(i + k) != pat.get_char(k) {
                same = false;
            }
            k = k + 1;
        }
        if same {
            assert(s@.subrange(i as int, i + m) =~= pat@);
            assert(occurs_at(s@, pat@, i as int));
            return Some(i);
        }
        assert(!(s@.subrange(i as int, i + m) =~= pat@));
        i = i + 1;
    }
    assert forall|j: int| from <= j implies !#[trigger] occurs_at(s@, pat@, j) by {
        if j >= i {
            assert(j + m > n);
        }
    }
    None
}

/// The first two pieces of `s` split at `sep` (as `split(sep)` gives them):
/// the text before the first separator, and the text between it and the
/// next one (or the end).
pub open spec fn first_two_pieces(s: Seq<char>, sep: Seq<char>) -> (Seq<char>, Seq<char>) {
    let i1 = find_from(s, sep, 0);
    let i2 = find_from(s, sep, i1 + sep.len());
    (s.subrange(0, i1), s.subrange(i1 + sep.len(), if i2 == -1 { s.len() as int } else { i2 }))
}

/// Splits at the first two occurrences of a separator that occurs in `s`.
pub fn split_first_two(s: &str, sep: &str) -> (r: (String, String))
    requires
        sep@.len() > 0,
        find_from(s@, sep@, 0) != -1,
    ensures
        (r.0@, r.1@) == first_two_pieces(s@, sep@),
{
    proof {
        lemma_find_from(s@, sep@, 0);
    }
    let n = s.unicode_len();
    let m = sep.unicode_len();
    let i1 = match find_pattern(s, sep, 0) {
        Some(i) => i,
        None => {
            return (String::new(), String::new());
        },
    };
    let first = String::from_str(s.substring_char(0, i1));
    let end = match find_pattern(s, sep, i1 + m) {
        Some(i2) => {
            proof {
                lemma_find_from(s@, sep@, i1 + m);
            }
            i2
        },
        None => n,
    };
    let second = String::from_str(s.substring_char(i1 + m, end));
    (first, second)
}

} // verus!
