//! Text handling of the clients: trimming user input and checking e-mail
//! addresses.

use vstd::prelude::*;
use vstd::string::StrSliceExecFns;

verus! {

/// Whether `c` has the Unicode property `White_Space`, which is what
/// `char::is_whitespace` tests.
pub open spec fn is_white_space(c: char) -> bool {
    let x = c as u32;
    (0x9 <= x <= 0xd) || x == 0x20 || x == 0x85 || x == 0xa0 || x == 0x1680 || (0x2000 <= x
        <= 0x200a) || x == 0x2028 || x == 0x2029 || x == 0x202f || x == 0x205f || x == 0x3000
}

/// `s` without its leading white space.
pub open spec fn trim_start(s: Seq<char>) -> Seq<char>
    decreases s.len(),
{
    if s.len() > 0 && is_white_space(s[0]) {
        trim_start(s.drop_first())
    } else {
        s
    }
}

/// `s` without its trailing white space.
pub open spec fn trim_end(s: Seq<char>) -> Seq<char>
    decreases s.len(),
{
    if s.len() > 0 && is_white_space(s.last()) {
        trim_end(s.drop_last())
    } else {
        s
    }
}

/// `s` without its leading and trailing white space (what `str::trim` gives).
pub open spec fn trim(s: Seq<char>) -> Seq<char> {
    trim_end(trim_start(s))
}

/// The characters that trimming strips are exactly those of the Unicode
/// property `White_Space` (`char::is_whitespace`): the controls tab, line
/// feed, vertical tab, form feed and carriage return, the space, next line,
/// no-break space, Ogham space mark, the spaces U+2000 to U+200A, the line
/// and paragraph separators, the narrow no-break space, the medium
/// mathematical space and the ideographic space; no other character.
pub proof fn lemma_white_space_characters(c: char)
    ensures
        is_white_space('\t') && is_white_space('\n') && is_white_space('\u{b}') && is_white_space(
            '\u{c}',
        ) && is_white_space('\r') && is_white_space(' '),
        is_white_space('\u{85}') && is_white_space('\u{a0}') && is_white_space('\u{1680}'),
        is_white_space('\u{2000}') && is_white_space('\u{2001}') && is_white_space('\u{2002}')
            && is_white_space('\u{2003}') && is_white_space('\u{2004}') && is_white_space(
            '\u{2005}',
        ) && is_white_space('\u{2006}') && is_white_space('\u{2007}') && is_white_space(
            '\u{2008}',
        ) && is_white_space('\u{2009}') && is_white_space('\u{200a}'),
        is_white_space('\u{2028}') && is_white_space('\u{2029}') && is_white_space('\u{202f}')
            && is_white_space('\u{205f}') && is_white_space('\u{3000}'),
        is_white_space(c) ==> c == '\t' || c == '\n' || c == '\u{b}' || c == '\u{c}' || c == '\r'
            || c == ' ' || c == '\u{85}' || c == '\u{a0}' || c == '\u{1680}' || ('\u{2000}' as u32
            <= c as u32 <= '\u{200a}' as u32) || c == '\u{2028}' || c == '\u{2029}' || c
            == '\u{202f}' || c == '\u{205f}' || c == '\u{3000}',
{
}

/// A string of white space only trims to nothing.
proof fn lemma_trim_start_all_white(ws: Seq<char>)
    requires
        forall|i: int| 0 <= i < ws.len() ==> is_white_space(#[trigger] ws[i]),
    ensures
        trim_start(ws) == Seq::<char>::empty(),
    decreases ws.len(),
{
    if ws.len() > 0 {
        let t = ws.drop_first();
        assert forall|i: int| 0 <= i < t.len() implies is_white_space(#[trigger] t[i]) by {
            assert(t[i] == ws[i + 1]);
        }
        lemma_trim_start_all_white(t);
    }
}

/// White space appended after `x` is dropped by `trim_end`.
proof fn lemma_trim_end_append_white(x: Seq<char>, ws: Seq<char>)
    requires
        forall|i: int| 0 <= i < ws.len() ==> is_white_space(#[trigger] ws[i]),
    ensures
        trim_end(x + ws) == trim_end(x),
    decreases ws.len(),
{
    if ws.len() == 0 {
        assert(x + ws =~= x);
    } else {
        let w = ws.drop_last();
        assert((x + ws).last() == ws[ws.len() - 1]);
        assert((x + ws).drop_last() =~= x + w);
        assert forall|i: int| 0 <= i < w.len() implies is_white_space(#[trigger] w[i]) by {
            assert(w[i] == ws[i]);
        }
        lemma_trim_end_append_white(x, w);
    }
}

/// Trimming ignores any white space that follows the text, such as the
/// line ending ("\n" or "\r\n") that a line read from the terminal ends with.
pub proof fn lemma_trim_ignores_trailing_white_space(s: Seq<char>, ws: Seq<char>)
    requires
        forall|i: int| 0 <= i < ws.len() ==> is_white_space(#[trigger] ws[i]),
    ensures
        trim(s + ws) == trim(s),
    decreases s.len(),
{
    if s.len() == 0 {
        assert(s + ws =~= ws);
        lemma_trim_start_all_white(ws);
    } else if is_white_space(s[0]) {
        assert((s + ws)[0] == s[0]);
        assert((s + ws).drop_first() =~= s.drop_first() + ws);
        lemma_trim_ignores_trailing_white_space(s.drop_first(), ws);
    } else {
        assert((s + ws)[0] == s[0]);
        lemma_trim_end_append_white(s, ws);
    }
}

/// The address typed by the user is the same whether the line read ends
/// in "\n" (Unix), in "\r\n" (Windows) or in nothing: `parse_email`, whose
/// result is fixed by `trim(input)`, answers the same for all three.
pub proof fn lemma_line_endings_do_not_matter(s: Seq<char>)
    ensures
        trim(s + seq!['\r', '\n']) == trim(s),
        trim(s + seq!['\n']) == trim(s),
        email_is_valid(trim(s + seq!['\r', '\n'])) == email_is_valid(trim(s)),
{
    let crlf = seq!['\r', '\n'];
    let lf = seq!['\n'];
    assert(is_white_space('\r') && is_white_space('\n'));
    assert forall|i: int| 0 <= i < crlf.len() implies is_white_space(#[trigger] crlf[i]) by {}
    assert forall|i: int| 0 <= i < lf.len() implies is_white_space(#[trigger] lf[i]) by {}
    lemma_trim_ignores_trailing_white_space(s, crlf);
    lemma_trim_ignores_trailing_white_space(s, lf);
}

/// `trim_start` drops exactly the leading white space: it returns the rest
/// of `s` from the first character that is not white space.
proof fn lemma_trim_start_shape(s: Seq<char>) -> (i: int)
    ensures
        0 <= i <= s.len(),
        trim_start(s) == s.subrange(i, s.len() as int),
        forall|k: int| 0 <= k < i ==> is_white_space(#[trigger] s[k]),
        i < s.len() ==> !is_white_space(s[i]),
    decreases s.len(),
{
    if s.len() > 0 && is_white_space(s[0]) {
        let t = s.drop_first();
        let i1 = lemma_trim_start_shape(t);
        assert(t.subrange(i1, t.len() as int) =~= s.subrange(i1 + 1, s.len() as int));
        assert forall|k: int| 0 <= k < i1 + 1 implies is_white_space(#[trigger] s[k]) by {
            if k > 0 {
                assert(s[k] == t[k - 1]);
            }
        }
        if i1 + 1 < s.len() {
            assert(s[i1 + 1] == t[i1]);
        }
        i1 + 1
    } else {
        assert(s.subrange(0, s.len() as int) =~= s);
        0
    }
}

/// `trim_end` drops exactly the trailing white space: it returns `s` up to
/// the last character that is not white space.
proof fn lemma_trim_end_shape(s: Seq<char>) -> (j: int)
    ensures
        0 <= j <= s.len(),
        trim_end(s) == s.subrange(0, j),
        forall|k: int| j <= k < s.len() ==> is_white_space(#[trigger] s[k]),
        j > 0 ==> !is_white_space(s[j - 1]),
    decreases s.len(),
{
    if s.len() > 0 && is_white_space(s.last()) {
        let t = s.drop_last();
        let j1 = lemma_trim_end_shape(t);
        assert(t.subrange(0, j1) =~= s.subrange(0, j1));
        assert forall|k: int| j1 <= k < s.len() implies is_white_space(#[trigger] s[k]) by {
            if k < s.len() - 1 {
                assert(s[k] == t[k]);
            }
        }
        if j1 > 0 {
            assert(s[j1 - 1] == t[j1 - 1]);
        }
        j1
    } else {
        assert(s.subrange(0, s.len() as int) =~= s);
        s.len() as int
    }
}

/// What trimming gives: a contiguous piece `s[i..j]` of the input, such that
/// everything before `i` and from `j` on is white space, and the piece
/// neither starts nor ends with white space (it is empty only when all of
/// `s` is white space).
pub proof fn lemma_trim_shape(s: Seq<char>)
    ensures
        exists|i: int, j: int|
            {
                &&& 0 <= i <= j <= s.len()
                &&& trim(s) == s.subrange(i, j)
                &&& forall|k: int| 0 <= k < i ==> is_white_space(#[trigger] s[k])
                &&& forall|k: int| j <= k < s.len() ==> is_white_space(#[trigger] s[k])
                &&& i < j ==> !is_white_space(s[i]) && !is_white_space(s[j - 1])
            },
{
    let i = lemma_trim_start_shape(s);
    let u = s.subrange(i, s.len() as int);
    let j0 = lemma_trim_end_shape(u);
    let j = i + j0;
    assert(u.subrange(0, j0) =~= s.subrange(i, j));
    assert forall|k: int| j <= k < s.len() implies is_white_space(#[trigger] s[k]) by {
        assert(s[k] == u[k - i]);
    }
    if i < j {
        assert(s[i] == u[0]);
        assert(s[j - 1] == u[j0 - 1]);
    }
}

/// Whether `c` is white space.
pub fn is_white_space_char(c: char) -> (res: bool)
    ensures
        res == is_white_space(c),
{
    let x = c as u32;
    (0x9 <= x && x <= 0xd) || x == 0x20 || x == 0x85 || x == 0xa0 || x == 0x1680 || (0x2000 <= x
        && x <= 0x200a) || x == 0x2028 || x == 0x2029 || x == 0x202f || x == 0x205f || x == 0x3000
}

proof fn lemma_trim_start_skip(s: Seq<char>, i: int)
    requires
        0 <= i <= s.len(),
        forall|j: int| 0 <= j < i ==> is_white_space(#[trigger] s[j]),
    ensures
        trim_start(s) == trim_start(s.subrange(i, s.len() as int)),
    decreases i,
{
    if i == 0 {
        assert(s.subrange(0, s.len() as int) =~= s);
    } else {
        let t = s.drop_first();
        assert(is_white_space(s[0]));
        assert forall|j: int| 0 <= j < i - 1 implies is_white_space(#[trigger] t[j]) by {
            assert(t[j] == s[j + 1]);
        }
        lemma_trim_start_skip(t, i - 1);
        assert(t.subrange(i - 1, t.len() as int) =~= s.subrange(i, s.len() as int));
    }
}

proof fn lemma_trim_end_skip(s: Seq<char>, j: int)
    requires
        0 <= j <= s.len(),
        forall|k: int| j <= k < s.len() ==> is_white_space(#[trigger] s[k]),
    ensures
        trim_end(s) == trim_end(s.subrange(0, j)),
    decreases s.len() - j,
{
    if j == s.len() {
        assert(s.subrange(0, j) =~= s);
    } else {
        let t = s.drop_last();
        assert(is_white_space(s.last()));
        assert forall|k: int| j <= k < t.len() implies is_white_space(#[trigger] t[k]) by {
            assert(t[k] == s[k]);
        }
        lemma_trim_end_skip(t, j);
        assert(t.subrange(0, j) =~= s.subrange(0, j));
    }
}

/// `s` without its leading and trailing white space.
pub fn trim_white_space(s: &str) -> (res: &str)
    ensures
        res@ == trim(s@),
{
    let n = s.unicode_len();
    let mut i: usize = 0;
    while i < n && is_white_space_char(s.get_char(i))
        invariant
            i <= n,
            n == s@.len(),
            forall|j: int| 0 <= j < i ==> is_white_space(#[trigger] s@[j]),
        decreases n - i,
    {
        i = i + 1;
    }
    proof {
        lemma_trim_start_skip(s@, i as int);
        assert(trim_start(s@.subrange(i as int, n as int)) == s@.subrange(i as int, n as int));
    }
    let mut j: usize = n;
    while j > i && is_white_space_char(s.get_char(j - 1))
        invariant
            i <= j <= n,
            n == s@.len(),
            forall|k: int| j <= k < n ==> is_white_space(#[trigger] s@[k]),
        decreases j - i,
    {
        j = j - 1;
    }
    proof {
        let u = s@.subrange(i as int, n as int);
        assert forall|k: int| (j - i) <= k < u.len() implies is_white_space(#[trigger] u[k]) by {
            assert(u[k] == s@[k + i]);
        }
        lemma_trim_end_skip(u, j - i);
        assert(u.subrange(0, j - i) =~= s@.subrange(i as int, j as int));
        let w = s@.subrange(i as int, j as int);
        if w.len() > 0 {
            assert(w.last() == s@[j - 1]);
        }
    }
    s.substring_char(i, j)
}

/// Whether `serde_email` accepts `raw` as an e-mail address
/// (`serde_email::is_valid_email`, itself `email_address::EmailAddress::is_valid`).
pub uninterp spec fn email_is_valid(raw: Seq<char>) -> bool;

/// `serde_email::Email::from_str` followed by `to_string`: the address
/// itself, unchanged, when it is valid.
#[verifier::external_body]
fn email_from_str(raw: &str) -> (res: Option<String>)
    ensures
        res is Some <==> email_is_valid(raw@),
        res matches Some(e) ==> e@ == raw@,
{
    match serde_email::Email::from_str(raw) {
        Ok(email) => Some(email.to_string()),
        Err(_) => None,
    }
}

/// The e-mail address typed by the user: the input without surrounding
/// white space, when it is a valid address.
pub fn parse_email(input: &str) -> (res: Option<String>)
    ensures
        res is Some <==> email_is_valid(trim(input@)),
        res matches Some(e) ==> e@ == trim(input@),
{
    email_from_str(trim_white_space(input))
}

/// Whether the confirmation typed by the user is the password itself, as
/// the registration prompts ask until it is.
pub fn passwords_match(password: &str, confirmation: &str) -> (ok: bool)
    ensures
        ok == (password@ == confirmation@),
{
    let n = password.unicode_len();
    if n != confirmation.unicode_len() {
        return false;
    }
    let mut i: usize = 0;
    while i < n
        invariant
            i <= n,
            n == password@.len(),
            n == confirmation@.len(),
            forall|j: int| 0 <= j < i ==> password@[j] == confirmation@[j],
        decreases n - i,
    {
        if password.get_char(i) != confirmation.get_char(i) {
            return false;
        }
        i = i + 1;
    }
    proof {
        assert(password@ =~= confirmation@);
    }
    true
}

} // verus!
