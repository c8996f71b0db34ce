use vstd::prelude::*;
use vstd::string::StrSliceExecFns;
use crate::mailbox::opt_view;

verus! {

/// A space or a tab: what confindent indents with.
pub open spec fn indent_char(c: char) -> bool {
    c == ' ' || c == '\t'
}

/// The ASCII whitespace that can open a line: space, tab, carriage return
/// and form feed.
pub open spec fn lead_char(c: char) -> bool {
    c == ' ' || c == '\t' || c == '\r' || c == '\u{c}'
}

/// Unicode white space, as `char::is_whitespace` documents it.
pub open spec fn unicode_space(c: char) -> bool {
    let u = c as u32;
    (9 <= u <= 13) || u == 32 || u == 0x85 || u == 0xa0 || u == 0x1680 || (0x2000 <= u <= 0x200a)
        || u == 0x2028 || u == 0x2029 || u == 0x202f || u == 0x205f || u == 0x3000
}

/// The end of the line that holds position `i`: the next line feed, or the
/// end of the text.
pub open spec fn line_end(t: Seq<char>, i: int) -> int
    decreases t.len() - i,
{
    if i < 0 || i >= t.len() || t[i] == '\n' {
        i
    } else {
        line_end(t, i + 1)
    }
}

/// Whether `t[s..e]` holds a character that is not white space.
pub open spec fn nonblank(t: Seq<char>, s: int, e: int) -> bool {
    exists|k: int| s <= k < e && !unicode_space(#[trigger] t[k])
}

/// Whether the leading ASCII white space of `t[s..e]` holds a carriage
/// return or a form feed.
pub open spec fn lead_bad(t: Seq<char>, s: int, e: int) -> bool {
    exists|k: int|
        s <= k < e && (forall|m: int| s <= m < k ==> lead_char(#[trigger] t[m])) && (#[trigger] t[k]
            == '\r' || t[k] == '\u{c}')
}

/// Whether confindent's parser answers on the lines from position `pos` on,
/// `seen` telling whether an earlier line is neither blank nor a top-level
/// comment. It does not on a non-blank line whose leading white space holds
/// a carriage return or a form feed, nor on an indented non-blank line that
/// follows other lines when no earlier line is neither blank nor a top-level
/// comment.
pub open spec fn safe_from(t: Seq<char>, pos: int, seen: bool) -> bool
    decreases t.len() - pos,
{
    if pos < 0 || pos > t.len() {
        true
    } else {
        let e = line_end(t, pos);
        let nb = nonblank(t, pos, e);
        let bad = nb && (lead_bad(t, pos, e) || (pos < e && indent_char(t[pos]) && pos > 0
            && !seen));
        if bad {
            false
        } else if e < pos || e >= t.len() {
            true
        } else {
            safe_from(t, e + 1, seen || (nb && !(pos < e && t[pos] == '#')))
        }
    }
}

/// Texts on which confindent's parser runs to an answer.
pub open spec fn config_safe(t: Seq<char>) -> bool {
    safe_from(t, 0, false)
}

proof fn line_end_bounds(t: Seq<char>, i: int)
    requires
        0 <= i <= t.len(),
    ensures
        i <= line_end(t, i) <= t.len(),
        line_end(t, i) < t.len() ==> t[line_end(t, i)] == '\n',
        forall|m: int| i <= m < line_end(t, i) ==> t[m] != '\n',
    decreases t.len() - i,
{
    if i < t.len() && t[i] != '\n' {
        line_end_bounds(t, i + 1);
    }
}

fn is_unicode_space(c: char) -> (r: bool)
    ensures
        r == unicode_space(c),
{
    let u = c as u32;
    (9 <= u && u <= 13) || u == 32 || u == 0x85 || u == 0xa0 || u == 0x1680 || (0x2000 <= u && u
        <= 0x200a) || u == 0x2028 || u == 0x2029 || u == 0x202f || u == 0x205f || u == 0x3000
}

/// Whether `text` is a text on which confindent's parser is known to answer.
pub fn config_is_safe(text: &str) -> (r: bool)
    ensures
        r == config_safe(text@),
{
    let ghost t = text@;
    let n = text.unicode_len();
    let mut pos: usize = 0;
    let mut seen = false;
    while pos <= n
        invariant
            n == t.len(),
            t == text@,
            pos <= n,
            config_safe(t) == safe_from(t, pos as int, seen),
        decreases n - pos,
    {
        proof {
            line_end_bounds(t, pos as int);
        }
        let mut e: usize = pos;
        while e < n && text.get_char(e) != '\n'
            invariant
                n == t.len(),
                t == text@,
                pos <= e <= n,
                line_end(t, pos as int) == line_end(t, e as int),
            decreases n - e,
        {
            e = e + 1;
        }
        assert(line_end(t, pos as int) == e);
        let mut nb = false;
        let mut k: usize = pos;
        while k < e
            invariant
                n == t.len(),
                t == text@,
                pos <= k <= e <= n,
                nb == exists|j: int| pos <= j < k && !unicode_space(#[trigger] t[j]),
            decreases e - k,
        {
            let c = text.get_char(k);
            if !is_unicode_space(c) {
                nb = true;
            }
            k = k + 1;
        }
        let mut k: usize = pos;
        while k < e && (text.get_char(k) == ' ' || text.get_char(k) == '\t')
            invariant
                n == t.len(),
                t == text@,
                pos <= k <= e <= n,
                forall|m: int| pos <= m < k ==> indent_char(#[trigger] t[m]),
            decreases e - k,
        {
            k = k + 1;
        }
        let bad_lead = k < e && (text.get_char(k) == '\r' || text.get_char(k) == '\u{c}');
        proof {
            if bad_lead {
                assert(forall|m: int| pos <= m < k ==> lead_char(#[trigger] t[m]));
                assert(lead_bad(t, pos as int, e as int));
            } else if lead_bad(t, pos as int, e as int) {
                let w = choose|w: int|
                    pos <= w < e && (forall|m: int| pos <= m < w ==> lead_char(#[trigger] t[m])) && (
                    #[trigger] t[w] == '\r' || t[w] == '\u{c}');
                if w < k {
                    assert(indent_char(t[w]));
                } else if w > k {
                    assert(lead_char(t[k as int]));
                    assert(k < e);
                    assert(!indent_char(t[k as int]));
                }
            }
        }
        let indented = pos < e && (text.get_char(pos) == ' ' || text.get_char(pos) == '\t');
        if nb && (bad_lead || (indented && pos > 0 && !seen)) {
            return false;
        }
        if e >= n {
            return true;
        }
        let comment = pos < e && text.get_char(pos) == '#';
        seen = seen || (nb && !comment);
        pos = e + 1;
    }
    true
}

/// Whether confindent parses the text as a configuration document.
pub uninterp spec fn config_parses(text: Seq<char>) -> bool;

/// The value of the top-level entry `key` in the configuration document
/// that confindent parses from the text; nothing where the text does not
/// parse, the entry is absent or it has no value.
pub uninterp spec fn config_child(text: Seq<char>, key: Seq<char>) -> Option<Seq<char>>;

/// Relies on confindent's `FromStr for Confindent`: whether it accepts the text.
#[verifier::external_body]
pub(crate) fn confindent_parses(text: &str) -> (r: bool)
    requires
        config_safe(text@),
    ensures
        r == config_parses(text@),
{
    text.parse::<confindent::Confindent>().is_ok()
}

/// Relies on confindent's `FromStr for Confindent` and
/// `Confindent::child_owned`: the value of the entry `key`.
#[verifier::external_body]
pub(crate) fn confindent_child(text: &str, key: &str) -> (r: Option<String>)
    requires
        config_safe(text@),
    ensures
        opt_view(r) == config_child(text@, key@),
        !config_parses(text@) ==> r is None,
{
    text.parse::<confindent::Confindent>().ok().and_then(|c| c.child_owned(key))
}

} // verus!
