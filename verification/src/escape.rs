//! Escaping of characters inside shell command strings.
//!
//! The grant commands interpolate a filesystem path into a shell command
//! string rather than passing it as a discrete argument, so every character
//! the shell would treat as a word separator must be escaped. Two schemes
//! are used: a single backslash before each space for a string handed
//! directly to `sh -c`, and a doubled backslash for a string that first
//! passes through an AppleScript string literal (which consumes one level
//! of escaping). A third scheme backslash-escapes double quotes for a path
//! spliced into an AppleScript `do shell script "..."` literal.

use vstd::prelude::*;

verus! {

/// The escape block emitted for one character: `mark` is prepended to each
/// occurrence of `target`; every other character passes through unchanged.
pub open spec fn escaped_char(c: char, target: char, mark: Seq<char>) -> Seq<char> {
    if c == target {
        mark + seq![c]
    } else {
        seq![c]
    }
}

/// The whole input with `mark` prepended to each occurrence of `target`.
pub open spec fn escaped(s: Seq<char>, target: char, mark: Seq<char>) -> Seq<char>
    decreases s.len(),
{
    if s.len() == 0 {
        Seq::empty()
    } else {
        escaped(s.drop_last(), target, mark) + escaped_char(s.last(), target, mark)
    }
}

/// Prepends `mark` to every occurrence of `target` in `text`.
pub fn escape_with(text: &str, target: char, mark: &str) -> (r: String)
    ensures
        r@ == escaped(text@, target, mark@),
{
    let n = text.unicode_len();
    let mut out = String::new();
    let mut i: usize = 0;
    while i < n
        invariant
            i <= n,
            n == text@.len(),
            out@ == escaped(text@.subrange(0, i as int), target, mark@),
        decreases n - i,
    {
        let c = text.get_char(i);
        let piece = text.substring_char(i, i + 1);
        if c == target {
            out.append(mark);
            out.append(piece);
        } else {
            out.append(piece);
        }
        proof {
            let pre = text@.subrange(0, i as int);
            let cur = text@.subrange(0, i as int + 1);
            assert(cur.drop_last() =~= pre);
            assert(cur.last() == text@[i as int]);
            assert(piece@ =~= seq![text@[i as int]]);
            if c == target {
                assert(out@ =~= escaped(pre, target, mark@) + (mark@ + seq![text@[i as int]]));
            }
        }
        i = i + 1;
    }
    proof {
        assert(text@.subrange(0, n as int) =~= text@);
    }
    out
}

/// Escapes each space with a doubled backslash, for interpolation into a
/// shell command that is itself embedded in an AppleScript string literal.
pub fn escape(text: &str) -> (r: String)
    ensures
        r@ == escaped(text@, ' ', seq!['\\', '\\']),
{
    proof {
        reveal_strlit("\\\\");
        assert(("\\\\")@ =~= seq!['\\', '\\']);
    }
    escape_with(text, ' ', "\\\\")
}

/// Escapes each space with a single backslash, for interpolation into a
/// command string handed directly to `sh -c`.
pub fn escape_single(text: &str) -> (r: String)
    ensures
        r@ == escaped(text@, ' ', seq!['\\']),
{
    proof {
        reveal_strlit("\\");
        assert(("\\")@ =~= seq!['\\']);
    }
    escape_with(text, ' ', "\\")
}

/// Every space is preceded by exactly one backslash: the character just
/// before it is a backslash, and the one before that (if any) is not.
pub open spec fn singly_space_escaped(e: Seq<char>) -> bool {
    forall|i: int|
        0 <= i < e.len() && #[trigger] e[i] == ' ' ==> 1 <= i && e[i - 1] == '\\' && (2 <= i
            ==> e[i - 2] != '\\')
}

/// Every space is preceded by exactly two backslashes.
pub open spec fn doubly_space_escaped(e: Seq<char>) -> bool {
    forall|i: int|
        0 <= i < e.len() && #[trigger] e[i] == ' ' ==> 2 <= i && e[i - 1] == '\\' && e[i - 2]
            == '\\' && (3 <= i ==> e[i - 3] != '\\')
}

/// Law: single space-escaping of a path free of backslashes leaves every
/// space preceded by exactly one backslash, so no space of the path remains
/// a shell word separator; the result also never ends in a stray backslash.
pub proof fn lemma_escape_single_space(s: Seq<char>)
    requires
        forall|j: int| 0 <= j < s.len() ==> s[j] != '\\',
    ensures
        singly_space_escaped(escaped(s, ' ', seq!['\\'])),
        escaped(s, ' ', seq!['\\']).len() > 0 ==> escaped(s, ' ', seq!['\\']).last() != '\\',
    decreases s.len(),
{
    let mark = seq!['\\'];
    let e = escaped(s, ' ', mark);
    if s.len() > 0 {
        let s0 = s.drop_last();
        lemma_escape_single_space(s0);
        let e0 = escaped(s0, ' ', mark);
        let b = escaped_char(s.last(), ' ', mark);
        assert(e == e0 + b);
        assert(s.last() != '\\');
        if s.last() == ' ' {
            assert(b =~= seq!['\\', ' ']);
        } else {
            assert(b =~= seq![s.last()]);
        }
        assert forall|i: int| 0 <= i < e.len() && #[trigger] e[i] == ' ' implies 1 <= i && e[i - 1]
            == '\\' && (2 <= i ==> e[i - 2] != '\\') by {
            if i < e0.len() {
                assert(e[i] == e0[i]);
            } else {
                assert(s.last() == ' ');
                assert(i == e0.len() + 1);
                if 2 <= i {
                    assert(e[i - 2] == e0[e0.len() - 1]);
                }
            }
        }
    }
}

/// Law: double space-escaping of a path free of backslashes leaves every
/// space preceded by exactly two backslashes, so that after the AppleScript
/// carrier consumes one level the shell still sees each space escaped; the
/// result also never ends in a stray backslash.
pub proof fn lemma_escape_double_space(s: Seq<char>)
    requires
        forall|j: int| 0 <= j < s.len() ==> s[j] != '\\',
    ensures
        doubly_space_escaped(escaped(s, ' ', seq!['\\', '\\'])),
        escaped(s, ' ', seq!['\\', '\\']).len() > 0 ==> escaped(s, ' ', seq!['\\', '\\']).last()
            != '\\',
    decreases s.len(),
{
    let mark = seq!['\\', '\\'];
    let e = escaped(s, ' ', mark);
    if s.len() > 0 {
        let s0 = s.drop_last();
        lemma_escape_double_space(s0);
        let e0 = escaped(s0, ' ', mark);
        let b = escaped_char(s.last(), ' ', mark);
        assert(e == e0 + b);
        assert(s.last() != '\\');
        if s.last() == ' ' {
            assert(b =~= seq!['\\', '\\', ' ']);
        } else {
            assert(b =~= seq![s.last()]);
        }
        assert forall|i: int| 0 <= i < e.len() && #[trigger] e[i] == ' ' implies 2 <= i && e[i - 1]
            == '\\' && e[i - 2] == '\\' && (3 <= i ==> e[i - 3] != '\\') by {
            if i < e0.len() {
                assert(e[i] == e0[i]);
            } else {
                assert(s.last() == ' ');
                assert(i == e0.len() + 2);
                if 3 <= i {
                    assert(e[i - 3] == e0[e0.len() - 1]);
                }
            }
        }
    }
}

/// Escapes each double quote with a backslash, so that the path can stand
/// inside an AppleScript `do shell script "..."` string literal.
pub fn escape_for_apple_script(path: &str) -> (r: String)
    ensures
        r@ == escaped(path@, '"', seq!['\\']),
{
    proof {
        reveal_strlit("\\");
        assert(("\\")@ =~= seq!['\\']);
    }
    escape_with(path, '"', "\\")
}

} // verus!
