//! Quoting a string for a POSIX shell.

use vstd::prelude::*;
use vstd::string::StrSliceExecFns;
use vstd::string::StringExecFns;

verus! {

/// How one character is rendered inside a single-quoted shell word: a single
/// quote becomes `'\''` (close the quotes, escape one quote, reopen), every
/// other character stands as it is.
pub open spec fn quoted_char(c: char) -> Seq<char> {
    if c == '\'' {
        seq!['\'', '\\', '\'', '\'']
    } else {
        seq![c]
    }
}

/// The body of a quoted word: each character rendered by `quoted_char`,
/// in order.
pub open spec fn quoted_body(s: Seq<char>) -> Seq<char>
    decreases s.len(),
{
    if s.len() == 0 {
        Seq::empty()
    } else {
        quoted_char(s[0]) + quoted_body(s.drop_first())
    }
}

/// A string quoted for the shell: the rendered body between single quotes.
pub open spec fn shell_quoted(s: Seq<char>) -> Seq<char> {
    seq!['\''] + quoted_body(s) + seq!['\'']
}

proof fn lemma_quoted_body_push(s: Seq<char>, c: char)
    ensures
        quoted_body(s.push(c)) == quoted_body(s) + quoted_char(c),
    decreases s.len(),
{
    reveal_with_fuel(quoted_body, 2);
    if s.len() == 0 {
        assert(s.push(c)[0] == c);
        assert(s.push(c).drop_first() =~= Seq::<char>::empty());
        assert(quoted_body(s.push(c)) =~= quoted_body(s) + quoted_char(c));
    } else {
        assert(s.push(c)[0] == s[0]);
        assert(s.push(c).drop_first() =~= s.drop_first().push(c));
        lemma_quoted_body_push(s.drop_first(), c);
        assert(quoted_body(s.push(c)) == quoted_char(s[0]) + (quoted_body(s.drop_first())
            + quoted_char(c)));
        assert(quoted_body(s.push(c)) =~= quoted_body(s) + quoted_char(c));
    }
}

/// Wraps `s` in single quotes for a POSIX shell, escaping each single quote
/// inside it, so the shell reads the result back as exactly `s`.
pub fn shell_quote(s: &str) -> (out: String)
    ensures
        out@ == shell_quoted(s@),
{
    let n = s.unicode_len();
    let mut out = String::from_str("'");
    proof {
        reveal_strlit("'");
        assert(out@ =~= seq!['\'']);
    }
    let mut i: usize = 0;
    while i < n
        invariant
            n == s@.len(),
            i <= n,
            out@ == seq!['\''] + quoted_body(s@.subrange(0, i as int)),
        decreases n - i,
    {
        let c = s.get_char(i);
        proof {
            assert(s@.subrange(0, i as int + 1) =~= s@.subrange(0, i as int).push(s@[i as int]));
            lemma_quoted_body_push(s@.subrange(0, i as int), s@[i as int]);
        }
        if c == '\'' {
            out.append("'\\''");
            proof {
                reveal_strlit("'\\''");
                assert("'\\''"@ =~= quoted_char(s@[i as int]));
                assert(out@ =~= seq!['\''] + quoted_body(s@.subrange(0, i as int + 1)));
            }
        } else {
            let piece = s.substring_char(i, i + 1);
            out.append(piece);
            proof {
                assert(piece@ =~= quoted_char(s@[i as int]));
                assert(out@ =~= seq!['\''] + quoted_body(s@.subrange(0, i as int + 1)));
            }
        }
        i += 1;
    }
    out.append("'");
    proof {
        reveal_strlit("'");
        assert(s@.subrange(0, n as int) =~= s@);
        assert(out@ =~= shell_quoted(s@));
    }
    out
}

/// The shell command line that feeds `script` to the system's script
/// interpreter, with the script passed as one safely quoted argument.
pub fn osascript_command(script: &str) -> (cmd: String)
    ensures
        cmd@ == "osascript -e "@ + shell_quoted(script@),
{
    let quoted = shell_quote(script);
    String::from_str("osascript -e ").concat(quoted.as_str())
}

} // verus!
