//! Reading the probe's answer: the name of the project the target
//! application has open, recovered from the raw text a scripting-bridge
//! query prints.

use vstd::prelude::*;
use vstd::string::StrSliceExecFns;
use vstd::string::StringExecFns;

verus! {

/// The characters stripped from either end of the probe's raw answer:
/// the Unicode `White_Space` set.
pub open spec fn is_space_char(c: char) -> bool {
    ||| c as int == 0x20
    ||| 0x09 <= c as int <= 0x0D
    ||| c as int == 0x85
    ||| c as int == 0xA0
    ||| c as int == 0x1680
    ||| 0x2000 <= c as int <= 0x200A
    ||| c as int == 0x2028
    ||| c as int == 0x2029
    ||| c as int == 0x202F
    ||| c as int == 0x205F
    ||| c as int == 0x3000
}

/// `s` with leading white space removed.
pub open spec fn trim_front(s: Seq<char>) -> Seq<char>
    decreases s.len(),
{
    if s.len() > 0 && is_space_char(s[0]) {
        trim_front(s.drop_first())
    } else {
        s
    }
}

/// `s` with trailing white space removed.
pub open spec fn trim_back(s: Seq<char>) -> Seq<char>
    decreases s.len(),
{
    if s.len() > 0 && is_space_char(s.last()) {
        trim_back(s.drop_last())
    } else {
        s
    }
}

/// `s` with white space removed from both ends.
pub open spec fn trimmed(s: Seq<char>) -> Seq<char> {
    trim_back(trim_front(s))
}

/// The file-name suffix the target application appends to its project files.
pub open spec fn project_suffix() -> Seq<char> {
    seq!['.', 'l', 'o', 'g', 'i', 'c', 'x']
}

/// What the probe's raw answer means: trim it; a project name is present
/// exactly when the trimmed text ends in the project-file suffix, and the
/// name is the text before that suffix. Anything else — an empty answer,
/// an error message, a stray document — counts as no open project.
pub open spec fn project_name_of(raw: Seq<char>) -> Option<Seq<char>> {
    let t = trimmed(raw);
    if t.len() >= 7 && t.subrange(t.len() - 7, t.len() as int) == project_suffix() {
        Some(t.subrange(0, t.len() - 7))
    } else {
        None
    }
}

/// Whether `c` is in the Unicode `White_Space` set.
fn is_space(c: char) -> (b: bool)
    ensures
        b == is_space_char(c),
{
    let u = c as u32;
    u == 0x20 || (0x09 <= u && u <= 0x0D) || u == 0x85 || u == 0xA0 || u == 0x1680 || (0x2000 <= u
        && u <= 0x200A) || u == 0x2028 || u == 0x2029 || u == 0x202F || u == 0x205F || u == 0x3000
}

proof fn lemma_trim_front_idx(s: Seq<char>, a: int)
    requires
        0 <= a <= s.len(),
        forall|k: int| 0 <= k < a ==> is_space_char(s[k]),
        a < s.len() ==> !is_space_char(s[a]),
    ensures
        trim_front(s) == s.subrange(a, s.len() as int),
    decreases a,
{
    if a == 0 {
        assert(s.subrange(0, s.len() as int) =~= s);
    } else {
        let d = s.drop_first();
        assert(is_space_char(s[0]));
        assert(forall|k: int| 0 <= k < a - 1 ==> is_space_char(#[trigger] d[k]));
        lemma_trim_front_idx(d, a - 1);
        assert(d.subrange(a - 1, d.len() as int) =~= s.subrange(a, s.len() as int));
    }
}

proof fn lemma_trim_back_idx(s: Seq<char>, b: int)
    requires
        0 <= b <= s.len(),
        forall|k: int| b <= k < s.len() ==> is_space_char(s[k]),
        b > 0 ==> !is_space_char(s[b - 1]),
    ensures
        trim_back(s) == s.subrange(0, b),
    decreases s.len() - b,
{
    if b == s.len() {
        assert(s.subrange(0, s.len() as int) =~= s);
        if s.len() > 0 && is_space_char(s.last()) {
            assert(!is_space_char(s[b - 1]));
            assert(false);
        }
    } else {
        let d = s.drop_last();
        assert(is_space_char(s.last()));
        assert(forall|k: int| b <= k < d.len() ==> is_space_char(#[trigger] d[k]));
        lemma_trim_back_idx(d, b);
        assert(d.subrange(0, b) =~= s.subrange(0, b));
    }
}

/// Recovers the open project's name from the probe's raw answer `raw`:
/// trims white space, then strips the project-file suffix. Returns `None`
/// when the trimmed answer does not name a project file — the caller treats
/// that as "no active document".
pub fn get_logic_project_name(raw: &str) -> (r: Option<String>)
    ensures
        r.deep_view() == project_name_of(raw@),
{
    let n = raw.unicode_len();

    // Skip white space at the front.
    let mut a: usize = 0;
    while a < n && is_space(raw.get_char(a))
        invariant
            n == raw@.len(),
            a <= n,
            forall|k: int| 0 <= k < a ==> is_space_char(raw@[k]),
        decreases n - a,
    {
        a += 1;
    }

    // Skip white space at the back of the remainder.
    let mut b: usize = n;
    while b > a && is_space(raw.get_char(b - 1))
        invariant
            n == raw@.len(),
            a <= b <= n,
            forall|k: int| b <= k < n ==> is_space_char(raw@[k]),
        decreases b,
    {
        b -= 1;
    }

    let ghost mid = raw@.subrange(a as int, n as int);
    proof {
        lemma_trim_front_idx(raw@, a as int);
        assert(forall|k: int| b <= k < mid.len() ==> is_space_char(#[trigger] mid[k]));
        if b > a {
            assert(mid[b - a - 1] == raw@[b - 1]);
        }
        lemma_trim_back_idx(mid, b - a);
        assert(mid.subrange(0, b - a) =~= raw@.subrange(a as int, b as int));
    }
    let t = raw.substring_char(a, b);
    let m = b - a;
    assert(t@ == trimmed(raw@));

    if m >= 7 && t.get_char(m - 7) == '.' && t.get_char(m - 6) == 'l' && t.get_char(m - 5) == 'o'
        && t.get_char(m - 4) == 'g' && t.get_char(m - 3) == 'i' && t.get_char(m - 2) == 'c'
        && t.get_char(m - 1) == 'x' {
        proof {
            assert(t@.subrange(m - 7, m as int) =~= project_suffix());
        }
        let name = t.substring_char(0, m - 7);
        Some(String::from_str(name))
    } else {
        proof {
            if m >= 7 && t@.subrange(m - 7, m as int) == project_suffix() {
                assert(t@[m - 7] == project_suffix()[0]);
                assert(t@[m - 6] == project_suffix()[1]);
                assert(t@[m - 5] == project_suffix()[2]);
                assert(t@[m - 4] == project_suffix()[3]);
                assert(t@[m - 3] == project_suffix()[4]);
                assert(t@[m - 2] == project_suffix()[5]);
                assert(t@[m - 1] == project_suffix()[6]);
            }
        }
        None
    }
}

} // verus!
