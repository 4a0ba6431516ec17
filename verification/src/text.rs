//! Character and string utilities: whitespace classification, trimming,
//! whitespace collapsing and line splitting, all with exact contracts over
//! character sequences.

use vstd::prelude::*;
use vstd::string::StrSliceExecFns;
use vstd::string::StringExecFns;

verus! {

/// A character with the Unicode `White_Space` property, as documented for
/// `char::is_whitespace`.
pub open spec fn spec_is_ws(c: char) -> bool {
    ||| c as u32 == 0x20
    ||| (0x9 <= c as u32 && c as u32 <= 0xD)
    ||| c as u32 == 0x85
    ||| c as u32 == 0xA0
    ||| c as u32 == 0x1680
    ||| (0x2000 <= c as u32 && c as u32 <= 0x200A)
    ||| c as u32 == 0x2028
    ||| c as u32 == 0x2029
    ||| c as u32 == 0x202F
    ||| c as u32 == 0x205F
    ||| c as u32 == 0x3000
}

/// Whether `c` is a whitespace character.
pub fn is_ws(c: char) -> (r: bool)
    ensures
        r == spec_is_ws(c),
{
    let n = c as u32;
    n == 0x20 || (0x9 <= n && n <= 0xD) || n == 0x85 || n == 0xA0 || n == 0x1680 || (0x2000 <= n
        && n <= 0x200A) || n == 0x2028 || n == 0x2029 || n == 0x202F || n == 0x205F || n == 0x3000
}

pub open spec fn spec_trim_start(s: Seq<char>) -> Seq<char>
    decreases s.len(),
{
    if s.len() > 0 && spec_is_ws(s[0]) {
        spec_trim_start(s.drop_first())
    } else {
        s
    }
}

pub open spec fn spec_trim_end(s: Seq<char>) -> Seq<char>
    decreases s.len(),
{
    if s.len() > 0 && spec_is_ws(s.last()) {
        spec_trim_end(s.drop_last())
    } else {
        s
    }
}

/// `s` without leading and trailing whitespace.
pub open spec fn spec_trim(s: Seq<char>) -> Seq<char> {
    spec_trim_end(spec_trim_start(s))
}

/// Returns the sub-slice of `s` without leading and trailing whitespace.
pub fn trim_str(s: &str) -> (r: &str)
    ensures
        r@ == spec_trim(s@),
{
    let n = s.unicode_len();
    let mut i: usize = 0;
    proof {
        assert(s@.skip(0) =~= s@);
    }
    while i < n && is_ws(s.get_char(i))
        invariant
            i <= n,
            n == s@.len(),
            spec_trim_start(s@) == spec_trim_start(s@.skip(i as int)),
        decreases n - i,
    {
        proof {
            assert(s@.skip(i as int).drop_first() =~= s@.skip(i as int + 1));
        }
        i = i + 1;
    }
    proof {
        assert(spec_trim_start(s@) == s@.skip(i as int));
    }
    let mut j: usize = n;
    proof {
        assert(s@.skip(i as int).take(n as int - i as int) =~= s@.skip(i as int));
    }
    while j > i && is_ws(s.get_char(j - 1))
        invariant
            i <= j <= n,
            n == s@.len(),
            spec_trim_start(s@) == s@.skip(i as int),
            spec_trim_end(s@.skip(i as int)) == spec_trim_end(
                s@.skip(i as int).take(j - i as int),
            ),
        decreases j,
    {
        proof {
            let u = s@.skip(i as int);
            assert(u.take(j - i as int).last() == s@[j - 1]);
            assert(u.take(j - i as int).drop_last() =~= u.take(j - 1 - i as int));
        }
        j = j - 1;
    }
    proof {
        let u = s@.skip(i as int);
        assert(spec_trim_end(u) == u.take(j - i as int));
    }
    let r = s.substring_char(i, j);
    proof {
        assert(r@ =~= s@.skip(i as int).take(j - i as int));
    }
    r
}

/// Returns `s` without leading and trailing whitespace, as an owned string.
pub fn trim_to_string(s: &str) -> (r: String)
    ensures
        r@ == spec_trim(s@),
{
    String::from_str(trim_str(s))
}

/// Whether two string slices hold the same characters.
pub fn str_eq(a: &str, b: &str) -> (r: bool)
    ensures
        r == (a@ == b@),
{
    let na = a.unicode_len();
    let nb = b.unicode_len();
    if na != nb {
        return false;
    }
    let mut i: usize = 0;
    while i < na
        invariant
            i <= na,
            na == a@.len(),
            na == b@.len(),
            forall|k: int| 0 <= k < i ==> a@[k] == b@[k],
        decreases na - i,
    {
        if a.get_char(i) != b.get_char(i) {
            return false;
        }
        i = i + 1;
    }
    proof {
        assert(a@ =~= b@);
    }
    true
}

/// Relies on `FromIterator<&char> for String`: the built string holds exactly
/// the characters of `v`, in order.
#[verifier::external_body]
pub(crate) fn chars_to_string(v: &Vec<char>) -> (s: String)
    ensures
        s@ == v@,
{
    v.iter().collect()
}

/// `s` with every maximal run of whitespace replaced by a single space.
pub open spec fn spec_collapse_ws(s: Seq<char>) -> Seq<char>
    decreases s.len(),
{
    if s.len() == 0 {
        Seq::empty()
    } else {
        let rest = spec_collapse_ws(s.drop_last());
        if spec_is_ws(s.last()) {
            if s.len() >= 2 && spec_is_ws(s[s.len() - 2]) {
                rest
            } else {
                rest.push(' ')
            }
        } else {
            rest.push(s.last())
        }
    }
}

/// Replaces every maximal run of whitespace in `s` by a single space.
pub fn collapse_ws(s: &str) -> (r: String)
    ensures
        r@ == spec_collapse_ws(s@),
{
    let n = s.unicode_len();
    let mut out: Vec<char> = Vec::new();
    let mut i: usize = 0;
    while i < n
        invariant
            i <= n,
            n == s@.len(),
            out@ == spec_collapse_ws(s@.take(i as int)),
        decreases n - i,
    {
        let c = s.get_char(i);
        proof {
            assert(s@.take(i as int + 1).drop_last() =~= s@.take(i as int));
            assert(s@.take(i as int + 1).last() == s@[i as int]);
        }
        if is_ws(c) {
            if i == 0 || !is_ws(s.get_char(i - 1)) {
                out.push(' ');
            }
        } else {
            out.push(c);
        }
        i = i + 1;
    }
    proof {
        assert(s@.take(n as int) =~= s@);
    }
    chars_to_string(&out)
}

/// The least index of `c` in `s`, or `s.len()` if `c` does not occur.
pub open spec fn spec_find_char(s: Seq<char>, c: char) -> int
    decreases s.len(),
{
    if s.len() == 0 {
        0
    } else if s[0] == c {
        0
    } else {
        1 + spec_find_char(s.drop_first(), c)
    }
}

proof fn lemma_find_char_at(s: Seq<char>, c: char, k: int)
    requires
        0 <= k <= s.len(),
        forall|j: int| 0 <= j < k ==> s[j] != c,
        k < s.len() ==> s[k] == c,
        k == s.len() ==> forall|j: int| 0 <= j < s.len() ==> s[j] != c,
    ensures
        spec_find_char(s, c) == k,
    decreases s.len(),
{
    if s.len() > 0 && s[0] != c {
        lemma_find_char_at(s.drop_first(), c, k - 1);
    }
}

/// A line ending is `\n` or `\r\n`; the final line ending is optional. This
/// is the line structure of `str::lines`.
pub open spec fn spec_lines(s: Seq<char>) -> Seq<Seq<char>>
    decreases s.len(),
    via spec_lines_decreases
{
    if s.len() == 0 {
        Seq::empty()
    } else {
        let k = spec_find_char(s, '\n');
        if k == s.len() {
            seq![s]
        } else {
            seq![spec_strip_cr(s.take(k))] + spec_lines(s.skip(k + 1))
        }
    }
}

#[via_fn]
proof fn spec_lines_decreases(s: Seq<char>) {
    lemma_find_char_bound(s, '\n');
}

/// `t` without one trailing carriage return, if present.
pub open spec fn spec_strip_cr(t: Seq<char>) -> Seq<char> {
    if t.len() > 0 && t.last() == '\r' {
        t.drop_last()
    } else {
        t
    }
}

proof fn lemma_find_char_bound(s: Seq<char>, c: char)
    ensures
        0 <= spec_find_char(s, c) <= s.len(),
        spec_find_char(s, c) < s.len() ==> s[spec_find_char(s, c)] == c,
    decreases s.len(),
{
    if s.len() > 0 && s[0] != c {
        lemma_find_char_bound(s.drop_first(), c);
    }
}

/// Splits `s` into its lines.
pub fn split_lines(s: &str) -> (r: Vec<String>)
    ensures
        r.deep_view() == spec_lines(s@),
{
    let n = s.unicode_len();
    let mut r: Vec<String> = Vec::new();
    let mut pos: usize = 0;
    proof {
        assert(s@.skip(0) =~= s@);
        assert(r.deep_view() =~= Seq::<Seq<char>>::empty());
        assert(r.deep_view() + spec_lines(s@) =~= spec_lines(s@));
    }
    while pos < n
        invariant
            pos <= n,
            n == s@.len(),
            spec_lines(s@) == r.deep_view() + spec_lines(s@.skip(pos as int)),
        decreases n - pos,
    {
        let ghost p0 = pos as int;
        let ghost rest = s@.skip(p0);
        let ghost old_deep = r.deep_view();
        let mut k: usize = pos;
        while k < n && s.get_char(k) != '\n'
            invariant
                pos <= k <= n,
                n == s@.len(),
                forall|j: int| pos <= j < k ==> s@[j] != '\n',
            decreases n - k,
        {
            k = k + 1;
        }
        proof {
            assert(forall|j: int| 0 <= j < k as int - p0 ==> rest[j] != '\n');
            if k < n {
                assert(rest[k as int - p0] == '\n');
            }
            lemma_find_char_at(rest, '\n', k as int - p0);
        }
        if k == n {
            // final line without terminator: kept as it stands
            let line = s.substring_char(pos, n);
            proof {
                assert(line@ =~= rest);
                assert(spec_lines(rest) =~= seq![rest]);
            }
            r.push(line.to_owned());
            pos = n;
            proof {
                assert(r.deep_view() =~= old_deep.push(rest));
                assert(s@.skip(pos as int) =~= Seq::<char>::empty());
                assert(spec_lines(s@) =~= r.deep_view() + spec_lines(s@.skip(pos as int)));
            }
        } else {
            let end = if k > pos && s.get_char(k - 1) == '\r' {
                k - 1
            } else {
                k
            };
            let line = s.substring_char(pos, end);
            proof {
                assert(rest.take(k as int - p0) =~= s@.subrange(p0, k as int));
                if k > pos && s@[k as int - 1] == '\r' {
                    assert(rest.take(k as int - p0).drop_last() =~= s@.subrange(p0, k as int - 1));
                    assert(spec_strip_cr(rest.take(k as int - p0)) =~= line@);
                } else {
                    assert(spec_strip_cr(rest.take(k as int - p0)) =~= line@);
                }
            }
            r.push(line.to_owned());
            pos = k + 1;
            proof {
                assert(rest.skip(k as int - p0 + 1) =~= s@.skip(pos as int));
                assert(r.deep_view() =~= old_deep.push(line@));
                assert(spec_lines(rest) =~= seq![spec_strip_cr(rest.take(k as int - p0))]
                    + spec_lines(s@.skip(pos as int)));
                assert(r.deep_view() + spec_lines(s@.skip(pos as int)) =~= old_deep + spec_lines(
                    rest,
                ));
                assert(spec_lines(s@) == r.deep_view() + spec_lines(s@.skip(pos as int)));
            }
        }
    }
    proof {
        assert(s@.skip(pos as int) =~= Seq::<char>::empty());
        assert(spec_lines(s@) =~= r.deep_view());
    }
    r
}

} // verus!
