//! Character-level rewriting of package names and command output.

use vstd::prelude::*;
use vstd::string::*;

verus! {

/// The character that stands for `c` in an identifier: `-` becomes `_`,
/// every other character stays.
pub open spec fn identifier_char(c: char) -> char {
    if c == '-' { '_' } else { c }
}

/// A package name with every `-` replaced by `_`.
pub open spec fn underscored(name: Seq<char>) -> Seq<char> {
    name.map_values(|c: char| identifier_char(c))
}

/// Replaces every `-` of `name` by `_`, as a Cargo package name is turned
/// into the crate (and library file) name.
pub fn underscore_name(name: &str) -> (res: String)
    ensures
        res@ == underscored(name@),
{
    let n = name.unicode_len();
    let mut res = String::new();
    let mut i: usize = 0;
    while i < n
        invariant
            n == name@.len(),
            i <= n,
            res@ == underscored(name@.take(i as int)),
        decreases n - i,
    {
        let c = name.get_char(i);
        if c == '-' {
            proof { reveal_strlit("_"); }
            res.append("_");
        } else {
            let one = name.substring_char(i, i + 1);
            assert(one@ =~= seq![c]);
            res.append(one);
        }
        assert(underscored(name@.take(i + 1)) =~= underscored(name@.take(i as int)).push(identifier_char(c)));
        i = i + 1;
    }
    assert(name@.take(n as int) =~= name@);
    res
}

/// The characters that carry the Unicode `White_Space` property, which is
/// what `char::is_whitespace` tests.
pub open spec fn is_white_space(c: char) -> bool {
    ||| ('\u{9}' <= c && c <= '\u{d}')
    ||| c == ' '
    ||| c == '\u{85}'
    ||| c == '\u{a0}'
    ||| c == '\u{1680}'
    ||| ('\u{2000}' <= c && c <= '\u{200a}')
    ||| c == '\u{2028}'
    ||| c == '\u{2029}'
    ||| c == '\u{202f}'
    ||| c == '\u{205f}'
    ||| c == '\u{3000}'
}

/// Whether `c` is a white-space character in the sense of `is_white_space`.
pub fn white_space(c: char) -> (res: bool)
    ensures
        res == is_white_space(c),
{
    ('\u{9}' <= c && c <= '\u{d}') || c == ' ' || c == '\u{85}' || c == '\u{a0}' || c
        == '\u{1680}' || ('\u{2000}' <= c && c <= '\u{200a}') || c == '\u{2028}' || c
        == '\u{2029}' || c == '\u{202f}' || c == '\u{205f}' || c == '\u{3000}'
}

/// `s` without the white space at its end.
pub open spec fn trimmed_end(s: Seq<char>) -> Seq<char>
    decreases s.len(),
{
    if s.len() > 0 && is_white_space(s.last()) {
        trimmed_end(s.drop_last())
    } else {
        s
    }
}

/// Removes the white space at the end of `s`, as `str::trim_end` does.
pub fn trim_end_white_space(s: &str) -> (res: String)
    ensures
        res@ == trimmed_end(s@),
{
    let n = s.unicode_len();
    let mut k: usize = n;
    assert(s@.take(n as int) =~= s@);
    while k > 0 && white_space(s.get_char(k - 1))
        invariant
            n == s@.len(),
            k <= n,
            trimmed_end(s@) == trimmed_end(s@.take(k as int)),
        decreases k,
    {
        assert(s@.take(k as int).drop_last() =~= s@.take(k - 1));
        k = k - 1;
    }
    let kept = s.substring_char(0, k);
    assert(kept@ =~= s@.take(k as int));
    String::from_str(kept)
}

/// The position of the first `c` in `s`, or the length of `s` where there is none.
pub open spec fn is_first_index(s: Seq<char>, c: char, k: int) -> bool {
    &&& 0 <= k <= s.len()
    &&& forall|j: int| 0 <= j < k ==> s[j] != c
    &&& k < s.len() ==> s[k] == c
}

/// The position of the first `c` in `s`, or `s.len()` where `c` does not occur.
pub open spec fn first_index(s: Seq<char>, c: char) -> int {
    choose|k: int| is_first_index(s, c, k)
}

/// There is exactly one first position.
pub proof fn lemma_first_index_unique(s: Seq<char>, c: char, k: int)
    requires
        is_first_index(s, c, k),
    ensures
        first_index(s, c) == k,
{
    let f = first_index(s, c);
    assert(is_first_index(s, c, f));
    if f < k {
        assert(s[f] == c);
    } else if k < f {
        assert(s[k] == c);
    }
}

/// Finds the position of the first `c` in `s` at or after `from`, or `s@.len()`.
fn find_char(s: &str, c: char, from: usize) -> (res: usize)
    requires
        from <= s@.len(),
    ensures
        is_first_index(s@.skip(from as int), c, res - from),
        res == from + first_index(s@.skip(from as int), c),
{
    let n = s.unicode_len();
    let mut k: usize = from;
    while k < n && s.get_char(k) != c
        invariant
            n == s@.len(),
            from <= k <= n,
            forall|j: int| from <= j < k ==> s@[j] != c,
        decreases n - k,
    {
        k = k + 1;
    }
    proof {
        let t = s@.skip(from as int);
        assert(is_first_index(t, c, k - from));
        lemma_first_index_unique(t, c, k - from);
    }
    k
}

/// The text between the first `sep` of `s` and the next one (or the end),
/// that is the second item of `s` split at `sep`.
pub open spec fn second_field(s: Seq<char>, sep: char) -> Seq<char> {
    let rest = s.skip(first_index(s, sep) + 1);
    rest.take(first_index(rest, sep))
}

/// Returns the second item of `s` split at `sep`.
pub fn second_field_of(s: &str, sep: char) -> (res: String)
    requires
        s@.contains(sep),
    ensures
        res@ == second_field(s@, sep),
{
    let n = s.unicode_len();
    let i = find_char(s, sep, 0);
    assert(s@.skip(0) =~= s@);
    proof {
        let k = choose|k: int| 0 <= k < s@.len() && s@[k] == sep;
        assert(s@.skip(0)[k] == sep);
        assert(i <= k);
        assert(i < n);
    }
    let j = find_char(s, sep, i + 1);
    let field = s.substring_char(i + 1, j);
    assert(field@ =~= second_field(s@, sep));
    String::from_str(field)
}

/// The characters dropped when a path is cleaned: double quotes, closing
/// braces and newlines.
pub open spec fn is_path_noise(c: char) -> bool {
    c == '"' || c == '}' || c == '\n'
}

/// `s` with every double quote, closing brace and newline removed.
pub open spec fn without_path_noise(s: Seq<char>) -> Seq<char>
    decreases s.len(),
{
    if s.len() == 0 {
        s
    } else if is_path_noise(s.last()) {
        without_path_noise(s.drop_last())
    } else {
        without_path_noise(s.drop_last()).push(s.last())
    }
}

/// Removes every double quote, closing brace and newline of `s`.
pub fn remove_path_noise(s: &str) -> (res: String)
    ensures
        res@ == without_path_noise(s@),
{
    let n = s.unicode_len();
    let mut res = String::new();
    let mut i: usize = 0;
    while i < n
        invariant
            n == s@.len(),
            i <= n,
            res@ == without_path_noise(s@.take(i as int)),
        decreases n - i,
    {
        let c = s.get_char(i);
        assert(s@.take(i + 1).drop_last() =~= s@.take(i as int));
        if !(c == '"' || c == '}' || c == '\n') {
            let one = s.substring_char(i, i + 1);
            assert(one@ =~= seq![c]);
            res.append(one);
        }
        i = i + 1;
    }
    assert(s@.take(n as int) =~= s@);
    res
}

} // verus!
