//! Reading the places a build works in out of what tools report: the path of
//! `Cargo.toml` from `cargo locate-project`, the scratch directory from
//! `mktemp`, and the Celix installation from its environment setting.

use vstd::prelude::*;
use vstd::string::*;

use crate::text::{
    remove_path_noise, second_field, second_field_of, trim_end_white_space, trimmed_end,
    without_path_noise,
};

verus! {

/// How the record printed by `cargo locate-project` starts: `{"root":"`.
pub open spec fn root_prefix() -> Seq<char> {
    seq!['{', '"', 'r', 'o', 'o', 't', '"', ':', '"']
}

/// How many characters close the record printed by `cargo locate-project`:
/// 3 for `"}` and a newline, 2 for `"}` alone, 0 where `s` ends otherwise.
pub open spec fn root_suffix_len(s: Seq<char>) -> int {
    if s.len() >= 3 && s.skip(s.len() - 3) == seq!['"', '}', '\n'] {
        3
    } else if s.len() >= 2 && s.skip(s.len() - 2) == seq!['"', '}'] {
        2
    } else {
        0
    }
}

/// Whether `s` is the whole record `{"root":"<path>"}` (with or without a
/// final newline) that `cargo locate-project` prints.
pub open spec fn is_root_record(s: Seq<char>) -> bool {
    &&& root_suffix_len(s) > 0
    &&& s.len() >= 9 + root_suffix_len(s)
    &&& s.take(9) == root_prefix()
}

/// The path to `Cargo.toml` in the output of `cargo locate-project`. Where
/// the output is the record `{"root":"<path>"}` (and a newline), it is the
/// whole `<path>`, whatever characters it holds. Otherwise it is the text
/// between the first `:` and the next one, with double quotes, closing
/// braces and newlines removed.
pub open spec fn cargo_toml_path_spec(locate_output: Seq<char>) -> Seq<char> {
    if is_root_record(locate_output) {
        locate_output.subrange(9, locate_output.len() - root_suffix_len(locate_output))
    } else {
        without_path_noise(second_field(locate_output, ':'))
    }
}

/// Whether `s` starts with `{"root":"`.
fn has_root_prefix(s: &str) -> (res: bool)
    ensures
        res == (s@.len() >= 9 && s@.take(9) == root_prefix()),
{
    let n = s.unicode_len();
    if n < 9 {
        return false;
    }
    let prefix: [char; 9] = ['{', '"', 'r', 'o', 'o', 't', '"', ':', '"'];
    assert(prefix@ =~= root_prefix());
    let mut i: usize = 0;
    while i < 9
        invariant
            n == s@.len(),
            n >= 9,
            i <= 9,
            prefix@ == root_prefix(),
            forall|j: int| 0 <= j < i ==> s@[j] == prefix@[j],
        decreases 9 - i,
    {
        if s.get_char(i) != prefix[i] {
            assert(s@.take(9)[i as int] != root_prefix()[i as int]);
            return false;
        }
        i = i + 1;
    }
    assert(s@.take(9) =~= root_prefix());
    true
}

/// How many characters close `s` as a `cargo locate-project` record.
fn root_suffix(s: &str) -> (res: usize)
    ensures
        res == root_suffix_len(s@),
{
    let n = s.unicode_len();
    if n >= 3 && s.get_char(n - 3) == '"' && s.get_char(n - 2) == '}' && s.get_char(n - 1) == '\n' {
        assert(s@.skip(n - 3) =~= seq!['"', '}', '\n']);
        return 3;
    }
    proof {
        if n >= 3 {
            let t = s@.skip(n - 3);
            assert(t[0] == s@[n - 3] && t[1] == s@[n - 2] && t[2] == s@[n - 1]);
        }
    }
    if n >= 2 && s.get_char(n - 2) == '"' && s.get_char(n - 1) == '}' {
        assert(s@.skip(n - 2) =~= seq!['"', '}']);
        return 2;
    }
    proof {
        if n >= 2 {
            let t = s@.skip(n - 2);
            assert(t[0] == s@[n - 2] && t[1] == s@[n - 1]);
        }
    }
    0
}

/// Reads the path to `Cargo.toml` out of the output of
/// `cargo locate-project`. The output must hold a `:`.
pub fn cargo_toml_path(locate_output: &str) -> (res: String)
    requires
        locate_output@.contains(':'),
    ensures
        res@ == cargo_toml_path_spec(locate_output@),
{
    let n = locate_output.unicode_len();
    let suffix = root_suffix(locate_output);
    if suffix > 0 && n >= 9 + suffix && has_root_prefix(locate_output) {
        String::from_str(locate_output.substring_char(9, n - suffix))
    } else {
        let field = second_field_of(locate_output, ':');
        remove_path_noise(field.as_str())
    }
}

/// The scratch directory named by the output of `mktemp -d`: the output
/// without its trailing white space, then `/`.
pub open spec fn temp_dir_spec(mktemp_output: Seq<char>) -> Seq<char> {
    trimmed_end(mktemp_output) + "/"@
}

/// Turns the output of `mktemp -d` into the path of the directory it made,
/// ending in `/`.
pub fn temp_dir(mktemp_output: &str) -> (res: String)
    ensures
        res@ == temp_dir_spec(mktemp_output@),
{
    let mut res = trim_end_white_space(mktemp_output);
    res.append("/");
    res
}

/// Where Celix is installed when its environment setting is absent.
pub open spec fn default_celix_dir() -> Seq<char> {
    "/usr/local/"@
}

/// The Celix installation directory: the value of the `CELIX_PATH` setting
/// where there is one, `/usr/local/` otherwise.
pub fn celix_dir(setting: Option<&str>) -> (res: String)
    ensures
        res@ == match setting {
            Some(s) => s@,
            None => default_celix_dir(),
        },
{
    match setting {
        Some(s) => String::from_str(s),
        None => String::from_str("/usr/local/"),
    }
}

} // verus!
