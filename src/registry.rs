//! The registry store: the variable kept as a user-scope environment value
//! and reached through a PowerShell helper process. This module builds the
//! helper's scripts and interprets what it returns.

use vstd::prelude::*;
use crate::errors::StoreError;

verus! {

/// The script that prints the user-scope value of the variable.
pub const REGISTRY_READ_SCRIPT: &'static str =
    "[System.Environment]::GetEnvironmentVariable('FACTORY_API_KEY', 'User')";

/// The helper's arguments ahead of the script.
pub const HELPER_ARGS: [&'static str; 3] = ["-NoProfile", "-NonInteractive", "-Command"];

/// What the writer reports once the helper has succeeded.
pub const REGISTRY_WRITE_CONFIRMATION: &'static str = "环境变量设置成功";

/// `c` is white space in Unicode's sense (the `White_Space` property).
pub open spec fn is_space(c: char) -> bool {
    let x = c as u32;
    (0x9 <= x <= 0xd) || x == 0x20 || x == 0x85 || x == 0xa0 || x == 0x1680 || (0x2000 <= x <= 0x200a)
        || x == 0x2028 || x == 0x2029 || x == 0x202f || x == 0x205f || x == 0x3000
}

/// Whether `c` is white space.
pub fn is_space_char(c: char) -> (r: bool)
    ensures
        r == is_space(c),
{
    let x = c as u32;
    (0x9 <= x && x <= 0xd) || x == 0x20 || x == 0x85 || x == 0xa0 || x == 0x1680 || (0x2000 <= x && x
        <= 0x200a) || x == 0x2028 || x == 0x2029 || x == 0x202f || x == 0x205f || x == 0x3000
}

/// `s` without leading white space.
pub open spec fn trim_space_front(s: Seq<char>) -> Seq<char>
    decreases s.len(),
{
    if s.len() > 0 && is_space(s[0]) {
        trim_space_front(s.skip(1))
    } else {
        s
    }
}

/// `s` without trailing white space.
pub open spec fn trim_space_back(s: Seq<char>) -> Seq<char>
    decreases s.len(),
{
    if s.len() > 0 && is_space(s.last()) {
        trim_space_back(s.drop_last())
    } else {
        s
    }
}

/// `s` without white space at either end.
pub open spec fn trim_space(s: Seq<char>) -> Seq<char> {
    trim_space_back(trim_space_front(s))
}

/// `s` without white space at either end.
pub fn trim_whitespace(s: &str) -> (r: &str)
    ensures
        r@ == trim_space(s@),
{
    let n = s.unicode_len();
    let mut start: usize = 0;
    assert(s@.subrange(0, n as int) =~= s@);
    while start < n && is_space_char(s.get_char(start))
        invariant
            n == s@.len(),
            start <= n,
            trim_space_front(s@) == trim_space_front(s@.subrange(start as int, n as int)),
        decreases n - start,
    {
        assert(s@.subrange(start as int, n as int).skip(1) =~= s@.subrange(start + 1, n as int));
        start = start + 1;
    }
    let mut end: usize = n;
    while end > start && is_space_char(s.get_char(end - 1))
        invariant
            n == s@.len(),
            start <= end <= n,
            trim_space(s@) == trim_space_back(s@.subrange(start as int, end as int)),
        decreases end,
    {
        assert(s@.subrange(start as int, end as int).drop_last() =~= s@.subrange(start as int, end - 1));
        end = end - 1;
    }
    s.substring_char(start, end)
}

/// `s` with every single quote doubled, as PowerShell's single-quoted strings
/// require.
pub open spec fn quote_doubled(s: Seq<char>) -> Seq<char>
    decreases s.len(),
{
    if s.len() == 0 {
        seq![]
    } else if s.last() == '\'' {
        quote_doubled(s.drop_last()) + seq!['\'', '\'']
    } else {
        quote_doubled(s.drop_last()).push(s.last())
    }
}

/// `value` with every single quote doubled.
pub fn escape_single_quotes(value: &str) -> (r: String)
    ensures
        r@ == quote_doubled(value@),
{
    let n = value.unicode_len();
    let mut out = String::new();
    let mut i: usize = 0;
    while i < n
        invariant
            n == value@.len(),
            i <= n,
            out@ == quote_doubled(value@.take(i as int)),
        decreases n - i,
    {
        assert(value@.take(i + 1).drop_last() =~= value@.take(i as int));
        assert(value@.take(i + 1).last() == value@[i as int]);
        proof {
            reveal_strlit("'");
        }
        assert("'"@ =~= seq!['\'']);
        let one = value.substring_char(i, i + 1);
        assert(one@ =~= seq![value@[i as int]]);
        out.append(one);
        if value.get_char(i) == '\'' {
            out.append("'");
            assert(out@ =~= quote_doubled(value@.take(i + 1)));
        } else {
            assert(out@ =~= quote_doubled(value@.take(i + 1)));
        }
        i = i + 1;
    }
    assert(value@.take(n as int) =~= value@);
    out
}

/// The script that stores `v` as the user-scope value of the variable.
pub open spec fn write_script_of(v: Seq<char>) -> Seq<char> {
    "[System.Environment]::SetEnvironmentVariable('FACTORY_API_KEY', '"@ + quote_doubled(v)
        + "', 'User')"@
}

/// The script that stores `value`, quoted for PowerShell.
pub fn registry_write_script(value: &str) -> (r: String)
    ensures
        r@ == write_script_of(value@),
{
    let escaped = escape_single_quotes(value);
    let mut r = String::from_str("[System.Environment]::SetEnvironmentVariable('FACTORY_API_KEY', '");
    r.append(escaped.as_str());
    r.append("', 'User')");
    r
}

/// What the read helper's output means: its text without surrounding white
/// space, or absence where nothing is left.
pub open spec fn read_result_of(stdout: Seq<char>) -> Option<Seq<char>> {
    if trim_space(stdout).len() == 0 {
        None
    } else {
        Some(trim_space(stdout))
    }
}

/// Interprets the read helper's output.
pub fn registry_read_result(stdout: &str) -> (r: Option<String>)
    ensures
        crate::shell_file::opt_view(r) == read_result_of(stdout@),
{
    let t = trim_whitespace(stdout);
    if t.unicode_len() == 0 {
        None
    } else {
        Some(String::from_str(t))
    }
}

/// Interprets the write helper's outcome: its success, and its error stream
/// where it failed.
pub fn registry_write_result(success: bool, stderr: &str) -> (r: Result<String, StoreError>)
    ensures
        match r {
            Ok(m) => success && m@ == REGISTRY_WRITE_CONFIRMATION@,
            Err(StoreError::CommandFailed { stderr: e }) => !success && e@ == stderr@,
            Err(_) => false,
        },
{
    if success {
        Ok(String::from_str(REGISTRY_WRITE_CONFIRMATION))
    } else {
        Err(StoreError::CommandFailed { stderr: String::from_str(stderr) })
    }
}

} // verus!
