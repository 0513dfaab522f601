//! The start-up file store: one `export FACTORY_API_KEY="..."` line kept in a
//! shell start-up file, read back ahead of the in-process environment's
//! fallbacks and rewritten in place.

use vstd::prelude::*;
use crate::text::{join, join_lines, lines_of, split_lines, views};

verus! {

/// The variable this store keeps.
pub const VARIABLE_NAME: &'static str = "FACTORY_API_KEY";

/// What an assignment line starts with.
pub const ASSIGNMENT_PREFIX: &'static str = "export FACTORY_API_KEY=";

/// The view of an optional string.
pub open spec fn opt_view(o: Option<String>) -> Option<Seq<char>> {
    match o {
        Some(x) => Some(x@),
        None => None,
    }
}

/// `l` assigns the variable: it begins with the assignment prefix.
pub open spec fn is_assignment(l: Seq<char>) -> bool {
    l.len() >= ASSIGNMENT_PREFIX@.len() && l.take(ASSIGNMENT_PREFIX@.len() as int) == ASSIGNMENT_PREFIX@
}

/// The line that the writer stores for `v`: the value in double quotes, verbatim.
pub open spec fn assignment_of(v: Seq<char>) -> Seq<char> {
    ASSIGNMENT_PREFIX@ + seq!['"'] + v + seq!['"']
}

/// `s` without one `c` at its front, if it starts with one.
pub open spec fn strip_front(s: Seq<char>, c: char) -> Seq<char> {
    if s.len() > 0 && s[0] == c {
        s.skip(1)
    } else {
        s
    }
}

/// `s` without one `c` at its back, if it ends with one.
pub open spec fn strip_back(s: Seq<char>, c: char) -> Seq<char> {
    if s.len() > 0 && s.last() == c {
        s.drop_last()
    } else {
        s
    }
}

/// `s` with one layer of `c` removed: at most one at each end.
pub open spec fn unquote(s: Seq<char>, c: char) -> Seq<char> {
    strip_back(strip_front(s, c), c)
}

/// The value that an assignment line holds: what follows the prefix, with
/// one layer of double quotes and then one of single quotes removed.
pub open spec fn assignment_value(l: Seq<char>) -> Seq<char> {
    unquote(unquote(l.skip(ASSIGNMENT_PREFIX@.len() as int), '"'), '\'')
}

/// The value of the first assignment line in `ls` whose value is not empty.
pub open spec fn find_value(ls: Seq<Seq<char>>) -> Option<Seq<char>>
    decreases ls.len(),
{
    if ls.len() == 0 {
        None
    } else {
        match find_value(ls.drop_last()) {
            Some(v) => Some(v),
            None => if is_assignment(ls.last()) && assignment_value(ls.last()).len() > 0 {
                Some(assignment_value(ls.last()))
            } else {
                None
            },
        }
    }
}

/// How many lines of `ls` assign the variable.
pub open spec fn assignment_count(ls: Seq<Seq<char>>) -> nat
    decreases ls.len(),
{
    if ls.len() == 0 {
        0
    } else {
        assignment_count(ls.drop_last()) + if is_assignment(ls.last()) {
            1nat
        } else {
            0nat
        }
    }
}

/// The lines of `ls` that do not assign the variable, in order.
pub open spec fn non_assignments(ls: Seq<Seq<char>>) -> Seq<Seq<char>>
    decreases ls.len(),
{
    if ls.len() == 0 {
        seq![]
    } else if is_assignment(ls.last()) {
        non_assignments(ls.drop_last())
    } else {
        non_assignments(ls.drop_last()).push(ls.last())
    }
}

/// `ls` with its first assignment line replaced by `a` and the later ones
/// dropped; the other lines are kept in order.
pub open spec fn rewrite(ls: Seq<Seq<char>>, a: Seq<char>) -> Seq<Seq<char>>
    decreases ls.len(),
{
    if ls.len() == 0 {
        seq![]
    } else {
        let prev = rewrite(ls.drop_last(), a);
        if !is_assignment(ls.last()) {
            prev.push(ls.last())
        } else if assignment_count(ls.drop_last()) > 0 {
            prev
        } else {
            prev.push(a)
        }
    }
}

/// The content of a start-up file after storing `v` in content `c`: where
/// an assignment line exists, the lines rewritten and joined; else `c`, ended
/// by a line feed if it is not empty, then the new line and a line feed.
pub open spec fn merged(c: Seq<char>, v: Seq<char>) -> Seq<char> {
    let ls = lines_of(c);
    if assignment_count(ls) > 0 {
        join_lines(rewrite(ls, assignment_of(v)))
    } else {
        crate::text::terminated(c) + assignment_of(v) + seq!['\n']
    }
}

/// Whether `line` assigns the variable.
pub fn is_assignment_line(line: &str) -> (r: bool)
    ensures
        r == is_assignment(line@),
{
    let p = ASSIGNMENT_PREFIX;
    let pn = p.unicode_len();
    let n = line.unicode_len();
    if n < pn {
        return false;
    }
    let mut i: usize = 0;
    while i < pn
        invariant
            pn == p@.len(),
            n == line@.len(),
            pn <= n,
            i <= pn,
            p@ == ASSIGNMENT_PREFIX@,
            forall|j: int| 0 <= j < i ==> line@[j] == p@[j],
        decreases pn - i,
    {
        if line.get_char(i) != p.get_char(i) {
            assert(line@.take(pn as int)[i as int] != p@[i as int]);
            return false;
        }
        i = i + 1;
    }
    assert(line@.take(pn as int) =~= p@);
    true
}

/// The assignment line for `value`.
pub fn assignment_line(value: &str) -> (r: String)
    ensures
        r@ == assignment_of(value@),
{
    proof {
        reveal_strlit("\"");
    }
    let mut r = String::from_str(ASSIGNMENT_PREFIX);
    r.append("\"");
    r.append(value);
    r.append("\"");
    r
}

/// `s` with one layer of `c` removed: at most one at each end.
pub fn unquote_char(s: &str, c: char) -> (r: &str)
    ensures
        r@ == unquote(s@, c),
{
    let n = s.unicode_len();
    let start: usize = if n > 0 && s.get_char(0) == c {
        1
    } else {
        0
    };
    let end: usize = if n > start && s.get_char(n - 1) == c {
        n - 1
    } else {
        n
    };
    let r = s.substring_char(start, end);
    assert(r@ =~= unquote(s@, c));
    r
}

/// The value held by an assignment line.
pub fn assignment_value_of(line: &str) -> (r: String)
    requires
        is_assignment(line@),
    ensures
        r@ == assignment_value(line@),
{
    let pn = ASSIGNMENT_PREFIX.unicode_len();
    let n = line.unicode_len();
    let rest = line.substring_char(pn, n);
    assert(rest@ =~= line@.skip(pn as int));
    let unquoted = unquote_char(rest, '"');
    String::from_str(unquote_char(unquoted, '\''))
}

/// The value of the first assignment line of `content` whose value is not
/// empty, if there is one.
pub fn find_value_in_content(content: &str) -> (r: Option<String>)
    ensures
        opt_view(r) == find_value(lines_of(content@)),
{
    let ls = split_lines(content);
    let ghost lv = views(ls@);
    let mut result: Option<String> = None;
    let mut i: usize = 0;
    while i < ls.len()
        invariant
            i <= ls@.len(),
            lv == views(ls@),
            opt_view(result) == find_value(lv.take(i as int)),
        decreases ls@.len() - i,
    {
        assert(lv.take(i + 1).drop_last() =~= lv.take(i as int));
        assert(lv.take(i + 1).last() == ls@[i as int]@);
        if result.is_none() && is_assignment_line(ls[i].as_str()) {
            let v = assignment_value_of(ls[i].as_str());
            if v.unicode_len() > 0 {
                result = Some(v);
            }
        }
        i = i + 1;
    }
    assert(lv.take(ls@.len() as int) =~= lv);
    result
}

/// Stores `value` in start-up file content `content`, as `merged` describes.
pub fn merge_assignment(content: &str, value: &str) -> (r: String)
    ensures
        r@ == merged(content@, value@),
{
    let a = assignment_line(value);
    let ls = split_lines(content);
    let ghost lv = views(ls@);
    let mut out: Vec<String> = Vec::new();
    let mut found = false;
    let mut i: usize = 0;
    while i < ls.len()
        invariant
            i <= ls@.len(),
            lv == views(ls@),
            views(out@) == rewrite(lv.take(i as int), a@),
            found == (assignment_count(lv.take(i as int)) > 0),
        decreases ls@.len() - i,
    {
        assert(lv.take(i + 1).drop_last() =~= lv.take(i as int));
        assert(lv.take(i + 1).last() == ls@[i as int]@);
        let ghost before = out@;
        if is_assignment_line(ls[i].as_str()) {
            if !found {
                out.push(a.clone());
                assert(views(out@) =~= views(before).push(a@));
                found = true;
            }
        } else {
            out.push(ls[i].clone());
            assert(views(out@) =~= views(before).push(ls@[i as int]@));
        }
        i = i + 1;
    }
    assert(lv.take(ls@.len() as int) =~= lv);
    if found {
        join(&out)
    } else {
        proof {
            reveal_strlit("\n");
        }
        let mut r = String::from_str(content);
        let n = content.unicode_len();
        if n > 0 && content.get_char(n - 1) != '\n' {
            r.append("\n");
        }
        r.append(a.as_str());
        r.append("\n");
        r
    }
}

/// The value found in the first readable start-up file that yields one.
pub open spec fn files_value(files: Seq<Option<Seq<char>>>) -> Option<Seq<char>>
    decreases files.len(),
{
    if files.len() == 0 {
        None
    } else {
        match files_value(files.drop_last()) {
            Some(v) => Some(v),
            None => match files.last() {
                Some(c) => find_value(lines_of(c)),
                None => None,
            },
        }
    }
}

/// What the reader returns: the in-process value when there is one, else the
/// first value found in the start-up files, taken in order.
pub open spec fn read_from(env_value: Option<Seq<char>>, files: Seq<Option<Seq<char>>>) -> Option<Seq<char>> {
    match env_value {
        Some(v) => Some(v),
        None => files_value(files),
    }
}

/// The views of optional file contents.
pub open spec fn opt_views(files: Seq<Option<String>>) -> Seq<Option<Seq<char>>> {
    files.map_values(|o: Option<String>| opt_view(o))
}

/// Reads the variable from the in-process value `env_value` or, without one,
/// from the contents of the candidate start-up files in priority order
/// (`None` for a file that is missing or unreadable).
pub fn read_value(env_value: Option<String>, file_contents: &Vec<Option<String>>) -> (r: Option<String>)
    ensures
        opt_view(r) == read_from(opt_view(env_value), opt_views(file_contents@)),
{
    if env_value.is_some() {
        return env_value;
    }
    let ghost fv = opt_views(file_contents@);
    let mut result: Option<String> = None;
    let mut i: usize = 0;
    while i < file_contents.len()
        invariant
            i <= file_contents@.len(),
            fv == opt_views(file_contents@),
            opt_view(result) == files_value(fv.take(i as int)),
        decreases file_contents@.len() - i,
    {
        assert(fv.take(i + 1).drop_last() =~= fv.take(i as int));
        assert(fv.take(i + 1).last() == opt_view(file_contents@[i as int]));
        if result.is_none() {
            if let Some(c) = &file_contents[i] {
                result = find_value_in_content(c.as_str());
            }
        }
        i = i + 1;
    }
    assert(fv.take(file_contents@.len() as int) =~= fv);
    result
}

/// The start-up files the reader looks in, in priority order.
pub fn candidate_files() -> (r: Vec<&'static str>)
    ensures
        r@.len() == 4,
        r@[0]@ == ".zshrc"@,
        r@[1]@ == ".bashrc"@,
        r@[2]@ == ".bash_profile"@,
        r@[3]@ == ".profile"@,
{
    vec![".zshrc", ".bashrc", ".bash_profile", ".profile"]
}

/// `t` occurs in `s`.
pub open spec fn contains(s: Seq<char>, t: Seq<char>) -> bool {
    exists|i: int| 0 <= i && i + t.len() <= s.len() && #[trigger] s.subrange(i, i + t.len()) == t
}

/// Whether `t` occurs in `s` at character position `i`.
fn occurs_at(s: &str, t: &str, i: usize) -> (r: bool)
    requires
        i + t@.len() <= s@.len(),
        s@.len() <= usize::MAX,
    ensures
        r == (s@.subrange(i as int, i + t@.len()) == t@),
{
    let m = t.unicode_len();
    let mut j: usize = 0;
    while j < m
        invariant
            m == t@.len(),
            i + m <= s@.len(),
            s@.len() <= usize::MAX,
            j <= m,
            forall|k: int| 0 <= k < j ==> s@[i + k] == t@[k],
        decreases m - j,
    {
        if s.get_char(i + j) != t.get_char(j) {
            assert(s@.subrange(i as int, i + m)[j as int] != t@[j as int]);
            return false;
        }
        j = j + 1;
    }
    assert(s@.subrange(i as int, i + m) =~= t@);
    true
}

/// Whether `t` occurs in `s`.
pub fn contains_text(s: &str, t: &str) -> (r: bool)
    ensures
        r == contains(s@, t@),
{
    let n = s.unicode_len();
    let m = t.unicode_len();
    if m > n {
        return false;
    }
    if m == 0 {
        let ghost k: int = 0;
        assert(s@.subrange(k, k + t@.len()) =~= t@);
        return true;
    }
    let mut i: usize = 0;
    while i <= n - m
        invariant
            n == s@.len(),
            m == t@.len(),
            0 < m <= n,
            i <= n - m + 1,
            forall|k: int| 0 <= k < i ==> #[trigger] s@.subrange(k, k + m) != t@,
        decreases n - m + 1 - i,
    {
        if occurs_at(s, t, i) {
            let ghost k: int = i as int;
            assert(s@.subrange(k, k + t@.len()) == t@);
            return true;
        }
        i = i + 1;
    }
    false
}

/// The start-up file that the writer targets for shell hint `shell`.
pub open spec fn target_file(shell: Seq<char>) -> Seq<char> {
    if contains(shell, "zsh"@) {
        ".zshrc"@
    } else if contains(shell, "bash"@) {
        ".bashrc"@
    } else {
        ".profile"@
    }
}

/// Picks the start-up file to write from the shell hint (the `SHELL`
/// value, empty when unset).
pub fn config_file_for_shell(shell: &str) -> (r: &'static str)
    ensures
        r@ == target_file(shell@),
{
    if contains_text(shell, "zsh") {
        ".zshrc"
    } else if contains_text(shell, "bash") {
        ".bashrc"
    } else {
        ".profile"
    }
}

/// The confirmation the writer returns after updating `config_file`: it
/// asks for a new terminal or a reload of that file.
pub open spec fn confirmation_of(config_file: Seq<char>) -> Seq<char> {
    "环境变量已写入 "@ + config_file + "，请重新打开终端或执行 source ~/"@ + config_file + " 使其生效"@
}

/// The confirmation message for a write to `config_file`.
pub fn write_confirmation(config_file: &str) -> (r: String)
    ensures
        r@ == confirmation_of(config_file@),
{
    let mut r = String::from_str("环境变量已写入 ");
    r.append(config_file);
    r.append("，请重新打开终端或执行 source ~/");
    r.append(config_file);
    r.append(" 使其生效");
    r
}

} // verus!
