//! Line-level view of text: splitting as `str::lines` does, and joining with
//! single newlines.

use vstd::prelude::*;

verus! {

/// The views of a sequence of strings.
pub open spec fn views(v: Seq<String>) -> Seq<Seq<char>> {
    v.map_values(|x: String| x@)
}

/// `s` holds no line feed.
pub open spec fn no_newline(s: Seq<char>) -> bool {
    forall|i: int| 0 <= i < s.len() ==> s[i] != '\n'
}

/// Drops one trailing carriage return, if any.
pub open spec fn strip_cr(l: Seq<char>) -> Seq<char> {
    if l.len() > 0 && l.last() == '\r' {
        l.drop_last()
    } else {
        l
    }
}

/// Reads `s` left to right: the lines already ended by a line feed (each
/// without its `\n` or `\r\n`), and the characters of the unfinished line.
pub open spec fn scan(s: Seq<char>) -> (Seq<Seq<char>>, Seq<char>)
    decreases s.len(),
{
    if s.len() == 0 {
        (seq![], seq![])
    } else {
        let (done, cur) = scan(s.drop_last());
        if s.last() == '\n' {
            (done.push(strip_cr(cur)), seq![])
        } else {
            (done, cur.push(s.last()))
        }
    }
}

/// The lines of `s`: a final line without a line feed counts when it is not
/// empty; a `\r` is dropped only where it comes right before a `\n`.
pub open spec fn lines_of(s: Seq<char>) -> Seq<Seq<char>> {
    let (done, cur) = scan(s);
    if cur.len() == 0 {
        done
    } else {
        done.push(cur)
    }
}

/// The lines of `ls` joined by single line feeds, with none at the end.
pub open spec fn join_lines(ls: Seq<Seq<char>>) -> Seq<char>
    decreases ls.len(),
{
    if ls.len() == 0 {
        seq![]
    } else if ls.len() == 1 {
        ls[0]
    } else {
        join_lines(ls.drop_last()) + seq!['\n'] + ls.last()
    }
}

/// Splits `s` into its lines, as `lines_of` describes.
pub fn split_lines(s: &str) -> (r: Vec<String>)
    ensures
        views(r@) == lines_of(s@),
{
    let n = s.unicode_len();
    let mut out: Vec<String> = Vec::new();
    let mut start: usize = 0;
    let mut i: usize = 0;
    while i < n
        invariant
            n == s@.len(),
            start <= i <= n,
            scan(s@.take(i as int)) == (views(out@), s@.subrange(start as int, i as int)),
        decreases n - i,
    {
        let c = s.get_char(i);
        let ghost before = out@;
        assert(s@.take(i + 1).drop_last() =~= s@.take(i as int));
        if c == '\n' {
            let mut end = i;
            if end > start && s.get_char(end - 1) == '\r' {
                end = end - 1;
            }
            let piece = String::from_str(s.substring_char(start, end));
            assert(piece@ =~= strip_cr(s@.subrange(start as int, i as int)));
            out.push(piece);
            assert(views(out@) =~= views(before).push(piece@));
            start = i + 1;
        } else {
            assert(s@.subrange(start as int, i + 1) =~= s@.subrange(start as int, i as int).push(c));
        }
        i = i + 1;
    }
    assert(s@.take(n as int) =~= s@);
    if start < n {
        let ghost before = out@;
        let piece = String::from_str(s.substring_char(start, n));
        out.push(piece);
        assert(views(out@) =~= views(before).push(piece@));
    }
    out
}

/// Joins `ls` as `join_lines` describes.
pub fn join(ls: &Vec<String>) -> (r: String)
    ensures
        r@ == join_lines(views(ls@)),
{
    let mut out = String::new();
    let mut i: usize = 0;
    while i < ls.len()
        invariant
            i <= ls@.len(),
            out@ == join_lines(views(ls@).take(i as int)),
        decreases ls@.len() - i,
    {
        let ghost prev = views(ls@).take(i as int);
        let ghost next = views(ls@).take(i + 1);
        assert(next.drop_last() =~= prev);
        if i > 0 {
            proof {
                reveal_strlit("\n");
            }
            out.append("\n");
        } else {
            assert(out@ =~= seq![]);
        }
        out.append(ls[i].as_str());
        assert(out@ =~= join_lines(next));
        i = i + 1;
    }
    assert(views(ls@).take(ls@.len() as int) =~= views(ls@));
    out
}

/// Text without a line feed extends the unfinished line.
pub proof fn lemma_scan_plain(a: Seq<char>, b: Seq<char>)
    requires
        no_newline(b),
    ensures
        scan(a + b) == (scan(a).0, scan(a).1 + b),
    decreases b.len(),
{
    if b.len() == 0 {
        assert(a + b =~= a);
        assert(scan(a).1 + b =~= scan(a).1);
    } else {
        lemma_scan_plain(a, b.drop_last());
        assert((a + b).drop_last() =~= a + b.drop_last());
        assert(scan(a).1 + b.drop_last() + seq![b.last()] =~= scan(a).1 + b);
        assert((scan(a).1 + b.drop_last()).push(b.last()) =~= scan(a).1 + b);
    }
}

/// Neither the finished lines nor the unfinished one hold a line feed.
pub proof fn lemma_scan_no_newline(s: Seq<char>)
    ensures
        no_newline(scan(s).1),
        forall|i: int| 0 <= i < scan(s).0.len() ==> no_newline(#[trigger] scan(s).0[i]),
    decreases s.len(),
{
    if s.len() > 0 {
        lemma_scan_no_newline(s.drop_last());
    }
}

/// No line of `s` holds a line feed.
pub proof fn lemma_lines_no_newline(s: Seq<char>)
    ensures
        forall|i: int| 0 <= i < lines_of(s).len() ==> no_newline(#[trigger] lines_of(s)[i]),
{
    lemma_scan_no_newline(s);
}

/// Joined lines read back as the same lines, with each but the last one losing
/// a final carriage return.
pub proof fn lemma_scan_join(ls: Seq<Seq<char>>)
    requires
        ls.len() > 0,
        forall|i: int| 0 <= i < ls.len() ==> no_newline(#[trigger] ls[i]),
    ensures
        scan(join_lines(ls)) == (ls.drop_last().map_values(|l: Seq<char>| strip_cr(l)), ls.last()),
    decreases ls.len(),
{
    if ls.len() == 1 {
        lemma_scan_plain(seq![], ls[0]);
        assert(seq![] + ls[0] =~= ls[0]);
        assert(ls.drop_last().map_values(|l: Seq<char>| strip_cr(l)) =~= seq![]);
        assert(seq![] + ls[0] =~= ls[0]);
    } else {
        let d = ls.drop_last();
        assert forall|i: int| 0 <= i < d.len() implies no_newline(#[trigger] d[i]) by {
            assert(d[i] == ls[i]);
        }
        lemma_scan_join(d);
        let x = join_lines(d) + seq!['\n'];
        assert(x.drop_last() =~= join_lines(d));
        assert(scan(x).0 =~= d.map_values(|l: Seq<char>| strip_cr(l)));
        assert(d.drop_last().map_values(|l: Seq<char>| strip_cr(l)).push(strip_cr(d.last()))
            =~= d.map_values(|l: Seq<char>| strip_cr(l)));
        lemma_scan_plain(x, ls.last());
        assert(seq![] + ls.last() =~= ls.last());
    }
}

/// `s` with a line feed added unless it is empty or already ends in one.
pub open spec fn terminated(s: Seq<char>) -> Seq<char> {
    if s.len() == 0 || s.last() == '\n' {
        s
    } else {
        s.push('\n')
    }
}

/// A terminated text has no unfinished line; its lines are those of the
/// original, the last one possibly losing a final carriage return.
pub proof fn lemma_terminated(s: Seq<char>)
    ensures
        scan(terminated(s)).1.len() == 0,
        lines_of(terminated(s)) == scan(terminated(s)).0,
        lines_of(terminated(s)).len() == lines_of(s).len(),
        forall|i: int|
            0 <= i < lines_of(s).len() ==> (#[trigger] lines_of(terminated(s))[i] == lines_of(s)[i]
                || lines_of(terminated(s))[i] == strip_cr(lines_of(s)[i])),
        (s.len() == 0 || s.last() != '\r') ==> lines_of(terminated(s)) == lines_of(s),
{
    if s.len() > 0 && s.last() != '\n' {
        assert(s.push('\n').drop_last() =~= s);
        if s.last() != '\r' {
            assert(scan(s).1.last() == s.last());
        }
    }
}

/// Appending a terminated line without a line feed adds exactly that line.
pub proof fn lemma_append_line(s: Seq<char>, line: Seq<char>)
    requires
        scan(s).1.len() == 0,
        no_newline(line),
        strip_cr(line) == line,
    ensures
        lines_of(s + line + seq!['\n']) == lines_of(s).push(line),
{
    lemma_scan_plain(s, line);
    assert((s + line + seq!['\n']).drop_last() =~= s + line);
    assert(seq![] + line =~= line);
}

} // verus!
