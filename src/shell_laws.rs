//! What holds of the start-up file store across calls: a write leaves exactly
//! one assignment line, appending keeps the other lines, and a written value
//! reads back.

use vstd::prelude::*;
use crate::shell_file::{
    assignment_count, assignment_of, assignment_value, find_value, files_value, is_assignment,
    merged, non_assignments, read_from, rewrite, strip_back, strip_front, unquote, ASSIGNMENT_PREFIX,
};
use crate::text::{
    join_lines, lemma_append_line, lemma_lines_no_newline, lemma_scan_join, lemma_terminated,
    lines_of, no_newline, scan, strip_cr, terminated,
};

verus! {

proof fn lemma_prefix_shape()
    ensures
        ASSIGNMENT_PREFIX@.len() > 0,
        ASSIGNMENT_PREFIX@.last() == '=',
        no_newline(ASSIGNMENT_PREFIX@),
{
    reveal_strlit("export FACTORY_API_KEY=");
}

proof fn lemma_assignment_shape(v: Seq<char>)
    requires
        no_newline(v),
    ensures
        is_assignment(assignment_of(v)),
        no_newline(assignment_of(v)),
        strip_cr(assignment_of(v)) == assignment_of(v),
{
    lemma_prefix_shape();
    let a = assignment_of(v);
    let p = ASSIGNMENT_PREFIX@;
    assert(a.take(p.len() as int) =~= p);
    assert forall|i: int| 0 <= i < a.len() implies a[i] != '\n' by {
        if i < p.len() {
            assert(a[i] == p[i]);
        } else if p.len() < i < p.len() + 1 + v.len() {
            assert(a[i] == v[i - p.len() - 1]);
        }
    }
}

proof fn lemma_strip_cr_assignment(l: Seq<char>)
    ensures
        is_assignment(strip_cr(l)) == is_assignment(l),
{
    lemma_prefix_shape();
    let p = ASSIGNMENT_PREFIX@;
    if l.len() > 0 && l.last() == '\r' {
        let s = l.drop_last();
        if is_assignment(l) {
            assert(l.len() > p.len()) by {
                if l.len() == p.len() {
                    assert(l.take(p.len() as int) =~= l);
                }
            }
            assert(s.take(p.len() as int) =~= l.take(p.len() as int));
        }
        if is_assignment(s) {
            assert(s.take(p.len() as int) =~= l.take(p.len() as int));
        }
    }
}

/// Sequences whose lines agree on being assignments have equal counts.
proof fn lemma_count_pointwise(x: Seq<Seq<char>>, y: Seq<Seq<char>>)
    requires
        x.len() == y.len(),
        forall|i: int| 0 <= i < x.len() ==> is_assignment(#[trigger] x[i]) == is_assignment(y[i]),
    ensures
        assignment_count(x) == assignment_count(y),
    decreases x.len(),
{
    if x.len() > 0 {
        lemma_count_pointwise(x.drop_last(), y.drop_last());
    }
}

proof fn lemma_count_strip(ls: Seq<Seq<char>>)
    ensures
        assignment_count(ls.map_values(|l: Seq<char>| strip_cr(l))) == assignment_count(ls),
{
    let m = ls.map_values(|l: Seq<char>| strip_cr(l));
    assert forall|i: int| 0 <= i < m.len() implies is_assignment(#[trigger] m[i]) == is_assignment(ls[i]) by {
        lemma_strip_cr_assignment(ls[i]);
    }
    lemma_count_pointwise(m, ls);
}

proof fn lemma_rewrite(ls: Seq<Seq<char>>, a: Seq<char>)
    requires
        is_assignment(a),
    ensures
        assignment_count(rewrite(ls, a)) == if assignment_count(ls) > 0 { 1nat } else { 0nat },
        forall|i: int|
            0 <= i < rewrite(ls, a).len() && is_assignment(#[trigger] rewrite(ls, a)[i]) ==> rewrite(ls, a)[i] == a,
        rewrite(ls, a).len() + assignment_count(ls) == ls.len() + if assignment_count(ls) > 0 { 1int } else { 0int },
        (no_newline(a) && forall|i: int| 0 <= i < ls.len() ==> no_newline(#[trigger] ls[i])) ==> forall|i: int|
            0 <= i < rewrite(ls, a).len() ==> no_newline(#[trigger] rewrite(ls, a)[i]),
    decreases ls.len(),
{
    if ls.len() > 0 {
        let d = ls.drop_last();
        lemma_rewrite(d, a);
        if no_newline(a) && forall|i: int| 0 <= i < ls.len() ==> no_newline(#[trigger] ls[i]) {
            assert forall|i: int| 0 <= i < d.len() implies no_newline(#[trigger] d[i]) by {
                assert(d[i] == ls[i]);
            }
        }
        let r = rewrite(ls, a);
        let rd = rewrite(d, a);
        if r.len() > rd.len() {
            assert(r.drop_last() =~= rd);
        }
    }
}

proof fn lemma_count_zero(ls: Seq<Seq<char>>)
    requires
        assignment_count(ls) == 0,
    ensures
        forall|i: int| 0 <= i < ls.len() ==> !is_assignment(#[trigger] ls[i]),
    decreases ls.len(),
{
    if ls.len() > 0 {
        let d = ls.drop_last();
        lemma_count_zero(d);
        assert forall|i: int| 0 <= i < ls.len() implies !is_assignment(#[trigger] ls[i]) by {
            if i < d.len() {
                assert(d[i] == ls[i]);
            }
        }
    }
}

proof fn lemma_find_none(ls: Seq<Seq<char>>)
    requires
        assignment_count(ls) == 0,
    ensures
        find_value(ls) is None,
    decreases ls.len(),
{
    if ls.len() > 0 {
        lemma_find_none(ls.drop_last());
    }
}

proof fn lemma_find_single(ls: Seq<Seq<char>>, a: Seq<char>)
    requires
        assignment_count(ls) >= 1,
        forall|i: int| 0 <= i < ls.len() && is_assignment(#[trigger] ls[i]) ==> ls[i] == a,
        assignment_value(a).len() > 0,
    ensures
        find_value(ls) == Some(assignment_value(a)),
    decreases ls.len(),
{
    let d = ls.drop_last();
    assert forall|i: int| 0 <= i < d.len() && is_assignment(#[trigger] d[i]) implies d[i] == a by {
        assert(d[i] == ls[i]);
    }
    if assignment_count(d) >= 1 {
        lemma_find_single(d, a);
    } else {
        lemma_find_none(d);
    }
}

/// After one write of a value without a line feed, the file holds exactly
/// one assignment line, the one for that value; where it held one already,
/// the write adds no line.
pub proof fn lemma_write_leaves_one_assignment(c: Seq<char>, v: Seq<char>)
    requires
        no_newline(v),
    ensures
        assignment_count(lines_of(merged(c, v))) == 1,
        forall|i: int|
            0 <= i < lines_of(merged(c, v)).len() && is_assignment(#[trigger] lines_of(merged(c, v))[i])
                ==> lines_of(merged(c, v))[i] == assignment_of(v),
        assignment_count(lines_of(c)) > 0 ==> lines_of(merged(c, v)).len() <= lines_of(c).len(),
{
    let a = assignment_of(v);
    lemma_assignment_shape(v);
    let ls = lines_of(c);
    let new = lines_of(merged(c, v));
    lemma_lines_no_newline(c);
    lemma_rewrite(ls, a);
    if assignment_count(ls) > 0 {
        let r = rewrite(ls, a);
        lemma_scan_join(r);
        let dm = r.drop_last().map_values(|l: Seq<char>| strip_cr(l));
        lemma_count_strip(r.drop_last());
        assert(r.drop_last().push(r.last()) =~= r);
        if r.last().len() > 0 {
            assert(new == dm.push(r.last()));
            assert(new.drop_last() =~= dm);
        } else {
            assert(new == dm);
            assert(!is_assignment(r.last())) by {
                lemma_prefix_shape();
            }
        }
        assert forall|i: int| 0 <= i < new.len() && is_assignment(#[trigger] new[i]) implies new[i] == a by {
            if i < dm.len() {
                lemma_strip_cr_assignment(r[i]);
                assert(r.drop_last()[i] == r[i]);
                assert(new[i] == dm[i]);
                assert(dm[i] == strip_cr(r[i]));
                assert(is_assignment(r[i]));
                assert(r[i] == a);
                assert(strip_cr(a) == a);
                assert(new[i] == a);
            } else {
                assert(r.last().len() > 0);
                assert(new[i] == r.last());
                assert(r[r.len() - 1] == r.last());
                assert(is_assignment(r[r.len() - 1]));
                assert(r[r.len() - 1] == a);
            }
        }
    } else {
        let t = terminated(c);
        lemma_terminated(c);
        lemma_append_line(t, a);
        let lt = lines_of(t);
        assert forall|i: int| 0 <= i < lt.len() implies is_assignment(#[trigger] lt[i]) == is_assignment(ls[i]) by {
            lemma_strip_cr_assignment(ls[i]);
        }
        lemma_count_pointwise(lt, ls);
        assert(new == lt.push(a));
        assert(new.drop_last() =~= lt);
        lemma_count_zero(lt);
        assert forall|i: int| 0 <= i < new.len() && is_assignment(#[trigger] new[i]) implies new[i] == a by {
            if i < lt.len() {
                assert(new[i] == lt[i]);
            }
        }
    }
}

/// Writing `v1` and then `v2` leaves exactly one assignment line, the one
/// for `v2`; where `v1` holds no line feed either, the second write adds no
/// line to the file.
pub proof fn lemma_write_twice(c: Seq<char>, v1: Seq<char>, v2: Seq<char>)
    requires
        no_newline(v2),
    ensures
        assignment_count(lines_of(merged(merged(c, v1), v2))) == 1,
        forall|i: int|
            0 <= i < lines_of(merged(merged(c, v1), v2)).len() && is_assignment(
                #[trigger] lines_of(merged(merged(c, v1), v2))[i],
            ) ==> lines_of(merged(merged(c, v1), v2))[i] == assignment_of(v2),
        no_newline(v1) ==> lines_of(merged(merged(c, v1), v2)).len() <= lines_of(merged(c, v1)).len(),
{
    lemma_write_leaves_one_assignment(merged(c, v1), v2);
    if no_newline(v1) {
        lemma_write_leaves_one_assignment(c, v1);
    }
}

/// Writing into content without an assignment line appends exactly one line:
/// the old lines stay in order (the last one at most losing a final carriage
/// return), the new last line is the assignment, and the count of other
/// lines is unchanged. Unless the content ends in a bare carriage return
/// (which the added line feed turns into a line ending), the other lines are
/// kept exactly.
pub proof fn lemma_append_when_absent(c: Seq<char>, v: Seq<char>)
    requires
        assignment_count(lines_of(c)) == 0,
        no_newline(v),
    ensures
        lines_of(merged(c, v)).len() == lines_of(c).len() + 1,
        lines_of(merged(c, v)).last() == assignment_of(v),
        forall|i: int|
            0 <= i < lines_of(c).len() ==> (#[trigger] lines_of(merged(c, v))[i] == lines_of(c)[i]
                || lines_of(merged(c, v))[i] == strip_cr(lines_of(c)[i])),
        assignment_count(lines_of(merged(c, v))) == 1,
        lines_of(merged(c, v)).len() - assignment_count(lines_of(merged(c, v)))
            == lines_of(c).len() - assignment_count(lines_of(c)),
        (c.len() == 0 || c.last() != '\r') ==> lines_of(merged(c, v)) == lines_of(c).push(assignment_of(v)),
        (c.len() == 0 || c.last() != '\r') ==> non_assignments(lines_of(merged(c, v))) == non_assignments(lines_of(c)),
{
    lemma_write_leaves_one_assignment(c, v);
    lemma_assignment_shape(v);
    lemma_terminated(c);
    lemma_append_line(terminated(c), assignment_of(v));
    let new = lines_of(merged(c, v));
    assert(new.drop_last() =~= lines_of(terminated(c)));
}

/// Right after a write of `v`, the in-process value is `v`, so the reader
/// returns `v` whatever the start-up files hold.
pub proof fn lemma_round_trip(v: Seq<char>, files: Seq<Option<Seq<char>>>)
    ensures
        read_from(Some(v), files) == Some(v),
{
}

/// A value that is not empty, holds no line feed, and neither starts nor
/// ends with a single quote reads back from the file the writer produced.
pub proof fn lemma_round_trip_through_file(c: Seq<char>, v: Seq<char>)
    requires
        v.len() > 0,
        no_newline(v),
        v[0] != '\'',
        v.last() != '\'',
    ensures
        find_value(lines_of(merged(c, v))) == Some(v),
        files_value(seq![Some(merged(c, v))]) == Some(v),
{
    let a = assignment_of(v);
    lemma_write_leaves_one_assignment(c, v);
    let rest = a.skip(ASSIGNMENT_PREFIX@.len() as int);
    assert(rest =~= seq!['"'] + v + seq!['"']);
    assert(rest.skip(1) =~= v + seq!['"']);
    assert(strip_front(rest, '"') == v + seq!['"']);
    assert((v + seq!['"']).drop_last() =~= v);
    assert(unquote(rest, '"') == v);
    assert(strip_front(v, '\'') == v);
    assert(strip_back(v, '\'') == v);
    assert(assignment_value(a) == v);
    lemma_find_single(lines_of(merged(c, v)), a);
    let files = seq![Some(merged(c, v))];
    assert(files.drop_last() =~= Seq::<Option<Seq<char>>>::empty());
    assert(files_value(files.drop_last()) is None);
    assert(files.last() == Some(merged(c, v)));
}

/// With no in-process value and no readable start-up file, the reader finds
/// nothing.
pub proof fn lemma_absent_without_sources(files: Seq<Option<Seq<char>>>)
    requires
        forall|i: int| 0 <= i < files.len() ==> #[trigger] files[i] is None,
    ensures
        read_from(None, files) is None,
    decreases files.len(),
{
    if files.len() > 0 {
        let d = files.drop_last();
        assert forall|i: int| 0 <= i < d.len() implies #[trigger] d[i] is None by {
            assert(d[i] == files[i]);
        }
        lemma_absent_without_sources(d);
    }
}

} // verus!
