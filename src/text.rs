use vstd::prelude::*;
use vstd::string::*;

verus! {

/// ASCII whitespace as `char::is_ascii_whitespace` defines it.
pub open spec fn is_ascii_ws(c: char) -> bool {
    c == ' ' || c == '\t' || c == '\n' || c == '\x0C' || c == '\r'
}

/// Scans `s` left to right for runs of characters that are not separators
/// (see `is_sep`). Returns the runs already closed and the run still open at
/// the end.
pub open spec fn run_scan(s: Seq<char>, lines: bool) -> (Seq<Seq<char>>, Seq<char>)
    decreases s.len(),
{
    if s.len() == 0 {
        (Seq::empty(), Seq::empty())
    } else {
        let (done, cur) = run_scan(s.drop_last(), lines);
        let c = s.last();
        if is_sep(c, lines) {
            if cur.len() > 0 {
                (done.push(cur), Seq::empty())
            } else {
                (done, cur)
            }
        } else {
            (done, cur.push(c))
        }
    }
}

/// The separator of a split: a line break, or any ASCII whitespace.
pub open spec fn is_sep(c: char, lines: bool) -> bool {
    if lines {
        c == '\n'
    } else {
        is_ascii_ws(c)
    }
}

/// The non-empty runs of `s` between separators, in order.
pub open spec fn runs(s: Seq<char>, lines: bool) -> Seq<Seq<char>> {
    let (done, cur) = run_scan(s, lines);
    if cur.len() > 0 {
        done.push(cur)
    } else {
        done
    }
}

/// The whitespace-delimited tokens of `s`.
pub open spec fn ascii_tokens(s: Seq<char>) -> Seq<Seq<char>> {
    runs(s, false)
}

/// The non-empty lines of `s`.
pub open spec fn nonempty_lines(s: Seq<char>) -> Seq<Seq<char>> {
    runs(s, true)
}

/// The views of a sequence of strings.
pub open spec fn views(v: Seq<String>) -> Seq<Seq<char>> {
    v.map_values(|s: String| s@)
}

/// Relies on `String::push`: appends one character.
#[verifier::external_body]
pub(crate) fn push_char(s: &mut String, c: char)
    ensures
        final(s)@ == old(s)@.push(c),
{
    s.push(c)
}

/// Whether `a` and `b` hold the same characters.
pub(crate) fn str_eq(a: &str, b: &str) -> (r: bool)
    ensures
        r == (a@ == b@),
{
    String::from_str(a) == String::from_str(b)
}

/// Whether `c` separates runs.
fn sep_char(c: char, lines: bool) -> (r: bool)
    ensures
        r == is_sep(c, lines),
{
    if lines {
        c == '\n'
    } else {
        c == ' ' || c == '\t' || c == '\n' || c == '\x0C' || c == '\r'
    }
}

/// Pushing a string pushes its view.
proof fn lemma_views_push(v: Seq<String>, s: String)
    ensures
        views(v.push(s)) == views(v).push(s@),
{
    assert(views(v.push(s)) =~= views(v).push(s@));
}

/// Splits `s` into its non-empty runs between separators.
pub(crate) fn split_runs(s: &str, lines: bool) -> (r: Vec<String>)
    ensures
        views(r@) == runs(s@, lines),
{
    let mut done: Vec<String> = Vec::new();
    let mut cur = String::new();
    for c in it: s.chars()
        invariant
            it.seq() == s@,
            (views(done@), cur@) == run_scan(s@.take(it.index() as int), lines),
    {
        let ghost prefix = s@.take(it.index() as int);
        proof {
            assert(s@.take(it.index() + 1).drop_last() =~= prefix);
        }
        if sep_char(c, lines) {
            if !cur.as_str().is_empty() {
                proof { lemma_views_push(done@, cur); }
                done.push(cur);
                cur = String::new();
            }
        } else {
            push_char(&mut cur, c);
        }
    }
    proof {
        assert(s@.take(s@.len() as int) =~= s@);
    }
    if !cur.as_str().is_empty() {
        proof { lemma_views_push(done@, cur); }
        done.push(cur);
    }
    done
}

/// Splits `s` at ASCII whitespace, dropping empty pieces.
pub fn split_ascii_whitespace(s: &str) -> (r: Vec<String>)
    ensures
        views(r@) == ascii_tokens(s@),
{
    split_runs(s, false)
}

/// Scanning a concatenation: where the scan of `a` has no open run, the
/// runs of `b` follow those of `a`.
pub proof fn lemma_run_scan_append(a: Seq<char>, b: Seq<char>, lines: bool)
    requires
        run_scan(a, lines).1.len() == 0,
    ensures
        run_scan(a + b, lines) == (run_scan(a, lines).0 + run_scan(b, lines).0, run_scan(
            b,
            lines,
        ).1),
    decreases b.len(),
{
    if b.len() == 0 {
        assert(a + b =~= a);
        assert(run_scan(a, lines).0 + run_scan(b, lines).0 =~= run_scan(a, lines).0);
    } else {
        lemma_run_scan_append(a, b.drop_last(), lines);
        assert((a + b).drop_last() =~= a + b.drop_last());
        assert((a + b).last() == b.last());
        let (d, c) = run_scan(b.drop_last(), lines);
        let da = run_scan(a, lines).0;
        assert((da + d).push(c) =~= da + d.push(c));
    }
}

/// The runs of a concatenation whose first part closes all its runs.
pub proof fn lemma_runs_append(a: Seq<char>, b: Seq<char>, lines: bool)
    requires
        run_scan(a, lines).1.len() == 0,
    ensures
        runs(a + b, lines) == runs(a, lines) + runs(b, lines),
{
    lemma_run_scan_append(a, b, lines);
    let (d, c) = run_scan(b, lines);
    let da = run_scan(a, lines).0;
    assert(runs(a, lines) == da);
    if c.len() > 0 {
        assert((da + d).push(c) =~= da + d.push(c));
    }
}

/// Text without separators is one open run.
pub proof fn lemma_run_scan_single(x: Seq<char>, lines: bool)
    requires
        forall|i: int| 0 <= i < x.len() ==> !is_sep(#[trigger] x[i], lines),
    ensures
        run_scan(x, lines) == (Seq::<Seq<char>>::empty(), x),
    decreases x.len(),
{
    if x.len() > 0 {
        lemma_run_scan_single(x.drop_last(), lines);
        assert(x.drop_last().push(x.last()) =~= x);
    }
}

/// A non-empty text without separators is a single run.
pub proof fn lemma_runs_single(x: Seq<char>, lines: bool)
    requires
        x.len() > 0,
        forall|i: int| 0 <= i < x.len() ==> !is_sep(#[trigger] x[i], lines),
    ensures
        runs(x, lines) == seq![x],
{
    lemma_run_scan_single(x, lines);
    assert(Seq::<Seq<char>>::empty().push(x) =~= seq![x]);
}

/// A non-empty text without separators, then one separator, is a single
/// run, and closes it.
pub proof fn lemma_runs_single_closed(x: Seq<char>, c: char, lines: bool)
    requires
        x.len() > 0,
        forall|i: int| 0 <= i < x.len() ==> !is_sep(#[trigger] x[i], lines),
        is_sep(c, lines),
    ensures
        runs(x.push(c), lines) == seq![x],
        run_scan(x.push(c), lines).1.len() == 0,
{
    lemma_run_scan_single(x, lines);
    assert(x.push(c).drop_last() =~= x);
    assert(Seq::<Seq<char>>::empty().push(x) =~= seq![x]);
}

/// A run as a split yields it: non-empty and free of separators.
pub open spec fn clean_run(r: Seq<char>, lines: bool) -> bool {
    r.len() > 0 && forall|j: int| 0 <= j < r.len() ==> !is_sep(#[trigger] r[j], lines)
}

/// Every run is non-empty and free of separators.
pub proof fn lemma_runs_clean(s: Seq<char>, lines: bool)
    ensures
        forall|i: int| 0 <= i < runs(s, lines).len() ==> clean_run(#[trigger] runs(s, lines)[i], lines),
{
    lemma_run_scan_clean(s, lines);
}

/// Closed runs are clean; the open run is free of separators.
proof fn lemma_run_scan_clean(s: Seq<char>, lines: bool)
    ensures
        forall|i: int|
            0 <= i < run_scan(s, lines).0.len() ==> clean_run(#[trigger] run_scan(s, lines).0[i], lines),
        forall|j: int|
            0 <= j < run_scan(s, lines).1.len() ==> !is_sep(#[trigger] run_scan(s, lines).1[j], lines),
    decreases s.len(),
{
    if s.len() > 0 {
        lemma_run_scan_clean(s.drop_last(), lines);
        let (d, c) = run_scan(s.drop_last(), lines);
        if !is_sep(s.last(), lines) {
            assert forall|j: int| 0 <= j < c.push(s.last()).len() implies !is_sep(
                #[trigger] c.push(s.last())[j],
                lines,
            ) by {
                if j < c.len() {
                    assert(c.push(s.last())[j] == c[j]);
                }
            }
        }
    }
}

} // verus!
