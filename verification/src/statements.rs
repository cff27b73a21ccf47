//! Splitting a migration body into its individual statements.
//!
//! A body is plain text holding one or more statements separated by the
//! delimiter character `;`. Fragments are trimmed of leading and trailing
//! whitespace (the Unicode White_Space set, as `str::trim` trims it) and
//! empty fragments are discarded. (The split is naive: a delimiter inside a
//! string literal or comment is not recognised; bodies are expected to be
//! straight-line DDL.)

use vstd::prelude::*;

verus! {

/// Whitespace as trimmed from statement fragments: the Unicode White_Space
/// set, exactly what `str::trim` removes.
pub open spec fn is_trim_space(c: char) -> bool {
    ||| c == ' '
    ||| c == '\t'
    ||| c == '\n'
    ||| c == '\u{000b}'
    ||| c == '\u{000c}'
    ||| c == '\r'
    ||| c == '\u{0085}'
    ||| c == '\u{00a0}'
    ||| c == '\u{1680}'
    ||| c == '\u{2000}'
    ||| c == '\u{2001}'
    ||| c == '\u{2002}'
    ||| c == '\u{2003}'
    ||| c == '\u{2004}'
    ||| c == '\u{2005}'
    ||| c == '\u{2006}'
    ||| c == '\u{2007}'
    ||| c == '\u{2008}'
    ||| c == '\u{2009}'
    ||| c == '\u{200a}'
    ||| c == '\u{2028}'
    ||| c == '\u{2029}'
    ||| c == '\u{202f}'
    ||| c == '\u{205f}'
    ||| c == '\u{3000}'
}

/// Executable check for [`is_trim_space`].
fn trim_space(c: char) -> (r: bool)
    ensures
        r == is_trim_space(c),
{
    c == ' ' || c == '\t' || c == '\n' || c == '\u{000b}' || c == '\u{000c}' || c == '\r'
        || c == '\u{0085}' || c == '\u{00a0}' || c == '\u{1680}' || c == '\u{2000}'
        || c == '\u{2001}' || c == '\u{2002}' || c == '\u{2003}' || c == '\u{2004}'
        || c == '\u{2005}' || c == '\u{2006}' || c == '\u{2007}' || c == '\u{2008}'
        || c == '\u{2009}' || c == '\u{200a}' || c == '\u{2028}' || c == '\u{2029}'
        || c == '\u{202f}' || c == '\u{205f}' || c == '\u{3000}'
}

/// A fragment without its leading whitespace.
pub open spec fn trim_front(s: Seq<char>) -> Seq<char>
    decreases s.len(),
{
    if s.len() > 0 && is_trim_space(s[0]) {
        trim_front(s.drop_first())
    } else {
        s
    }
}

/// A fragment without its trailing whitespace.
pub open spec fn trim_back(s: Seq<char>) -> Seq<char>
    decreases s.len(),
{
    if s.len() > 0 && is_trim_space(s.last()) {
        trim_back(s.drop_last())
    } else {
        s
    }
}

/// A fragment without leading or trailing whitespace.
pub open spec fn trimmed(s: Seq<char>) -> Seq<char> {
    trim_back(trim_front(s))
}

/// The raw fragments of a body between delimiters, empty fragments included.
/// A body with no delimiter is one fragment; every `;` ends a fragment.
pub open spec fn fragments(s: Seq<char>) -> Seq<Seq<char>>
    decreases s.len(),
{
    if s.len() == 0 {
        seq![Seq::<char>::empty()]
    } else if s.last() == ';' {
        fragments(s.drop_last()).push(Seq::<char>::empty())
    } else {
        let f = fragments(s.drop_last());
        f.update(f.len() - 1, f.last().push(s.last()))
    }
}

/// Each fragment, trimmed.
pub open spec fn trim_all(g: Seq<Seq<char>>) -> Seq<Seq<char>> {
    g.map_values(|f: Seq<char>| trimmed(f))
}

/// Only the non-empty fragments.
pub open spec fn keep_nonempty(g: Seq<Seq<char>>) -> Seq<Seq<char>> {
    g.filter(|t: Seq<char>| t.len() > 0)
}

/// The statements of a body: its fragments, trimmed, empty ones discarded.
pub open spec fn statements_of(body: Seq<char>) -> Seq<Seq<char>> {
    keep_nonempty(trim_all(fragments(body)))
}

/// What a single fragment contributes to the statement list.
pub open spec fn stmt_of_fragment(f: Seq<char>) -> Seq<Seq<char>> {
    if trimmed(f).len() > 0 {
        seq![trimmed(f)]
    } else {
        Seq::<Seq<char>>::empty()
    }
}

/// The views of a vector of strings.
pub open spec fn string_views(v: Seq<String>) -> Seq<Seq<char>> {
    v.map_values(|s: String| s@)
}

/// A body always has at least one raw fragment.
pub proof fn lemma_fragments_nonempty(s: Seq<char>)
    ensures
        fragments(s).len() >= 1,
    decreases s.len(),
{
    if s.len() > 0 {
        lemma_fragments_nonempty(s.drop_last());
    }
}

/// Trimming and filtering distribute over appending one fragment.
pub proof fn lemma_statements_push(g: Seq<Seq<char>>, x: Seq<char>)
    ensures
        keep_nonempty(trim_all(g.push(x))) == keep_nonempty(trim_all(g)) + stmt_of_fragment(x),
{
    reveal_with_fuel(Seq::<Seq<char>>::filter, 2);
    assert(trim_all(g.push(x)) =~= trim_all(g).push(trimmed(x)));
    let tg = trim_all(g);
    let tx = trimmed(x);
    assert((tg.push(tx)).drop_last() =~= tg);
    assert((tg.push(tx)).last() == tx);
    if tx.len() > 0 {
        assert(keep_nonempty(tg.push(tx)) == keep_nonempty(tg).push(tx));
        assert(keep_nonempty(tg).push(tx) =~= keep_nonempty(tg) + stmt_of_fragment(x));
    } else {
        assert(keep_nonempty(tg.push(tx)) == keep_nonempty(tg));
        assert(keep_nonempty(tg) =~= keep_nonempty(tg) + stmt_of_fragment(x));
    }
}

/// Appending a whitespace character does not change a fragment's trimmed
/// form.
proof fn lemma_trimmed_push_space(x: Seq<char>, c: char)
    requires
        is_trim_space(c),
    ensures
        trimmed(x.push(c)) == trimmed(x),
    decreases x.len(),
{
    let y = x.push(c);
    if x.len() == 0 {
        assert(y.drop_last() =~= x);
        assert(trimmed(y) == trim_back(trim_front(y)));
        assert(trim_front(y) == trim_front(y.drop_first()));
        assert(y.drop_first() =~= Seq::<char>::empty());
    } else if is_trim_space(x[0]) {
        assert(y.drop_first() =~= x.drop_first().push(c));
        lemma_trimmed_push_space(x.drop_first(), c);
        assert(trim_front(y) == trim_front(x.drop_first().push(c)));
        assert(trim_front(x) == trim_front(x.drop_first()));
    } else {
        assert(trim_front(y) == y);
        assert(trim_front(x) == x);
        assert(y.drop_last() =~= x);
        assert(trim_back(y) == trim_back(x));
    }
}

/// A fragment ending in a non-whitespace character trims to something
/// non-empty.
proof fn lemma_trimmed_last_nonspace(x: Seq<char>, c: char)
    requires
        !is_trim_space(c),
    ensures
        trimmed(x.push(c)).len() >= 1,
    decreases x.len(),
{
    let y = x.push(c);
    if x.len() == 0 {
        assert(trim_front(y) == y);
        assert(trim_back(y) == y);
    } else if is_trim_space(x[0]) {
        assert(y.drop_first() =~= x.drop_first().push(c));
        lemma_trimmed_last_nonspace(x.drop_first(), c);
        assert(trim_front(y) == trim_front(x.drop_first().push(c)));
    } else {
        assert(trim_front(y) == y);
        assert(y.last() == c);
        assert(trim_back(y) == y);
    }
}

/// A body holding any character that is neither whitespace nor the delimiter
/// yields at least one statement.
pub proof fn lemma_statement_exists(s: Seq<char>, k: int)
    requires
        0 <= k < s.len(),
        !is_trim_space(s[k]),
        s[k] != ';',
    ensures
        statements_of(s).len() >= 1,
    decreases s.len(),
{
    let g = fragments(s.drop_last());
    lemma_fragments_nonempty(s.drop_last());
    if s.last() == ';' {
        assert(fragments(s) == g.push(Seq::<char>::empty()));
        lemma_statements_push(g, Seq::<char>::empty());
        assert(trimmed(Seq::<char>::empty()).len() == 0);
        assert(statements_of(s) =~= statements_of(s.drop_last()));
        lemma_statement_exists(s.drop_last(), k);
    } else {
        let extended = g.last().push(s.last());
        assert(fragments(s) == g.update(g.len() - 1, extended));
        assert(fragments(s) =~= g.drop_last().push(extended));
        assert(g =~= g.drop_last().push(g.last()));
        lemma_statements_push(g.drop_last(), extended);
        lemma_statements_push(g.drop_last(), g.last());
        let kept = keep_nonempty(trim_all(g.drop_last()));
        assert(statements_of(s) == kept + stmt_of_fragment(extended));
        if k == s.len() - 1 {
            lemma_trimmed_last_nonspace(g.last(), s.last());
            assert(stmt_of_fragment(extended).len() == 1);
        } else {
            lemma_statement_exists(s.drop_last(), k);
            assert(statements_of(s.drop_last()) == kept + stmt_of_fragment(g.last()));
            if is_trim_space(s.last()) {
                lemma_trimmed_push_space(g.last(), s.last());
                assert(stmt_of_fragment(extended) == stmt_of_fragment(g.last()));
            } else {
                lemma_trimmed_last_nonspace(g.last(), s.last());
                assert(stmt_of_fragment(extended).len() == 1);
                assert(stmt_of_fragment(g.last()).len() <= 1);
            }
        }
    }
}

/// Dropping leading whitespace one character at a time reaches the first
/// non-whitespace character.
proof fn lemma_trim_front_at(s: Seq<char>, k: int)
    requires
        0 <= k <= s.len(),
        forall|j: int| 0 <= j < k ==> is_trim_space(#[trigger] s[j]),
        k == s.len() || !is_trim_space(s[k]),
    ensures
        trim_front(s) == s.skip(k),
    decreases k,
{
    if k == 0 {
        assert(s.skip(0) =~= s);
    } else {
        lemma_trim_front_at(s.drop_first(), k - 1);
        assert(s.drop_first().skip(k - 1) =~= s.skip(k));
    }
}

/// Dropping trailing whitespace one character at a time reaches the last
/// non-whitespace character.
proof fn lemma_trim_back_at(s: Seq<char>, k: int)
    requires
        0 <= k <= s.len(),
        forall|j: int| k <= j < s.len() ==> is_trim_space(#[trigger] s[j]),
        k == 0 || !is_trim_space(s[k - 1]),
    ensures
        trim_back(s) == s.take(k),
    decreases s.len() - k,
{
    if k == s.len() {
        assert(s.take(k) =~= s);
    } else {
        lemma_trim_back_at(s.drop_last(), k);
        assert(s.drop_last().take(k) =~= s.take(k));
    }
}

/// Pushes the trimmed fragment `body[start..end]` onto `out`, unless it is
/// empty once trimmed.
fn push_fragment(out: &mut Vec<String>, body: &str, start: usize, end: usize)
    requires
        start <= end <= body@.len(),
    ensures
        string_views(final(out)@) == string_views(old(out)@) + stmt_of_fragment(
            body@.subrange(start as int, end as int),
        ),
{
    let frag = Ghost(body@.subrange(start as int, end as int));
    let mut ts = start;
    loop
        invariant
            start <= ts <= end <= body@.len(),
            forall|k: int| start <= k < ts ==> is_trim_space(#[trigger] body@[k]),
        ensures
            start <= ts <= end,
            forall|k: int| start <= k < ts ==> is_trim_space(#[trigger] body@[k]),
            ts == end || !is_trim_space(body@[ts as int]),
        decreases end - ts,
    {
        if ts == end {
            break ;
        }
        let c = body.get_char(ts);
        if !trim_space(c) {
            break ;
        }
        ts = ts + 1;
    }
    let mut te = end;
    loop
        invariant
            ts <= te <= end <= body@.len(),
            forall|k: int| te <= k < end ==> is_trim_space(#[trigger] body@[k]),
        ensures
            ts <= te <= end,
            forall|k: int| te <= k < end ==> is_trim_space(#[trigger] body@[k]),
            te == ts || !is_trim_space(body@[te - 1]),
        decreases te,
    {
        if te == ts {
            break ;
        }
        let c = body.get_char(te - 1);
        if !trim_space(c) {
            break ;
        }
        te = te - 1;
    }
    proof {
        lemma_trim_front_at(frag@, ts - start);
        assert(frag@.skip(ts - start) =~= body@.subrange(ts as int, end as int));
        lemma_trim_back_at(body@.subrange(ts as int, end as int), te - ts);
        assert(body@.subrange(ts as int, end as int).take(te - ts) =~= body@.subrange(
            ts as int,
            te as int,
        ));
        assert(trimmed(frag@) == body@.subrange(ts as int, te as int));
    }
    if te > ts {
        let piece = body.substring_char(ts, te).to_owned();
        out.push(piece);
        proof {
            assert(string_views(out@) =~= string_views(old(out)@) + stmt_of_fragment(frag@));
        }
    } else {
        proof {
            assert(trimmed(frag@).len() == 0);
            assert(string_views(out@) =~= string_views(old(out)@) + stmt_of_fragment(frag@));
        }
    }
}

/// Splits a body into its statements: fragments between `;` delimiters,
/// trimmed of ASCII whitespace, with empty fragments discarded.
pub fn split_statements(body: &str) -> (r: Vec<String>)
    ensures
        string_views(r@) == statements_of(body@),
{
    let n = body.unicode_len();
    let mut out: Vec<String> = Vec::new();
    let mut start: usize = 0;
    let mut i: usize = 0;
    proof {
        assert(body@.take(0) =~= Seq::<char>::empty());
        assert(fragments(body@.take(0)) == seq![Seq::<char>::empty()]);
        assert(fragments(body@.take(0)).drop_last() =~= Seq::<Seq<char>>::empty());
        assert(fragments(body@.take(0)).last() =~= body@.subrange(0, 0));
        assert(keep_nonempty(trim_all(Seq::<Seq<char>>::empty())) =~= Seq::<Seq<char>>::empty());
        assert(trim_all(Seq::<Seq<char>>::empty()) =~= Seq::<Seq<char>>::empty());
        assert(string_views(out@) =~= Seq::<Seq<char>>::empty());
    }
    while i < n
        invariant
            n == body@.len(),
            start <= i <= n,
            fragments(body@.take(i as int)).last() == body@.subrange(start as int, i as int),
            string_views(out@) == keep_nonempty(
                trim_all(fragments(body@.take(i as int)).drop_last()),
            ),
        decreases n - i,
    {
        let ghost prev = body@.take(i as int);
        let ghost fprev = fragments(prev);
        proof {
            lemma_fragments_nonempty(prev);
            assert(body@.take(i + 1) =~= prev.push(body@[i as int]));
            assert((prev.push(body@[i as int])).drop_last() =~= prev);
        }
        let c = body.get_char(i);
        if c == ';' {
            push_fragment(&mut out, body, start, i);
            proof {
                assert(fragments(body@.take(i + 1)) == fprev.push(Seq::<char>::empty()));
                assert(fragments(body@.take(i + 1)).drop_last() =~= fprev);
                assert(fprev =~= fprev.drop_last().push(fprev.last()));
                lemma_statements_push(fprev.drop_last(), fprev.last());
                assert(fragments(body@.take(i + 1)).last() =~= body@.subrange(
                    i + 1,
                    i + 1,
                ));
            }
            start = i + 1;
        } else {
            proof {
                let fnew = fprev.update(fprev.len() - 1, fprev.last().push(body@[i as int]));
                assert(fragments(body@.take(i + 1)) == fnew);
                assert(fnew.drop_last() =~= fprev.drop_last());
                assert(fnew.last() == fprev.last().push(body@[i as int]));
                assert(fprev.last().push(body@[i as int]) =~= body@.subrange(
                    start as int,
                    i + 1,
                ));
            }
        }
        i = i + 1;
    }
    proof {
        assert(body@.take(n as int) =~= body@);
    }
    push_fragment(&mut out, body, start, n);
    proof {
        lemma_fragments_nonempty(body@);
        let f = fragments(body@);
        assert(f =~= f.drop_last().push(f.last()));
        lemma_statements_push(f.drop_last(), f.last());
    }
    out
}

} // verus!
