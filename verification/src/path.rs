//! Request-path validation: turns a `/`-separated URI path into a safe
//! relative key, rejecting traversal above the root and reserved-character
//! segments.

use crate::strutil::push_char;
use vstd::prelude::*;

verus! {

/// Classified failure of the path segment validator.
#[derive(Debug, PartialEq, Eq, Structural)]
pub enum UriSegmentError {
    /// The segment started with the wrapped invalid character.
    BadStart(char),
    /// The segment contained the wrapped invalid character; raised only on
    /// platforms whose path separator the character is.
    BadChar(char),
    /// The segment ended with the wrapped invalid character.
    BadEnd(char),
}

/// The segments of `s`, split on `'/'`; splitting the empty sequence gives
/// one empty segment, and every separator opens a new segment.
pub open spec fn split_segs(s: Seq<char>) -> Seq<Seq<char>>
    decreases s.len(),
{
    if s.len() == 0 {
        seq![Seq::<char>::empty()]
    } else if s[0] == '/' {
        seq![Seq::<char>::empty()] + split_segs(s.drop_first())
    } else {
        let rest = split_segs(s.drop_first());
        seq![seq![s[0]] + rest[0]] + rest.drop_first()
    }
}

/// Is `seg` the parent-directory marker `..`?
pub open spec fn seg_is_parent(seg: Seq<char>) -> bool {
    seg == seq!['.', '.']
}

/// A segment the validator accepts onto the output stack: non-empty, not the
/// parent marker, and free of the rejected leading and trailing characters.
pub open spec fn seg_pushable(seg: Seq<char>) -> bool {
    &&& seg.len() > 0
    &&& !seg_is_parent(seg)
    &&& seg[0] != '.'
    &&& seg[0] != '*'
    &&& seg[seg.len() - 1] != ':'
    &&& seg[seg.len() - 1] != '>'
    &&& seg[seg.len() - 1] != '<'
}

/// One left-to-right pass over `segs` from position `i` with output stack
/// `acc`: `..` pops, a leading `.` or `*` and a trailing `:`, `>` or `<` are
/// rejected, empty segments are skipped, everything else is pushed.
pub open spec fn validate_from(segs: Seq<Seq<char>>, i: int, acc: Seq<Seq<char>>) -> Result<
    Seq<Seq<char>>,
    UriSegmentError,
>
    decreases segs.len() - i,
{
    if i < 0 || i >= segs.len() {
        Ok(acc)
    } else {
        let seg = segs[i];
        if seg_is_parent(seg) {
            validate_from(
                segs,
                i + 1,
                if acc.len() > 0 {
                    acc.drop_last()
                } else {
                    acc
                },
            )
        } else if seg.len() > 0 && seg[0] == '.' {
            Err(UriSegmentError::BadStart('.'))
        } else if seg.len() > 0 && seg[0] == '*' {
            Err(UriSegmentError::BadStart('*'))
        } else if seg.len() > 0 && seg[seg.len() - 1] == ':' {
            Err(UriSegmentError::BadEnd(':'))
        } else if seg.len() > 0 && seg[seg.len() - 1] == '>' {
            Err(UriSegmentError::BadEnd('>'))
        } else if seg.len() > 0 && seg[seg.len() - 1] == '<' {
            Err(UriSegmentError::BadEnd('<'))
        } else if seg.len() == 0 {
            validate_from(segs, i + 1, acc)
        } else {
            validate_from(segs, i + 1, acc.push(seg))
        }
    }
}

/// The accepted segments joined back together with `'/'`.
pub open spec fn join_segs(segs: Seq<Seq<char>>) -> Seq<char>
    decreases segs.len(),
{
    if segs.len() == 0 {
        Seq::<char>::empty()
    } else if segs.len() == 1 {
        segs[0]
    } else {
        segs[0] + seq!['/'] + join_segs(segs.drop_first())
    }
}

/// What the validator computes for a whole path: split, validate with pop
/// semantics, join.
pub open spec fn normalize_path(s: Seq<char>) -> Result<Seq<char>, UriSegmentError> {
    match validate_from(split_segs(s), 0, Seq::empty()) {
        Ok(segs) => Ok(join_segs(segs)),
        Err(e) => Err(e),
    }
}

proof fn lemma_split_segs_nonempty(s: Seq<char>)
    ensures
        split_segs(s).len() >= 1,
    decreases s.len(),
{
    if s.len() != 0 {
        lemma_split_segs_nonempty(s.drop_first());
    }
}

/// Splits a string into its `'/'`-separated segments.
pub(crate) fn split_path<'a>(path: &'a str) -> (segs: Vec<&'a str>)
    ensures
        segs@.map_values(|t: &str| t@) == split_segs(path@),
{
    let n = path.unicode_len();
    let mut done: Vec<&'a str> = Vec::new();
    proof {
        lemma_split_segs_nonempty(path@);
        assert(path@.skip(0) =~= path@);
        assert(path@.subrange(0, 0) =~= Seq::<char>::empty());
        assert(Seq::<char>::empty() + split_segs(path@)[0] =~= split_segs(path@)[0]);
        assert(cons_first(Seq::<char>::empty(), split_segs(path@)) =~= split_segs(path@));
        assert(done@.map_values(|t: &str| t@) =~= Seq::<Seq<char>>::empty());
    }
    let mut i: usize = 0;
    let mut j: usize = 0;
    while j < n
        invariant
            n == path@.len(),
            0 <= i <= j <= n,
            split_segs(path@) == done@.map_values(|t: &str| t@) + cons_first(
                path@.subrange(i as int, j as int),
                split_segs(path@.skip(j as int)),
            ),
        decreases n - j,
    {
        let c = path.get_char(j);
        proof {
            lemma_split_step(path@, i as int, j as int);
        }
        if c == '/' {
            let seg = path.substring_char(i, j);
            done.push(seg);
            proof {
                assert(done@.map_values(|t: &str| t@) =~= done@.map_values(
                    |t: &str| t@,
                ).drop_last().push(seg@));
            }
            i = j + 1;
        }
        j += 1;
    }
    proof {
        assert(path@.skip(n as int) =~= Seq::<char>::empty());
        reveal_with_fuel(split_segs, 1);
        assert(split_segs(path@.skip(n as int)) =~= seq![Seq::<char>::empty()]);
        assert(cons_first(path@.subrange(i as int, n as int), seq![Seq::<char>::empty()])
            =~= seq![path@.subrange(i as int, n as int)]);
    }
    let last = path.substring_char(i, n);
    done.push(last);
    proof {
        assert(done@.map_values(|t: &str| t@) =~= done@.map_values(
            |t: &str| t@,
        ).drop_last().push(last@));
        assert(done@.map_values(|t: &str| t@) =~= split_segs(path@));
    }
    done
}

/// The first segment of `segs` with `pre` prepended, followed by the rest.
spec fn cons_first(pre: Seq<char>, segs: Seq<Seq<char>>) -> Seq<Seq<char>> {
    seq![pre + segs[0]] + segs.drop_first()
}

proof fn lemma_split_step(s: Seq<char>, i: int, j: int)
    requires
        0 <= i <= j < s.len(),
    ensures
        s[j] != '/' ==> cons_first(s.subrange(i, j), split_segs(s.skip(j))) == cons_first(
            s.subrange(i, j + 1),
            split_segs(s.skip(j + 1)),
        ),
        s[j] == '/' ==> cons_first(s.subrange(i, j), split_segs(s.skip(j))) == seq![
            s.subrange(i, j),
        ] + cons_first(Seq::<char>::empty(), split_segs(s.skip(j + 1))),
{
    let t = s.skip(j);
    assert(t.len() > 0);
    assert(t[0] == s[j]);
    assert(t.drop_first() =~= s.skip(j + 1));
    lemma_split_segs_nonempty(s.skip(j + 1));
    let rest = split_segs(s.skip(j + 1));
    if s[j] != '/' {
        assert(split_segs(t) == seq![seq![t[0]] + rest[0]] + rest.drop_first());
        assert(s.subrange(i, j) + (seq![s[j]] + rest[0]) =~= s.subrange(i, j + 1) + rest[0]);
        assert(cons_first(s.subrange(i, j), split_segs(t)) =~= cons_first(
            s.subrange(i, j + 1),
            split_segs(s.skip(j + 1)),
        ));
    } else {
        assert(split_segs(t) == seq![Seq::<char>::empty()] + rest);
        assert(split_segs(t)[0] =~= Seq::<char>::empty());
        assert(s.subrange(i, j) + split_segs(t)[0] =~= s.subrange(i, j));
        assert(split_segs(t).drop_first() =~= rest);
        assert(seq![Seq::<char>::empty()] + rest != Seq::<Seq<char>>::empty());
        assert(cons_first(Seq::<char>::empty(), rest) =~= seq![rest[0]] + rest.drop_first());
        assert(seq![rest[0]] + rest.drop_first() =~= rest);
        assert(cons_first(s.subrange(i, j), split_segs(t)) =~= seq![s.subrange(i, j)] + rest);
    }
}

/// Does `seg` equal `..`?
fn seg_eq_parent(seg: &str) -> (r: bool)
    ensures
        r == seg_is_parent(seg@),
{
    let n = seg.unicode_len();
    if n != 2 {
        proof {
            assert(seg@ != seq!['.', '.']);
        }
        return false;
    }
    let r = seg.get_char(0) == '.' && seg.get_char(1) == '.';
    proof {
        if r {
            assert(seg@ =~= seq!['.', '.']);
        } else {
            assert(seg@ != seq!['.', '.']);
        }
    }
    r
}

/// Sanitizes a request path into a safe relative key: `..` pops the previous
/// accepted segment and never climbs above the root, empty segments collapse,
/// and segments with a leading `.` or `*` or a trailing `:`, `>` or `<` are
/// rejected with the classified error.
pub fn get_pathbuf(path: &str) -> (r: Result<String, UriSegmentError>)
    ensures
        r is Ok <==> normalize_path(path@) is Ok,
        r matches Ok(s) ==> normalize_path(path@) matches Ok(j) && s@ == j,
        r matches Err(e) ==> normalize_path(path@) matches Err(e2) && e == e2,
{
    let segs = split_path(path);
    let ghost sv = split_segs(path@);
    let mut stack: Vec<&str> = Vec::new();
    proof {
        assert(stack@.map_values(|t: &str| t@) =~= Seq::<Seq<char>>::empty());
    }
    let mut k: usize = 0;
    while k < segs.len()
        invariant
            sv == split_segs(path@),
            segs@.map_values(|t: &str| t@) == sv,
            0 <= k <= segs.len(),
            validate_from(sv, 0, Seq::empty()) == validate_from(
                sv,
                k as int,
                stack@.map_values(|t: &str| t@),
            ),
        decreases segs.len() - k,
    {
        let seg = segs[k];
        let n = seg.unicode_len();
        let ghost acc = stack@.map_values(|t: &str| t@);
        proof {
            assert(sv[k as int] == segs@.map_values(|t: &str| t@)[k as int]);
            assert(sv[k as int] == seg@);
        }
        if seg_eq_parent(seg) {
            if stack.len() > 0 {
                stack.pop();
                proof {
                    assert(stack@.map_values(|t: &str| t@) =~= acc.drop_last());
                }
            }
        } else if n > 0 && seg.get_char(0) == '.' {
            proof {
                assert(validate_from(sv, k as int, acc) == Err::<Seq<Seq<char>>, UriSegmentError>(
                    UriSegmentError::BadStart('.'),
                ));
            }
            return Err(UriSegmentError::BadStart('.'));
        } else if n > 0 && seg.get_char(0) == '*' {
            proof {
                assert(validate_from(sv, k as int, acc) == Err::<Seq<Seq<char>>, UriSegmentError>(
                    UriSegmentError::BadStart('*'),
                ));
            }
            return Err(UriSegmentError::BadStart('*'));
        } else if n > 0 && seg.get_char(n - 1) == ':' {
            proof {
                assert(validate_from(sv, k as int, acc) == Err::<Seq<Seq<char>>, UriSegmentError>(
                    UriSegmentError::BadEnd(':'),
                ));
            }
            return Err(UriSegmentError::BadEnd(':'));
        } else if n > 0 && seg.get_char(n - 1) == '>' {
            proof {
                assert(validate_from(sv, k as int, acc) == Err::<Seq<Seq<char>>, UriSegmentError>(
                    UriSegmentError::BadEnd('>'),
                ));
            }
            return Err(UriSegmentError::BadEnd('>'));
        } else if n > 0 && seg.get_char(n - 1) == '<' {
            proof {
                assert(validate_from(sv, k as int, acc) == Err::<Seq<Seq<char>>, UriSegmentError>(
                    UriSegmentError::BadEnd('<'),
                ));
            }
            return Err(UriSegmentError::BadEnd('<'));
        } else if n == 0 {
            // an empty segment (as in `//`) is skipped
        } else {
            stack.push(seg);
            proof {
                assert(stack@.map_values(|t: &str| t@) =~= acc.push(seg@));
            }
        }
        k += 1;
    }
    let ghost accepted = stack@.map_values(|t: &str| t@);
    proof {
        assert(validate_from(sv, 0, Seq::empty()) == Ok::<_, UriSegmentError>(accepted));
    }
    let out = join_prefix(&stack, stack.len());
    proof {
        assert(accepted.take(stack@.len() as int) =~= accepted);
    }
    Ok(out)
}

/// Joins the first `k` segments with `/`.
pub(crate) fn join_prefix(segs: &Vec<&str>, k: usize) -> (r: String)
    requires
        k <= segs@.len(),
    ensures
        r@ == join_segs(segs@.map_values(|t: &str| t@).take(k as int)),
{
    let ghost sv = segs@.map_values(|t: &str| t@);
    let mut out = String::new();
    let mut m: usize = 0;
    while m < k
        invariant
            sv == segs@.map_values(|t: &str| t@),
            0 <= m <= k <= segs@.len(),
            out@ == join_segs(sv.take(m as int)),
        decreases k - m,
    {
        proof {
            lemma_join_snoc(sv.take(m as int), sv[m as int]);
            assert(sv.take(m as int).push(sv[m as int]) =~= sv.take(m as int + 1));
        }
        if m > 0 {
            push_char(&mut out, '/');
        }
        out.append(segs[m]);
        m += 1;
    }
    out
}

/// A segment that may stand in a normalized key: non-empty and free of the
/// separator.
pub open spec fn seg_clean(seg: Seq<char>) -> bool {
    seg.len() > 0 && forall|k: int| 0 <= k < seg.len() ==> seg[k] != '/'
}

proof fn lemma_split_segs_no_slash(s: Seq<char>)
    ensures
        forall|j: int, k: int|
            0 <= j < split_segs(s).len() && 0 <= k < split_segs(s)[j].len() ==> #[trigger] split_segs(
                s,
            )[j][k] != '/',
    decreases s.len(),
{
    if s.len() == 0 {
    } else {
        lemma_split_segs_no_slash(s.drop_first());
        lemma_split_segs_nonempty(s.drop_first());
        let rest = split_segs(s.drop_first());
        if s[0] == '/' {
            assert(forall|j: int, k: int|
                0 <= j < split_segs(s).len() && 0 <= k < split_segs(s)[j].len() ==> #[trigger] split_segs(
                    s,
                )[j][k] != '/') by {
                assert(forall|j: int| 1 <= j < split_segs(s).len() ==> split_segs(s)[j] == rest[j
                    - 1]);
            }
        } else {
            assert(forall|j: int, k: int|
                0 <= j < split_segs(s).len() && 0 <= k < split_segs(s)[j].len() ==> #[trigger] split_segs(
                    s,
                )[j][k] != '/') by {
                assert(split_segs(s)[0] == seq![s[0]] + rest[0]);
                assert(forall|k: int|
                    0 <= k < rest[0].len() ==> #[trigger] rest[0][k] != '/');
                assert(forall|j: int| 1 <= j < split_segs(s).len() ==> split_segs(s)[j] == rest.drop_first()[j
                    - 1]);
                assert(forall|j: int| 0 <= j < rest.drop_first().len() ==> rest.drop_first()[j]
                    == #[trigger] rest[j + 1]);
            }
        }
    }
}

proof fn lemma_validate_output_clean(segs: Seq<Seq<char>>, i: int, acc: Seq<Seq<char>>)
    requires
        forall|j: int, k: int|
            0 <= j < segs.len() && 0 <= k < segs[j].len() ==> #[trigger] segs[j][k] != '/',
        forall|m: int| 0 <= m < acc.len() ==> seg_clean(#[trigger] acc[m]),
    ensures
        validate_from(segs, i, acc) matches Ok(out) ==> forall|m: int|
            0 <= m < out.len() ==> seg_clean(#[trigger] out[m]),
    decreases segs.len() - i,
{
    if i < 0 || i >= segs.len() {
    } else {
        let seg = segs[i];
        if seg_is_parent(seg) {
            let popped = if acc.len() > 0 {
                acc.drop_last()
            } else {
                acc
            };
            assert(forall|m: int| 0 <= m < popped.len() ==> seg_clean(#[trigger] popped[m]));
            lemma_validate_output_clean(segs, i + 1, popped);
        } else if seg.len() > 0 && (seg[0] == '.' || seg[0] == '*' || seg[seg.len() - 1] == ':'
            || seg[seg.len() - 1] == '>' || seg[seg.len() - 1] == '<') {
        } else if seg.len() == 0 {
            lemma_validate_output_clean(segs, i + 1, acc);
        } else {
            assert(seg_clean(seg));
            assert(forall|m: int| 0 <= m < acc.push(seg).len() ==> seg_clean(
                #[trigger] acc.push(seg)[m],
            ));
            lemma_validate_output_clean(segs, i + 1, acc.push(seg));
        }
    }
}

/// Law: a normalized key is root-relative: when validation succeeds and the
/// key is not empty, it never starts with `/`, so it can only name entries
/// inside the table's namespace.
pub proof fn lemma_normalized_key_is_relative(s: Seq<char>)
    requires
        normalize_path(s) is Ok,
    ensures
        ({
            let key = normalize_path(s)->Ok_0;
            key.len() > 0 ==> key[0] != '/'
        }),
{
    lemma_split_segs_no_slash(s);
    lemma_validate_output_clean(split_segs(s), 0, Seq::empty());
    let out = validate_from(split_segs(s), 0, Seq::empty())->Ok_0;
    if out.len() > 0 {
        assert(seg_clean(out[0]));
        lemma_join_head(out);
    } else {
        assert(join_segs(out).len() == 0);
    }
}

proof fn lemma_join_head(segs: Seq<Seq<char>>)
    requires
        segs.len() > 0,
        segs[0].len() > 0,
    ensures
        join_segs(segs).len() > 0,
        join_segs(segs)[0] == segs[0][0],
{
    if segs.len() == 1 {
    } else {
        assert(join_segs(segs) == segs[0] + seq!['/'] + join_segs(segs.drop_first()));
        assert((segs[0] + seq!['/'] + join_segs(segs.drop_first()))[0] == segs[0][0]);
    }
}

proof fn lemma_validate_suffix(segs: Seq<Seq<char>>, i: int, acc: Seq<Seq<char>>)
    requires
        0 <= i <= segs.len(),
    ensures
        validate_from(segs, i, acc) == validate_from(segs.skip(i), 0, acc),
    decreases segs.len() - i,
{
    let t = segs.skip(i);
    if i == segs.len() {
        assert(t.len() == 0);
    } else {
        assert(t[0] == segs[i]);
        assert(t.skip(1) =~= segs.skip(i + 1));
        let seg = segs[i];
        lemma_validate_suffix(segs, i + 1, acc);
        lemma_validate_suffix(segs, i + 1, acc.drop_last());
        lemma_validate_suffix(segs, i + 1, acc.push(seg));
        lemma_validate_suffix(t, 1, acc);
        lemma_validate_suffix(t, 1, acc.drop_last());
        lemma_validate_suffix(t, 1, acc.push(seg));
    }
}

/// Law: a `..` segment standing right after an accepted segment pops exactly
/// that segment and never errors itself: validating the whole segment list
/// gives the same outcome as validating the list with the `..` and its
/// predecessor removed.
pub proof fn lemma_parent_segment_pops(segs: Seq<Seq<char>>, i: int)
    requires
        1 <= i < segs.len(),
        seg_is_parent(segs[i]),
        seg_pushable(segs[i - 1]),
    ensures
        validate_from(segs, 0, Seq::empty()) == validate_from(
            segs.remove(i).remove(i - 1),
            0,
            Seq::empty(),
        ),
{
    lemma_agree(segs, i, 0, Seq::empty());
}

proof fn lemma_agree(segs: Seq<Seq<char>>, i: int, k: int, acc: Seq<Seq<char>>)
    requires
        1 <= i < segs.len(),
        0 <= k <= i - 1,
        seg_is_parent(segs[i]),
        seg_pushable(segs[i - 1]),
    ensures
        validate_from(segs, k, acc) == validate_from(segs.remove(i).remove(i - 1), k, acc),
    decreases i - k,
{
    let segs2 = segs.remove(i).remove(i - 1);
    assert(segs2.len() == segs.len() - 2);
    assert(forall|m: int| 0 <= m < i - 1 ==> segs2[m] == segs[m]);
    assert(forall|m: int| i - 1 <= m < segs2.len() ==> segs2[m] == segs[m + 2]);
    if k == i - 1 {
        let seg = segs[k];
        assert(validate_from(segs, k, acc) == validate_from(segs, i, acc.push(seg)));
        assert(validate_from(segs, i, acc.push(seg)) == validate_from(
            segs,
            i + 1,
            acc.push(seg).drop_last(),
        ));
        assert(acc.push(seg).drop_last() =~= acc);
        lemma_validate_suffix(segs, i + 1, acc);
        lemma_validate_suffix(segs2, i - 1, acc);
        assert(segs.skip(i + 1) =~= segs2.skip(i - 1));
    } else {
        assert(segs2[k] == segs[k]);
        lemma_agree(segs, i, k + 1, acc);
        lemma_agree(segs, i, k + 1, acc.drop_last());
        lemma_agree(segs, i, k + 1, acc.push(segs[k]));
    }
}

/// Law: a path whose first segment starts with `.` or `*` — the `..` marker
/// aside — is rejected, whatever else the path holds.
pub proof fn lemma_bad_start_rejected(s: Seq<char>)
    requires
        !seg_is_parent(split_segs(s)[0]),
        split_segs(s)[0].len() > 0,
        split_segs(s)[0][0] == '.' || split_segs(s)[0][0] == '*',
    ensures
        normalize_path(s) is Err,
{
    lemma_split_segs_nonempty(s);
    assert(validate_from(split_segs(s), 0, Seq::empty()) is Err);
}

/// Law: a path whose last segment ends with `:`, `>` or `<` is rejected,
/// whatever else the path holds.
pub proof fn lemma_bad_end_rejected(s: Seq<char>)
    requires
        ({
            let segs = split_segs(s);
            let seg = segs[segs.len() - 1];
            seg.len() > 0 && (seg[seg.len() - 1] == ':' || seg[seg.len() - 1] == '>' || seg[seg.len()
                - 1] == '<')
        }),
    ensures
        normalize_path(s) is Err,
{
    lemma_split_segs_nonempty(s);
    lemma_bad_last_err(split_segs(s), 0, Seq::empty());
}

proof fn lemma_bad_last_err(segs: Seq<Seq<char>>, i: int, acc: Seq<Seq<char>>)
    requires
        0 <= i < segs.len(),
        ({
            let seg = segs[segs.len() - 1];
            seg.len() > 0 && (seg[seg.len() - 1] == ':' || seg[seg.len() - 1] == '>' || seg[seg.len()
                - 1] == '<')
        }),
    ensures
        validate_from(segs, i, acc) is Err,
    decreases segs.len() - i,
{
    let seg = segs[i];
    if i == segs.len() - 1 {
        assert(!seg_is_parent(seg)) by {
            if seg_is_parent(seg) {
                assert(seg[seg.len() - 1] == '.');
            }
        }
    } else {
        if seg_is_parent(seg) {
            lemma_bad_last_err(
                segs,
                i + 1,
                if acc.len() > 0 {
                    acc.drop_last()
                } else {
                    acc
                },
            );
        } else if seg.len() == 0 {
            lemma_bad_last_err(segs, i + 1, acc);
        } else {
            lemma_bad_last_err(segs, i + 1, acc.push(seg));
        }
    }
}

proof fn lemma_join_snoc(segs: Seq<Seq<char>>, x: Seq<char>)
    ensures
        segs.len() == 0 ==> join_segs(segs.push(x)) == x,
        segs.len() > 0 ==> join_segs(segs.push(x)) == join_segs(segs) + seq!['/'] + x,
    decreases segs.len(),
{
    if segs.len() == 0 {
        assert(segs.push(x).len() == 1);
        assert(join_segs(segs.push(x)) == segs.push(x)[0]);
    } else {
        lemma_join_snoc(segs.drop_first(), x);
        assert(segs.push(x).drop_first() =~= segs.drop_first().push(x));
        assert(segs.push(x)[0] == segs[0]);
        if segs.len() == 1 {
            assert(segs.drop_first().len() == 0);
            assert(join_segs(segs.push(x)) == segs[0] + seq!['/'] + x);
            assert(join_segs(segs) == segs[0]);
        } else {
            assert(join_segs(segs.push(x)) == segs[0] + seq!['/'] + join_segs(
                segs.drop_first().push(x),
            ));
            assert(join_segs(segs.drop_first().push(x)) == join_segs(segs.drop_first())
                + seq!['/'] + x);
            assert(segs[0] + seq!['/'] + (join_segs(segs.drop_first()) + seq!['/'] + x) =~= (
            segs[0] + seq!['/'] + join_segs(segs.drop_first())) + seq!['/'] + x);
        }
    }
}

} // verus!
