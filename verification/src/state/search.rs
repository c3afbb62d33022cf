//! Turning a free-text user query into a safe FTS5 match expression.
use vstd::prelude::*;

verus! {

broadcast use vstd::string::group_string_axioms;

/// Whether `c` is an ASCII letter or digit.
pub open spec fn ascii_alphanumeric(c: char) -> bool {
    let u = c as u32;
    (0x30 <= u <= 0x39) || (0x41 <= u <= 0x5A) || (0x61 <= u <= 0x7A)
}

/// What `char::is_alphanumeric` answers for a non-ASCII `c` (Unicode
/// Alphabetic or Numeric).
pub uninterp spec fn non_ascii_alphanumeric(c: char) -> bool;

/// What `char::is_alphanumeric` answers for `c`: among ASCII characters
/// exactly the letters and digits, and beyond ASCII the named result.
pub open spec fn char_is_alphanumeric(c: char) -> bool {
    if (c as u32) < 0x80 {
        ascii_alphanumeric(c)
    } else {
        non_ascii_alphanumeric(c)
    }
}

/// Whether `c` has the Unicode White_Space property, which is what
/// `char::is_whitespace` answers: the 25 code points U+0009..=U+000D, U+0020,
/// U+0085, U+00A0, U+1680, U+2000..=U+200A, U+2028, U+2029, U+202F, U+205F
/// and U+3000.
pub open spec fn char_is_whitespace(c: char) -> bool {
    let u = c as u32;
    ||| 0x09 <= u <= 0x0D
    ||| u == 0x20
    ||| u == 0x85
    ||| u == 0xA0
    ||| u == 0x1680
    ||| 0x2000 <= u <= 0x200A
    ||| u == 0x2028
    ||| u == 0x2029
    ||| u == 0x202F
    ||| u == 0x205F
    ||| u == 0x3000
}

/// Calls `char::is_alphanumeric`. Among ASCII characters it answers true
/// exactly for the letters and digits; beyond ASCII its result is named, as a
/// function of `c` alone.
#[verifier::external_body]
fn is_alphanumeric(c: char) -> (r: bool)
    ensures
        (c as u32) < 0x80 ==> r == ascii_alphanumeric(c),
        (c as u32) >= 0x80 ==> r == non_ascii_alphanumeric(c),
{
    c.is_alphanumeric()
}

/// Whether `c` is whitespace (the Unicode White_Space property).
fn is_whitespace(c: char) -> (r: bool)
    ensures
        r == char_is_whitespace(c),
{
    let u = c as u32;
    (0x09 <= u && u <= 0x0D) || u == 0x20 || u == 0x85 || u == 0xA0 || u == 0x1680 || (0x2000 <= u
        && u <= 0x200A) || u == 0x2028 || u == 0x2029 || u == 0x202F || u == 0x205F || u == 0x3000
}

/// Calls `String::push`, which appends one character to the string.
#[verifier::external_body]
fn push_char(s: &mut String, c: char)
    ensures
        final(s)@ == old(s)@.push(c),
{
    s.push(c)
}

/// A query character survives sanitizing when it is alphanumeric or whitespace.
pub open spec fn kept_in_fts5_query(c: char) -> bool {
    char_is_alphanumeric(c) || char_is_whitespace(c)
}

/// The characters of `q` that survive sanitizing, in order.
pub open spec fn fts5_kept_chars(q: Seq<char>) -> Seq<char> {
    q.filter(|c: char| kept_in_fts5_query(c))
}

/// The maximal runs of non-whitespace characters of `s`, in order
/// (what `str::split_whitespace` yields).
pub open spec fn whitespace_words(s: Seq<char>) -> Seq<Seq<char>>
    decreases s.len(),
{
    if s.len() == 0 {
        Seq::empty()
    } else {
        let words = whitespace_words(s.drop_last());
        let c = s.last();
        if char_is_whitespace(c) {
            words
        } else if s.len() > 1 && !char_is_whitespace(s[s.len() - 2]) {
            words.update(words.len() - 1, words.last().push(c))
        } else {
            words.push(seq![c])
        }
    }
}

/// A word wrapped in double quotes.
pub open spec fn quoted(w: Seq<char>) -> Seq<char> {
    seq!['"'] + w + seq!['"']
}

/// The quoted words, separated by single spaces.
pub open spec fn join_quoted(words: Seq<Seq<char>>) -> Seq<char>
    decreases words.len(),
{
    if words.len() == 0 {
        Seq::empty()
    } else if words.len() == 1 {
        quoted(words[0])
    } else {
        join_quoted(words.drop_last()) + seq![' '] + quoted(words.last())
    }
}

/// The FTS5 match expression for the user query `q`: the special characters
/// removed, and each remaining word quoted.
pub open spec fn sanitized_fts5_query(q: Seq<char>) -> Seq<char> {
    join_quoted(whitespace_words(fts5_kept_chars(q)))
}

proof fn lemma_kept_step(q: Seq<char>, i: int)
    requires
        0 <= i < q.len(),
    ensures
        fts5_kept_chars(q.take(i + 1)) == (if kept_in_fts5_query(q[i]) {
            fts5_kept_chars(q.take(i)).push(q[i])
        } else {
            fts5_kept_chars(q.take(i))
        }),
{
    reveal_with_fuel(Seq::filter, 1);
    assert(q.take(i + 1).drop_last() =~= q.take(i));
}

proof fn lemma_extend_last_word(words: Seq<Seq<char>>, c: char)
    requires
        words.len() > 0,
    ensures
        join_quoted(words.update(words.len() - 1, words.last().push(c)))
            == join_quoted(words).drop_last() + seq![c, '"'],
{
    let w2 = words.update(words.len() - 1, words.last().push(c));
    if words.len() == 1 {
        assert(join_quoted(w2) =~= join_quoted(words).drop_last() + seq![c, '"']);
    } else {
        assert(w2.drop_last() =~= words.drop_last());
        assert(join_quoted(w2) =~= join_quoted(words).drop_last() + seq![c, '"']);
    }
}

proof fn lemma_start_word(words: Seq<Seq<char>>, c: char)
    ensures
        join_quoted(words.push(seq![c])) == (if words.len() == 0 {
            seq!['"', c, '"']
        } else {
            join_quoted(words) + seq![' ', '"', c, '"']
        }),
{
    let w2 = words.push(seq![c]);
    assert(w2.drop_last() =~= words);
    if words.len() == 0 {
        assert(join_quoted(w2) =~= seq!['"', c, '"']);
    } else {
        assert(join_quoted(w2) =~= join_quoted(words) + seq![' ', '"', c, '"']);
    }
}

proof fn lemma_words_push(s: Seq<char>, c: char)
    ensures
        whitespace_words(s.push(c)) == (if char_is_whitespace(c) {
            whitespace_words(s)
        } else if s.len() > 0 && !char_is_whitespace(s.last()) {
            whitespace_words(s).update(
                whitespace_words(s).len() - 1,
                whitespace_words(s).last().push(c),
            )
        } else {
            whitespace_words(s).push(seq![c])
        }),
{
    let t = s.push(c);
    assert(t.drop_last() =~= s);
    assert(t.last() == c);
    if s.len() > 0 {
        assert(t[t.len() - 2] == s.last());
    }
}

/// Every character of every word of `s` is a non-whitespace character that
/// satisfies any predicate all characters of `s` satisfy; and `s` has words
/// exactly when it has a non-whitespace character.
proof fn lemma_words_chars(s: Seq<char>, p: spec_fn(char) -> bool)
    requires
        forall|k: int| 0 <= k < s.len() ==> p(#[trigger] s[k]),
    ensures
        forall|i: int, j: int|
            0 <= i < whitespace_words(s).len() && 0 <= j < whitespace_words(s)[i].len() ==> {
                let c = #[trigger] whitespace_words(s)[i][j];
                p(c) && !char_is_whitespace(c)
            },
        whitespace_words(s).len() == 0 <==> forall|k: int|
            0 <= k < s.len() ==> char_is_whitespace(#[trigger] s[k]),
    decreases s.len(),
{
    if s.len() > 0 {
        let t = s.drop_last();
        let c = s.last();
        assert forall|k: int| 0 <= k < t.len() implies p(#[trigger] t[k]) by {
            assert(t[k] == s[k]);
        }
        lemma_words_chars(t, p);
        lemma_words_push(t, c);
        assert(t.push(c) =~= s);
        let w = whitespace_words(t);
        if !char_is_whitespace(c) {
            assert(p(s[s.len() - 1]));
            if t.len() > 0 && !char_is_whitespace(t.last()) {
                assert(!char_is_whitespace(t[t.len() - 1]));
                assert(w.len() > 0);
            }
        } else {
            assert forall|k: int| 0 <= k < t.len() && char_is_whitespace(#[trigger] t[k]) implies
                char_is_whitespace(s[k]) by {}
            if forall|k: int| 0 <= k < t.len() ==> char_is_whitespace(#[trigger] t[k]) {
                assert forall|k: int| 0 <= k < s.len() implies char_is_whitespace(#[trigger] s[k]) by {
                    if k < t.len() {
                        assert(s[k] == t[k]);
                    }
                }
            } else {
                let k = choose|k: int| 0 <= k < t.len() && !char_is_whitespace(#[trigger] t[k]);
                assert(s[k] == t[k]);
            }
        }
        if forall|k: int| 0 <= k < s.len() ==> char_is_whitespace(#[trigger] s[k]) {
            assert forall|k: int| 0 <= k < t.len() implies char_is_whitespace(#[trigger] t[k]) by {
                assert(s[k] == t[k]);
            }
        }
    }
}

/// Every character of the joined text is a quote, a space, or a character of
/// one of the words; the text is empty exactly when there are no words.
proof fn lemma_join_chars(words: Seq<Seq<char>>, p: spec_fn(char) -> bool)
    requires
        forall|i: int, j: int|
            0 <= i < words.len() && 0 <= j < words[i].len() ==> p(#[trigger] words[i][j]),
    ensures
        forall|k: int|
            0 <= k < join_quoted(words).len() ==> {
                let c = #[trigger] join_quoted(words)[k];
                c == '"' || c == ' ' || p(c)
            },
        join_quoted(words).len() == 0 <==> words.len() == 0,
    decreases words.len(),
{
    if words.len() > 0 {
        let w = words.last();
        assert forall|j: int| 0 <= j < w.len() implies p(#[trigger] w[j]) by {
            assert(w[j] == words[words.len() - 1][j]);
        }
        let q = quoted(w);
        assert forall|k: int| 0 <= k < q.len() implies (#[trigger] q[k] == '"' || q[k] == ' ' || p(q[k])) by {
            if 0 < k < q.len() - 1 {
                assert(q[k] == w[k - 1]);
            }
        }
        if words.len() > 1 {
            let front = words.drop_last();
            assert forall|i: int, j: int|
                0 <= i < front.len() && 0 <= j < front[i].len() implies p(#[trigger] front[i][j]) by {
                assert(front[i] == words[i]);
            }
            lemma_join_chars(front, p);
            let a = join_quoted(front);
            let all = a + seq![' '] + q;
            assert(join_quoted(words) == all);
            assert forall|k: int| 0 <= k < all.len() implies (#[trigger] all[k] == '"' || all[k] == ' ' || p(all[k])) by {
                if k < a.len() {
                    assert(all[k] == a[k]);
                } else if k > a.len() {
                    assert(all[k] == q[k - a.len() - 1]);
                }
            }
        }
    }
}

/// The expression that sanitizing produces holds no FTS5 syntax: each of its
/// characters is a double quote, a space, or an alphanumeric character that is
/// not whitespace.
pub proof fn lemma_sanitized_chars(q: Seq<char>)
    ensures
        forall|k: int|
            0 <= k < sanitized_fts5_query(q).len() ==> {
                let c = #[trigger] sanitized_fts5_query(q)[k];
                c == '"' || c == ' ' || (char_is_alphanumeric(c) && !char_is_whitespace(c))
            },
{
    let kept = fts5_kept_chars(q);
    let pred = |c: char| kept_in_fts5_query(c);
    broadcast use vstd::seq_lib::group_filter_ensures;
    assert forall|k: int| 0 <= k < kept.len() implies kept_in_fts5_query(#[trigger] kept[k]) by {
        assert(pred(kept[k]));
    }
    lemma_words_chars(kept, |c: char| kept_in_fts5_query(c));
    let w = whitespace_words(kept);
    let good = |c: char| char_is_alphanumeric(c) && !char_is_whitespace(c);
    assert forall|i: int, j: int| 0 <= i < w.len() && 0 <= j < w[i].len() implies good(#[trigger] w[i][j]) by {
        let c = w[i][j];
        assert(kept_in_fts5_query(c) && !char_is_whitespace(c));
    }
    lemma_join_chars(w, good);
}

/// Each kept character is a character of the query.
proof fn lemma_kept_from_query(q: Seq<char>, m: int)
    requires
        0 <= m < fts5_kept_chars(q).len(),
    ensures
        exists|k: int| 0 <= k < q.len() && q[k] == fts5_kept_chars(q)[m],
    decreases q.len(),
{
    reveal_with_fuel(Seq::filter, 1);
    let t = q.drop_last();
    if m < fts5_kept_chars(t).len() {
        lemma_kept_from_query(t, m);
        let k = choose|k: int| 0 <= k < t.len() && t[k] == fts5_kept_chars(t)[m];
        assert(q[k] == t[k]);
    } else {
        assert(q[q.len() - 1] == fts5_kept_chars(q)[m]);
    }
}

/// Sanitizing yields an empty expression (so a search runs no query) exactly
/// when the query has no alphanumeric character other than whitespace.
pub proof fn lemma_sanitized_empty(q: Seq<char>)
    ensures
        sanitized_fts5_query(q).len() == 0 <==> forall|k: int|
            0 <= k < q.len() ==> !(char_is_alphanumeric(#[trigger] q[k]) && !char_is_whitespace(q[k])),
{
    let kept = fts5_kept_chars(q);
    let pred = |c: char| kept_in_fts5_query(c);
    broadcast use vstd::seq_lib::group_filter_ensures;
    lemma_words_chars(kept, |c: char| true);
    lemma_join_chars(whitespace_words(kept), |c: char| true);
    if sanitized_fts5_query(q).len() == 0 {
        assert forall|k: int| 0 <= k < q.len() implies !(char_is_alphanumeric(#[trigger] q[k])
            && !char_is_whitespace(q[k])) by {
            if char_is_alphanumeric(q[k]) && !char_is_whitespace(q[k]) {
                assert(pred(q[k]));
                q.lemma_filter_contains(pred, k);
                assert(kept.contains(q[k]));
                let m = choose|m: int| 0 <= m < kept.len() && kept[m] == q[k];
                assert(char_is_whitespace(kept[m]));
            }
        }
    } else {
        let m = choose|m: int| 0 <= m < kept.len() && !char_is_whitespace(#[trigger] kept[m]);
        assert(pred(kept[m]));
        lemma_kept_from_query(q, m);
    }
}

/// Whether `s` ends inside a word (its last character is not whitespace).
pub open spec fn ends_in_word(s: Seq<char>) -> bool {
    s.len() > 0 && !char_is_whitespace(s.last())
}

/// The words separated by single spaces, without quotes.
spec fn join_plain(words: Seq<Seq<char>>) -> Seq<char>
    decreases words.len(),
{
    if words.len() == 0 {
        Seq::empty()
    } else if words.len() == 1 {
        words[0]
    } else {
        join_plain(words.drop_last()) + seq![' '] + words.last()
    }
}

/// The words of `x + y` depend on `x` only through the words of `x` and
/// whether `x` ends inside a word.
proof fn lemma_words_context(x1: Seq<char>, x2: Seq<char>, y: Seq<char>)
    requires
        whitespace_words(x1) == whitespace_words(x2),
        ends_in_word(x1) == ends_in_word(x2),
    ensures
        whitespace_words(x1 + y) == whitespace_words(x2 + y),
        ends_in_word(x1 + y) == ends_in_word(x2 + y),
    decreases y.len(),
{
    if y.len() > 0 {
        let yp = y.drop_last();
        let c = y.last();
        lemma_words_context(x1, x2, yp);
        lemma_words_push(x1 + yp, c);
        lemma_words_push(x2 + yp, c);
        assert((x1 + yp).push(c) =~= x1 + y);
        assert((x2 + yp).push(c) =~= x2 + y);
    }
}

/// Appending whitespace adds no word, and leaves the text outside a word.
proof fn lemma_words_whitespace_run(x: Seq<char>, w: Seq<char>)
    requires
        forall|k: int| 0 <= k < w.len() ==> char_is_whitespace(#[trigger] w[k]),
    ensures
        whitespace_words(x + w) == whitespace_words(x),
        w.len() > 0 ==> !ends_in_word(x + w),
    decreases w.len(),
{
    if w.len() > 0 {
        let wp = w.drop_last();
        assert forall|k: int| 0 <= k < wp.len() implies char_is_whitespace(#[trigger] wp[k]) by {
            assert(wp[k] == w[k]);
        }
        lemma_words_whitespace_run(x, wp);
        assert(char_is_whitespace(w[w.len() - 1]));
        lemma_words_push(x + wp, w.last());
        assert((x + wp).push(w.last()) =~= x + w);
    } else {
        assert(x + w =~= x);
    }
}

/// Appending a run of non-whitespace characters outside a word adds that run
/// as one new word.
proof fn lemma_words_append_word(x: Seq<char>, y: Seq<char>)
    requires
        !ends_in_word(x),
        y.len() > 0,
        forall|k: int| 0 <= k < y.len() ==> !char_is_whitespace(#[trigger] y[k]),
    ensures
        whitespace_words(x + y) == whitespace_words(x).push(y),
        ends_in_word(x + y),
    decreases y.len(),
{
    let c = y.last();
    assert(!char_is_whitespace(y[y.len() - 1]));
    if y.len() == 1 {
        lemma_words_push(x, c);
        assert(x.push(c) =~= x + y);
        assert(seq![c] =~= y);
    } else {
        let yp = y.drop_last();
        assert forall|k: int| 0 <= k < yp.len() implies !char_is_whitespace(#[trigger] yp[k]) by {
            assert(yp[k] == y[k]);
        }
        lemma_words_append_word(x, yp);
        lemma_words_push(x + yp, c);
        assert((x + yp).push(c) =~= x + y);
        let w = whitespace_words(x);
        assert(w.push(yp).update(w.len() as int, w.push(yp).last().push(c)) =~= w.push(y)) by {
            assert(yp.push(c) =~= y);
        }
    }
}

/// Every word of `s` is non-empty, and there is a word when `s` ends inside one.
proof fn lemma_words_nonempty(s: Seq<char>)
    ensures
        ends_in_word(s) ==> whitespace_words(s).len() > 0,
        forall|i: int| 0 <= i < whitespace_words(s).len() ==> #[trigger] whitespace_words(s)[i].len() > 0,
    decreases s.len(),
{
    if s.len() > 0 {
        lemma_words_nonempty(s.drop_last());
        lemma_words_push(s.drop_last(), s.last());
        assert(s.drop_last().push(s.last()) =~= s);
    }
}

/// Keeping characters distributes over concatenation.
proof fn lemma_kept_add(a: Seq<char>, b: Seq<char>)
    ensures
        fts5_kept_chars(a + b) == fts5_kept_chars(a) + fts5_kept_chars(b),
{
    Seq::filter_distributes_over_add(a, b, |c: char| kept_in_fts5_query(c));
}

/// A single character is kept or dropped.
proof fn lemma_kept_single(c: char)
    ensures
        fts5_kept_chars(seq![c]) == (if kept_in_fts5_query(c) {
            seq![c]
        } else {
            Seq::<char>::empty()
        }),
{
    reveal_with_fuel(Seq::filter, 2);
    assert(seq![c].drop_last() =~= Seq::<char>::empty());
    if kept_in_fts5_query(c) {
        assert(Seq::<char>::empty().push(c) =~= seq![c]);
    }
}

/// A text whose characters are all kept is unchanged by keeping.
proof fn lemma_kept_all(w: Seq<char>)
    requires
        forall|k: int| 0 <= k < w.len() ==> kept_in_fts5_query(#[trigger] w[k]),
    ensures
        fts5_kept_chars(w) == w,
    decreases w.len(),
{
    reveal_with_fuel(Seq::filter, 1);
    if w.len() > 0 {
        let wp = w.drop_last();
        assert forall|k: int| 0 <= k < wp.len() implies kept_in_fts5_query(#[trigger] wp[k]) by {
            assert(wp[k] == w[k]);
        }
        lemma_kept_all(wp);
        assert(kept_in_fts5_query(w[w.len() - 1]));
        assert(wp.push(w.last()) =~= w);
    } else {
        assert(w =~= Seq::<char>::empty());
    }
}

/// Deleting a character that is neither alphanumeric nor whitespace (an FTS5
/// special character such as `-`, `*`, `"` or `(`) from a query leaves the
/// sanitized expression unchanged: special characters are removed, not turned
/// into word breaks.
pub proof fn lemma_sanitize_drops_special_char(a: Seq<char>, c: char, b: Seq<char>)
    requires
        !char_is_alphanumeric(c),
        !char_is_whitespace(c),
    ensures
        sanitized_fts5_query(a + seq![c] + b) == sanitized_fts5_query(a + b),
{
    lemma_kept_add(a + seq![c], b);
    lemma_kept_add(a, seq![c]);
    lemma_kept_add(a, b);
    lemma_kept_single(c);
    assert(fts5_kept_chars(a) + Seq::<char>::empty() =~= fts5_kept_chars(a));
}

/// Replacing one non-empty run of whitespace in a query by another leaves the
/// sanitized expression unchanged.
pub proof fn lemma_sanitize_whitespace_runs(
    a: Seq<char>,
    w1: Seq<char>,
    w2: Seq<char>,
    b: Seq<char>,
)
    requires
        w1.len() > 0,
        w2.len() > 0,
        forall|k: int| 0 <= k < w1.len() ==> char_is_whitespace(#[trigger] w1[k]),
        forall|k: int| 0 <= k < w2.len() ==> char_is_whitespace(#[trigger] w2[k]),
    ensures
        sanitized_fts5_query(a + w1 + b) == sanitized_fts5_query(a + w2 + b),
{
    lemma_kept_add(a + w1, b);
    lemma_kept_add(a, w1);
    lemma_kept_add(a + w2, b);
    lemma_kept_add(a, w2);
    lemma_kept_all(w1);
    lemma_kept_all(w2);
    let x = fts5_kept_chars(a);
    lemma_words_whitespace_run(x, w1);
    lemma_words_whitespace_run(x, w2);
    lemma_words_context(x + w1, x + w2, fts5_kept_chars(b));
}

/// Keeping the characters of the quoted, space-separated words (whose
/// characters are all kept) drops the quotes and keeps the spaces.
proof fn lemma_kept_join_quoted(words: Seq<Seq<char>>)
    requires
        forall|i: int, j: int|
            0 <= i < words.len() && 0 <= j < words[i].len() ==> kept_in_fts5_query(
                #[trigger] words[i][j],
            ),
    ensures
        fts5_kept_chars(join_quoted(words)) == join_plain(words),
    decreases words.len(),
{
    reveal_with_fuel(Seq::filter, 1);
    if words.len() > 0 {
        let w = words.last();
        assert forall|j: int| 0 <= j < w.len() implies kept_in_fts5_query(#[trigger] w[j]) by {
            assert(w[j] == words[words.len() - 1][j]);
        }
        lemma_kept_all(w);
        lemma_kept_single('"');
        lemma_kept_single(' ');
        lemma_kept_add(seq!['"'], w);
        lemma_kept_add(seq!['"'] + w, seq!['"']);
        assert(Seq::<char>::empty() + w + Seq::<char>::empty() =~= w);
        if words.len() == 1 {
            assert(join_quoted(words) == quoted(words[0]));
        } else {
            let front = words.drop_last();
            assert forall|i: int, j: int|
                0 <= i < front.len() && 0 <= j < front[i].len() implies kept_in_fts5_query(
                #[trigger] front[i][j],
            ) by {
                assert(front[i] == words[i]);
            }
            lemma_kept_join_quoted(front);
            lemma_kept_add(join_quoted(front), seq![' ']);
            lemma_kept_add(join_quoted(front) + seq![' '], quoted(w));
        }
    } else {
        assert(join_quoted(words) =~= Seq::<char>::empty());
    }
}

/// Splitting the space-separated non-empty words (of non-whitespace
/// characters) gives the words back.
proof fn lemma_words_join_plain(words: Seq<Seq<char>>)
    requires
        forall|i: int| 0 <= i < words.len() ==> #[trigger] words[i].len() > 0,
        forall|i: int, j: int|
            0 <= i < words.len() && 0 <= j < words[i].len() ==> !char_is_whitespace(
                #[trigger] words[i][j],
            ),
    ensures
        whitespace_words(join_plain(words)) == words,
        words.len() > 0 ==> ends_in_word(join_plain(words)),
    decreases words.len(),
{
    if words.len() > 0 {
        let w = words.last();
        assert(w.len() > 0);
        assert forall|j: int| 0 <= j < w.len() implies !char_is_whitespace(#[trigger] w[j]) by {
            assert(w[j] == words[words.len() - 1][j]);
        }
        if words.len() == 1 {
            lemma_words_append_word(Seq::empty(), w);
            assert(Seq::<char>::empty() + w =~= w);
            assert(Seq::<Seq<char>>::empty().push(w) =~= words);
        } else {
            let front = words.drop_last();
            assert forall|i: int| 0 <= i < front.len() implies #[trigger] front[i].len() > 0 by {
                assert(front[i] == words[i]);
            }
            assert forall|i: int, j: int|
                0 <= i < front.len() && 0 <= j < front[i].len() implies !char_is_whitespace(
                #[trigger] front[i][j],
            ) by {
                assert(front[i] == words[i]);
            }
            lemma_words_join_plain(front);
            let x = join_plain(front);
            lemma_words_whitespace_run(x, seq![' ']);
            lemma_words_append_word(x + seq![' '], w);
            assert(front.push(w) =~= words);
        }
    }
}

/// Sanitizing keeps every word whole: dropping the quotes of the expression
/// and splitting it on whitespace gives exactly the words of the query's kept
/// characters, in order, none dropped, cut or added.
pub proof fn lemma_sanitize_keeps_words(q: Seq<char>)
    ensures
        whitespace_words(fts5_kept_chars(sanitized_fts5_query(q))) == whitespace_words(
            fts5_kept_chars(q),
        ),
{
    let kept = fts5_kept_chars(q);
    let pred = |c: char| kept_in_fts5_query(c);
    broadcast use vstd::seq_lib::group_filter_ensures;
    assert forall|k: int| 0 <= k < kept.len() implies kept_in_fts5_query(#[trigger] kept[k]) by {
        assert(pred(kept[k]));
    }
    lemma_words_chars(kept, |c: char| kept_in_fts5_query(c));
    lemma_words_nonempty(kept);
    let words = whitespace_words(kept);
    assert forall|i: int, j: int|
        0 <= i < words.len() && 0 <= j < words[i].len() implies kept_in_fts5_query(
        #[trigger] words[i][j],
    ) by {
        let c = words[i][j];
        assert(kept_in_fts5_query(c) && !char_is_whitespace(c));
    }
    lemma_kept_join_quoted(words);
    lemma_words_join_plain(words);
}

/// Sanitizing an already sanitized expression gives it back unchanged.
pub proof fn lemma_sanitize_idempotent(q: Seq<char>)
    ensures
        sanitized_fts5_query(sanitized_fts5_query(q)) == sanitized_fts5_query(q),
{
    lemma_sanitize_keeps_words(q);
}

/// Sanitize a user query for FTS5 to prevent syntax errors.
///
/// Removes FTS5 special characters and wraps each word in quotes.
pub fn sanitize_fts5_query(query: &str) -> (res: String)
    ensures
        res@ == sanitized_fts5_query(query@),
        whitespace_words(fts5_kept_chars(res@)) == whitespace_words(fts5_kept_chars(query@)),
{
    proof {
        lemma_sanitize_keeps_words(query@);
    }
    let mut out = String::new();
    let mut in_word = false;
    let mut any_word = false;
    let ghost mut kept: Seq<char> = Seq::empty();
    for c in it: query.chars()
        invariant
            it.seq() == query@,
            kept == fts5_kept_chars(query@.take(it.index())),
            any_word == (whitespace_words(kept).len() > 0),
            in_word ==> {
                &&& kept.len() > 0
                &&& !char_is_whitespace(kept.last())
                &&& out@ + seq!['"'] == join_quoted(whitespace_words(kept))
            },
            !in_word ==> {
                &&& (kept.len() == 0 || char_is_whitespace(kept.last()))
                &&& out@ == join_quoted(whitespace_words(kept))
            },
    {
        proof {
            lemma_kept_step(query@, it.index());
        }
        let alnum = is_alphanumeric(c);
        let ws = is_whitespace(c);
        if alnum || ws {
            let ghost prev = kept;
            proof {
                lemma_words_push(prev, c);
                kept = prev.push(c);
            }
            if ws {
                if in_word {
                    push_char(&mut out, '"');
                    in_word = false;
                    assert(out@ =~= join_quoted(whitespace_words(kept)));
                }
            } else if in_word {
                proof {
                    lemma_extend_last_word(whitespace_words(prev), c);
                    assert(out@ =~= join_quoted(whitespace_words(prev)).drop_last());
                }
                push_char(&mut out, c);
                assert(out@ + seq!['"'] =~= join_quoted(whitespace_words(kept)));
            } else {
                proof {
                    lemma_start_word(whitespace_words(prev), c);
                }
                if any_word {
                    push_char(&mut out, ' ');
                }
                push_char(&mut out, '"');
                push_char(&mut out, c);
                in_word = true;
                any_word = true;
                assert(out@ + seq!['"'] =~= join_quoted(whitespace_words(kept)));
            }
        }
    }
    proof {
        assert(query@.take(query@.len() as int) =~= query@);
    }
    if in_word {
        push_char(&mut out, '"');
    }
    out
}

/// The FTS5 match expression that a search runs, or `None` when sanitizing
/// leaves nothing to match: such a search returns no results without asking
/// the database.
pub fn search_match_expression(query: &str) -> (r: Option<String>)
    ensures
        match r {
            Some(e) => e@ == sanitized_fts5_query(query@) && e@.len() > 0,
            None => sanitized_fts5_query(query@).len() == 0,
        },
        r is None <==> forall|k: int|
            0 <= k < query@.len() ==> !(char_is_alphanumeric(#[trigger] query@[k])
                && !char_is_whitespace(query@[k])),
{
    proof {
        lemma_sanitized_empty(query@);
    }
    let sanitized = sanitize_fts5_query(query);
    if sanitized.as_str().is_empty() {
        None
    } else {
        Some(sanitized)
    }
}

} // verus!
