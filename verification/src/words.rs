//! Word frequencies of a text: how often each white-space-separated word
//! occurs.
use vstd::prelude::*;
use crate::text::{is_white_space, is_white_space_char, push_char};

verus! {

/// The words of a text after a word begun with the characters `cur`: each
/// maximal non-empty run of characters without Unicode white space, in
/// order.
pub open spec fn words_after(s: Seq<char>, cur: Seq<char>) -> Seq<Seq<char>>
    decreases s.len(),
{
    let done: Seq<Seq<char>> = if cur.len() > 0 { seq![cur] } else { Seq::empty() };
    if s.len() == 0 {
        done
    } else if is_white_space(s[0]) {
        done + words_after(s.skip(1), Seq::empty())
    } else {
        words_after(s.skip(1), cur.push(s[0]))
    }
}

/// The words of a line: its non-empty runs of characters between Unicode
/// white space, in order.
pub open spec fn whitespace_words(s: Seq<char>) -> Seq<Seq<char>> {
    words_after(s, Seq::empty())
}

/// The words of a line, as std's `str::split_whitespace` yields them: its
/// non-empty runs of characters between Unicode white space, in order.
pub(crate) fn split_words(line: &str) -> (r: Vec<String>)
    ensures
        r@.len() == whitespace_words(line@).len(),
        forall|i: int| 0 <= i < r@.len() ==> #[trigger] r@[i]@ == whitespace_words(line@)[i],
{
    let n = line.unicode_len();
    let mut out: Vec<String> = Vec::new();
    let mut cur = String::new();
    let mut i: usize = 0;
    let ghost mut done: Seq<Seq<char>> = Seq::empty();
    assert(line@.skip(0) =~= line@);
    assert(done + words_after(line@, cur@) =~= whitespace_words(line@));
    while i < n
        invariant
            n == line@.len(),
            i <= n,
            out@.len() == done.len(),
            forall|k: int| 0 <= k < done.len() ==> #[trigger] out@[k]@ == done[k],
            done + words_after(line@.skip(i as int), cur@) == whitespace_words(line@),
        decreases n - i,
    {
        let c = line.get_char(i);
        let ghost t = line@.skip(i as int);
        proof {
            assert(t[0] == c);
            assert(t.skip(1) =~= line@.skip(i + 1));
        }
        if is_white_space_char(c) {
            if cur.as_str().unicode_len() > 0 {
                proof {
                    assert(words_after(t, cur@) == seq![cur@] + words_after(t.skip(1), Seq::empty()));
                    assert(done + (seq![cur@] + words_after(t.skip(1), Seq::empty())) =~= done.push(cur@)
                        + words_after(t.skip(1), Seq::empty()));
                    done = done.push(cur@);
                }
                out.push(cur);
                cur = String::new();
            } else {
                proof {
                    assert(cur@ =~= Seq::<char>::empty());
                    assert(Seq::<Seq<char>>::empty() + words_after(t.skip(1), Seq::empty()) =~= words_after(
                        t.skip(1),
                        Seq::empty(),
                    ));
                }
            }
        } else {
            push_char(&mut cur, c);
        }
        i = i + 1;
    }
    proof {
        assert(line@.skip(n as int) =~= Seq::<char>::empty());
    }
    if cur.as_str().unicode_len() > 0 {
        proof {
            assert(done + seq![cur@] =~= done.push(cur@));
            done = done.push(cur@);
        }
        out.push(cur);
    } else {
        proof {
            assert(done + Seq::<Seq<char>>::empty() =~= done);
        }
    }
    out
}

/// The words of several lines, line after line.
pub open spec fn words_of(lines: Seq<String>) -> Seq<Seq<char>>
    decreases lines.len(),
{
    if lines.len() == 0 {
        Seq::empty()
    } else {
        words_of(lines.drop_last()) + whitespace_words(lines.last()@)
    }
}

/// How many times `w` occurs in `ws`.
pub open spec fn occurrences(ws: Seq<Seq<char>>, w: Seq<char>) -> nat
    decreases ws.len(),
{
    if ws.len() == 0 {
        0
    } else {
        occurrences(ws.drop_last(), w) + if ws.last() == w { 1nat } else { 0nat }
    }
}

/// A word and the number of times it occurs.
#[derive(Clone, Debug, PartialEq)]
pub struct WordCount {
    pub word: String,
    pub count: usize,
}

/// Whether `w` is listed in `counts`.
pub open spec fn listed(counts: Seq<WordCount>, w: Seq<char>) -> bool {
    exists|i: int| 0 <= i < counts.len() && #[trigger] counts[i].word@ == w
}

/// Whether `w` is one of `keys`.
pub open spec fn among(keys: Seq<String>, w: Seq<char>) -> bool {
    exists|i: int| 0 <= i < keys.len() && #[trigger] keys[i]@ == w
}

/// Whether `counts` tallies the words `ws`: each word of `ws` is listed
/// once, with the number of its occurrences, and nothing else is listed.
pub open spec fn tallies(counts: Seq<WordCount>, ws: Seq<Seq<char>>) -> bool {
    &&& forall|i: int, j: int| 0 <= i < j < counts.len() ==> counts[i].word@ != counts[j].word@
    &&& forall|i: int| 0 <= i < counts.len() ==> #[trigger] counts[i].count == occurrences(ws, counts[i].word@)
        && counts[i].count > 0
    &&& forall|k: int| 0 <= k < ws.len() ==> listed(counts, #[trigger] ws[k])
}

/// The sum of the counts of a tally.
pub open spec fn total_count(counts: Seq<WordCount>) -> int
    decreases counts.len(),
{
    if counts.len() == 0 { 0 } else { total_count(counts.drop_last()) + counts.last().count }
}

/// The sum of a sequence of counts.
pub open spec fn sum_of(xs: Seq<usize>) -> int
    decreases xs.len(),
{
    if xs.len() == 0 { 0 } else { sum_of(xs.drop_last()) + xs.last() }
}

/// Raising one count by one raises the sum by one.
proof fn lemma_sum_bump(xs: Seq<usize>, i: int, v: usize)
    requires
        0 <= i < xs.len(),
        v == xs[i] + 1,
    ensures
        sum_of(xs.update(i, v)) == sum_of(xs) + 1,
    decreases xs.len(),
{
    let ys = xs.update(i, v);
    if i == xs.len() - 1 {
        assert(ys.drop_last() =~= xs.drop_last());
    } else {
        assert(ys.drop_last() =~= xs.drop_last().update(i, v));
        lemma_sum_bump(xs.drop_last(), i, v);
    }
}

/// A word occurs no more often than there are words.
pub proof fn lemma_occurrences_bounded(ws: Seq<Seq<char>>, w: Seq<char>)
    ensures
        occurrences(ws, w) <= ws.len(),
    decreases ws.len(),
{
    if ws.len() > 0 {
        lemma_occurrences_bounded(ws.drop_last(), w);
    }
}

/// A word that does not occur in `ws` occurs zero times.
pub proof fn lemma_occurrences_absent(ws: Seq<Seq<char>>, w: Seq<char>)
    requires
        forall|k: int| 0 <= k < ws.len() ==> ws[k] != w,
    ensures
        occurrences(ws, w) == 0,
    decreases ws.len(),
{
    if ws.len() > 0 {
        lemma_occurrences_absent(ws.drop_last(), w);
    }
}

/// All the words of the lines, line after line.
pub fn words_of_lines(lines: &Vec<String>) -> (r: Vec<String>)
    ensures
        r@.len() == words_of(lines@).len(),
        forall|i: int| 0 <= i < r@.len() ==> #[trigger] r@[i]@ == words_of(lines@)[i],
{
    let mut out: Vec<String> = Vec::new();
    let n = lines.len();
    let mut i: usize = 0;
    while i < n
        invariant
            n == lines@.len(),
            i <= n,
            out@.len() == words_of(lines@.take(i as int)).len(),
            forall|j: int| 0 <= j < out@.len() ==> #[trigger] out@[j]@ == words_of(lines@.take(i as int))[j],
        decreases n - i,
    {
        let mut ws = split_words(lines[i].as_str());
        let ghost before = out@;
        let ghost added = ws@;
        assert(lines@.take(i + 1).drop_last() =~= lines@.take(i as int));
        assert(lines@.take(i + 1).last() == lines@[i as int]);
        out.append(&mut ws);
        assert(out@ =~= before + added);
        i = i + 1;
    }
    assert(lines@.take(n as int) =~= lines@);
    out
}

/// How often each word of `words` occurs, listed in order of first
/// occurrence.
pub fn tally_words(words: &Vec<String>) -> (r: Vec<WordCount>)
    ensures
        tallies(r@, words@.map_values(|w: String| w@)),
        total_count(r@) == words@.len(),
{
    let ghost ws = words@.map_values(|w: String| w@);
    let mut keys: Vec<String> = Vec::new();
    let mut counts: Vec<usize> = Vec::new();
    let n = words.len();
    let mut k: usize = 0;
    while k < n
        invariant
            n == words@.len(),
            ws == words@.map_values(|w: String| w@),
            k <= n,
            keys@.len() == counts@.len(),
            forall|i: int, j: int| 0 <= i < j < keys@.len() ==> keys@[i]@ != keys@[j]@,
            forall|i: int| 0 <= i < keys@.len() ==> #[trigger] counts@[i] == occurrences(ws.take(k as int), keys@[i]@)
                && counts@[i] > 0,
            forall|t: int| 0 <= t < k ==> among(keys@, #[trigger] ws[t]),
            sum_of(counts@) == k,
        decreases n - k,
    {
        let w = &words[k];
        let ghost old_keys = keys@;
        assert(ws[k as int] == w@);
        let ghost prefix = ws.take(k as int);
        assert(ws.take(k + 1).drop_last() =~= prefix);
        assert(ws.take(k + 1).last() == w@);
        let mut found: Option<usize> = None;
        let m = keys.len();
        let mut i: usize = 0;
        while i < m
            invariant
                m == keys@.len(),
                i <= m,
                found is None ==> forall|j: int| 0 <= j < i ==> keys@[j]@ != w@,
                found matches Some(f) ==> f < m && keys@[f as int]@ == w@,
            decreases m - i,
        {
            if found.is_none() && keys[i] == *w {
                found = Some(i);
            }
            i = i + 1;
        }
        match found {
            Some(f) => {
                proof {
                    lemma_occurrences_bounded(prefix, w@);
                }
                let c = counts[f] + 1;
                proof {
                    lemma_sum_bump(counts@, f as int, c);
                }
                counts.set(f, c);
            },
            None => {
                proof {
                    assert forall|t: int| 0 <= t < k implies prefix[t] != w@ by {
                        assert(among(keys@, ws[t]));
                        let j = choose|j: int| 0 <= j < keys@.len() && #[trigger] keys@[j]@ == ws[t];
                        assert(keys@[j]@ != w@);
                    }
                    lemma_occurrences_absent(prefix, w@);
                }
                keys.push(w.clone());
                let ghost before = counts@;
                counts.push(1);
                assert(counts@.drop_last() =~= before);
            },
        }
        proof {
            assert forall|t: int| 0 <= t < k + 1 implies among(keys@, #[trigger] ws[t]) by {
                if t == k {
                    match found {
                        Some(f) => assert(keys@[f as int]@ == ws[t]),
                        None => assert(keys@[keys@.len() - 1]@ == ws[t]),
                    }
                } else {
                    assert(among(old_keys, ws[t]));
                    let j = choose|j: int| 0 <= j < old_keys.len() && #[trigger] old_keys[j]@ == ws[t];
                    assert(keys@[j] == old_keys[j]);
                }
            }
        }
        k = k + 1;
    }
    assert(ws.take(n as int) =~= ws);
    let mut out: Vec<WordCount> = Vec::new();
    let mut i: usize = 0;
    let m = keys.len();
    while i < m
        invariant
            m == keys@.len(),
            m == counts@.len(),
            i <= m,
            out@.len() == i,
            forall|j: int| 0 <= j < i ==> #[trigger] out@[j].word@ == keys@[j]@ && out@[j].count == counts@[j],
            total_count(out@) == sum_of(counts@.take(i as int)),
        decreases m - i,
    {
        let ghost before = out@;
        out.push(WordCount { word: keys[i].clone(), count: counts[i] });
        assert(out@.drop_last() =~= before);
        assert(counts@.take(i + 1).drop_last() =~= counts@.take(i as int));
        i = i + 1;
    }
    assert(counts@.take(m as int) =~= counts@);
    proof {
        assert forall|t: int| 0 <= t < ws.len() implies listed(out@, #[trigger] ws[t]) by {
            assert(among(keys@, ws[t]));
            let j = choose|j: int| 0 <= j < keys@.len() && #[trigger] keys@[j]@ == ws[t];
            assert(out@[j].word@ == keys@[j]@);
        }
        assert forall|a: int| 0 <= a < out@.len() implies #[trigger] out@[a].count == occurrences(ws, out@[a].word@)
            && out@[a].count > 0 by {
            assert(out@[a].word@ == keys@[a]@);
        }
        assert forall|a: int, b: int| 0 <= a < b < out@.len() implies out@[a].word@ != out@[b].word@ by {
            assert(out@[a].word@ == keys@[a]@);
            assert(out@[b].word@ == keys@[b]@);
        }
        assert(tallies(out@, ws));
    }
    out
}

/// How often each word occurs across the lines, listed in order of first
/// occurrence.
pub fn word_frequencies(lines: &Vec<String>) -> (r: Vec<WordCount>)
    ensures
        tallies(r@, words_of(lines@)),
        total_count(r@) == words_of(lines@).len(),
{
    let words = words_of_lines(lines);
    let r = tally_words(&words);
    assert(words@.map_values(|w: String| w@) =~= words_of(lines@));
    r
}

} // verus!
