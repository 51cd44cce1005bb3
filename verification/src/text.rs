//! Small verified text helpers shared by the command-construction and
//! orchestration modules: viewing a vector of strings as a sequence of
//! character sequences, and splitting a configuration string on ASCII
//! whitespace (the diff-tool setting is one string holding a program and its
//! arguments).

use vstd::prelude::*;

verus! {

/// The character sequences of a sequence of strings.
pub open spec fn str_views(v: Seq<String>) -> Seq<Seq<char>> {
    v.map_values(|s: String| s@)
}

pub proof fn lemma_str_views_push(v: Seq<String>, x: String)
    ensures
        str_views(v.push(x)) == str_views(v).push(x@),
{
    assert(str_views(v.push(x)) =~= str_views(v).push(x@));
}

pub proof fn lemma_str_views_add(a: Seq<String>, b: Seq<String>)
    ensures
        str_views(a + b) == str_views(a) + str_views(b),
{
    assert(str_views(a + b) =~= str_views(a) + str_views(b));
}

/// Copies a vector of strings.
pub fn clone_strings(v: &Vec<String>) -> (r: Vec<String>)
    ensures
        r@ == v@,
{
    let mut r: Vec<String> = Vec::new();
    let n = v.len();
    for i in 0..n
        invariant
            n == v@.len(),
            r@ == v@.take(i as int),
    {
        r.push(v[i].clone());
        proof {
            assert(v@.take(i + 1) =~= v@.take(i as int).push(v@[i as int]));
        }
    }
    proof {
        assert(v@.take(n as int) =~= v@);
    }
    r
}

/// `c` is ASCII whitespace: space, tab, newline, carriage return or form feed.
pub open spec fn is_ascii_space(c: char) -> bool {
    c == ' ' || c == '\t' || c == '\n' || c == '\r' || c == '\x0c'
}

/// Index just past the run of non-whitespace characters starting at `i`.
pub open spec fn word_end(s: Seq<char>, i: int) -> int
    decreases s.len() - i,
{
    if 0 <= i < s.len() && !is_ascii_space(s[i]) {
        word_end(s, i + 1)
    } else {
        i
    }
}

/// A word run stays inside the string, contains no whitespace, and is maximal.
pub proof fn lemma_word_end(s: Seq<char>, i: int)
    requires
        0 <= i <= s.len(),
    ensures
        i <= word_end(s, i) <= s.len(),
        forall|k: int| i <= k < word_end(s, i) ==> !is_ascii_space(s[k]),
        word_end(s, i) < s.len() ==> is_ascii_space(s[word_end(s, i)]),
    decreases s.len() - i,
{
    if i < s.len() && !is_ascii_space(s[i]) {
        lemma_word_end(s, i + 1);
    }
}

/// The whitespace-separated words of `s`, from position `i` on: maximal runs
/// of non-whitespace characters, in order.
pub open spec fn words_from(s: Seq<char>, i: int) -> Seq<Seq<char>>
    decreases s.len() - i,
    when 0 <= i <= s.len()
    via words_from_decreases
{
    if i >= s.len() {
        seq![]
    } else if is_ascii_space(s[i]) {
        words_from(s, i + 1)
    } else {
        seq![s.subrange(i, word_end(s, i))] + words_from(s, word_end(s, i))
    }
}

#[via_fn]
proof fn words_from_decreases(s: Seq<char>, i: int) {
    if 0 <= i < s.len() && !is_ascii_space(s[i]) {
        lemma_word_end(s, i);
        assert(word_end(s, i) > i);
    }
}

/// `c` is ASCII whitespace.
fn is_ascii_space_char(c: char) -> (b: bool)
    ensures
        b == is_ascii_space(c),
{
    c == ' ' || c == '\t' || c == '\n' || c == '\r' || c == '\x0c'
}

/// Splits `s` into its whitespace-separated words.
pub fn split_ascii_words(s: &str) -> (r: Vec<String>)
    ensures
        str_views(r@) == words_from(s@, 0),
{
    let n = s.unicode_len();
    let mut out: Vec<String> = Vec::new();
    let mut i: usize = 0;
    proof {
        assert(str_views(out@) + words_from(s@, 0) =~= words_from(s@, 0));
    }
    while i < n
        invariant
            i <= n,
            n == s@.len(),
            str_views(out@) + words_from(s@, i as int) == words_from(s@, 0),
        decreases n - i,
    {
        let c = s.get_char(i);
        if is_ascii_space_char(c) {
            proof {
                assert(words_from(s@, i as int) == words_from(s@, i + 1));
            }
            i += 1;
        } else {
            let mut j = i + 1;
            proof {
                lemma_word_end(s@, i as int);
            }
            while j < n && !is_ascii_space_char(s.get_char(j))
                invariant
                    i < j <= n,
                    n == s@.len(),
                    word_end(s@, i as int) == word_end(s@, j as int),
                    forall|k: int| i <= k < j ==> !is_ascii_space(s@[k]),
                decreases n - j,
            {
                j += 1;
            }
            proof {
                assert(word_end(s@, j as int) == j as int);
            }
            let w = s.substring_char(i, j).to_owned();
            proof {
                assert(words_from(s@, i as int) == seq![s@.subrange(i as int, j as int)]
                    + words_from(s@, j as int));
                lemma_str_views_push(out@, w);
                assert(str_views(out@).push(w@) + words_from(s@, j as int) =~= str_views(out@)
                    + words_from(s@, i as int));
            }
            out.push(w);
            i = j;
        }
    }
    proof {
        assert(words_from(s@, n as int) =~= Seq::<Seq<char>>::empty());
        assert(str_views(out@) + words_from(s@, n as int) =~= str_views(out@));
    }
    out
}

} // verus!
