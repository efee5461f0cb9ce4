//! Splitting a raw input line into its trimmed form and its tokens.

use vstd::prelude::*;
use vstd::string::StrSliceExecFns;
use vstd::string::StringExecFns;

verus! {

/// The characters treated as whitespace: the Unicode White_Space set,
/// exactly the characters `char::is_whitespace` accepts. Runs of these
/// delimit tokens, and they are trimmed from both ends of the input line.
pub open spec fn is_space(c: char) -> bool {
    c == ' ' || c == '\t' || c == '\n' || c == '\r' || c == '\u{b}' || c == '\u{c}' || c
        == '\u{85}' || c == '\u{a0}' || c == '\u{1680}' || ('\u{2000}' as u32 <= c as u32 && c
        as u32 <= '\u{200a}' as u32) || c == '\u{2028}' || c == '\u{2029}' || c == '\u{202f}' || c
        == '\u{205f}' || c == '\u{3000}'
}

/// The line with leading and trailing whitespace removed.
pub open spec fn trim_spec(s: Seq<char>) -> Seq<char>
    decreases s.len(),
{
    if s.len() == 0 {
        s
    } else if is_space(s[0]) {
        trim_spec(s.drop_first())
    } else if is_space(s.last()) {
        trim_spec(s.drop_last())
    } else {
        s
    }
}

/// Length of the maximal leading run of non-whitespace characters.
pub open spec fn token_end(s: Seq<char>) -> int
    decreases s.len(),
{
    if s.len() == 0 || is_space(s[0]) {
        0
    } else {
        1 + token_end(s.drop_first())
    }
}

pub proof fn lemma_token_end_bounds(s: Seq<char>)
    ensures
        0 <= token_end(s) <= s.len(),
        s.len() > 0 && !is_space(s[0]) ==> 1 <= token_end(s),
    decreases s.len(),
{
    if s.len() > 0 && !is_space(s[0]) {
        lemma_token_end_bounds(s.drop_first());
    }
}

/// The first whitespace position determines `token_end` uniquely.
pub proof fn lemma_token_end_unique(s: Seq<char>, k: int)
    requires
        0 <= k <= s.len(),
        forall|j: int| 0 <= j < k ==> !is_space(s[j]),
        k < s.len() ==> is_space(s[k]),
    ensures
        token_end(s) == k,
    decreases s.len(),
{
    if k == 0 {
    } else {
        assert(!is_space(s[0]));
        lemma_token_end_unique(s.drop_first(), k - 1);
    }
}

/// The whitespace-delimited tokens of a line, in order.
pub open spec fn tokens_spec(s: Seq<char>) -> Seq<Seq<char>>
    decreases s.len(),
    via tokens_spec_dec
{
    if s.len() == 0 {
        Seq::empty()
    } else if is_space(s[0]) {
        tokens_spec(s.drop_first())
    } else {
        seq![s.take(token_end(s))] + tokens_spec(s.skip(token_end(s)))
    }
}

#[via_fn]
proof fn tokens_spec_dec(s: Seq<char>) {
    lemma_token_end_bounds(s);
}

/// The views of a sequence of owned strings.
pub open spec fn views_of(ts: Seq<String>) -> Seq<Seq<char>> {
    ts.map_values(|t: String| t@)
}

/// A line of nothing but whitespace trims to the empty line.
pub proof fn lemma_trim_all_space(s: Seq<char>)
    requires
        forall|i: int| 0 <= i < s.len() ==> is_space(s[i]),
    ensures
        trim_spec(s).len() == 0,
    decreases s.len(),
{
    if s.len() > 0 {
        assert(is_space(s[0]));
        lemma_trim_all_space(s.drop_first());
    }
}

/// A line bare of whitespace at both ends trims to itself.
pub proof fn lemma_trim_no_ends_space(s: Seq<char>)
    requires
        s.len() > 0,
        !is_space(s[0]),
        !is_space(s.last()),
    ensures
        trim_spec(s) == s,
{
}

/// Trimming keeps exactly the piece between the whitespace runs at the ends.
proof fn lemma_trim_subrange(s: Seq<char>, lo: int, hi: int)
    requires
        0 <= lo <= hi <= s.len(),
        forall|j: int| 0 <= j < lo ==> is_space(s[j]),
        forall|j: int| hi <= j < s.len() ==> is_space(s[j]),
        lo == s.len() || !is_space(s[lo]),
        hi == lo || !is_space(s[hi - 1]),
    ensures
        trim_spec(s) == s.subrange(lo, hi),
    decreases s.len(),
{
    if s.len() == 0 {
        assert(trim_spec(s) =~= s.subrange(lo, hi));
    } else if is_space(s[0]) {
        assert(lo >= 1);
        let s1 = s.drop_first();
        assert forall|j: int| 0 <= j < lo - 1 implies is_space(s1[j]) by {
            assert(s1[j] == s[j + 1]);
        }
        assert forall|j: int| hi - 1 <= j < s1.len() implies is_space(s1[j]) by {
            assert(s1[j] == s[j + 1]);
        }
        lemma_trim_subrange(s1, lo - 1, hi - 1);
        assert(s1.subrange(lo - 1, hi - 1) =~= s.subrange(lo, hi));
    } else {
        assert(lo == 0);
        if is_space(s.last()) {
            assert(hi < s.len());
            let s1 = s.drop_last();
            lemma_trim_subrange(s1, 0, hi);
            assert(s1.subrange(0, hi) =~= s.subrange(0, hi));
        } else {
            assert(hi == s.len());
            assert(trim_spec(s) == s);
            assert(s.subrange(0, s.len() as int) =~= s);
        }
    }
}

/// True when `c` is one of the whitespace characters.
pub fn is_space_char(c: char) -> (r: bool)
    ensures
        r == is_space(c),
{
    let cu = c as u32;
    c == ' ' || c == '\t' || c == '\n' || c == '\r' || c == '\u{b}' || c == '\u{c}' || c
        == '\u{85}' || c == '\u{a0}' || c == '\u{1680}' || ('\u{2000}' as u32 <= cu && cu
        <= '\u{200a}' as u32) || c == '\u{2028}' || c == '\u{2029}' || c == '\u{202f}' || c
        == '\u{205f}' || c == '\u{3000}'
}

/// Character-for-character equality of two string slices.
pub fn str_eq(a: &str, b: &str) -> (r: bool)
    ensures
        r == (a@ == b@),
{
    let n = a.unicode_len();
    if n != b.unicode_len() {
        return false;
    }
    let mut i: usize = 0;
    while i < n
        invariant
            i <= n,
            n == a@.len(),
            n == b@.len(),
            forall|j: int| 0 <= j < i ==> a@[j] == b@[j],
        decreases n - i,
    {
        if a.get_char(i) != b.get_char(i) {
            return false;
        }
        i += 1;
    }
    proof {
        assert(a@ =~= b@);
    }
    true
}

/// Returns the line with leading and trailing whitespace removed.
pub fn trim(s: &str) -> (r: String)
    ensures
        r@ == trim_spec(s@),
{
    let n = s.unicode_len();
    let mut lo: usize = 0;
    while lo < n && is_space_char(s.get_char(lo))
        invariant
            lo <= n,
            n == s@.len(),
            forall|j: int| 0 <= j < lo ==> is_space(s@[j]),
        decreases n - lo,
    {
        lo += 1;
    }
    let mut hi: usize = n;
    while hi > lo && is_space_char(s.get_char(hi - 1))
        invariant
            lo <= hi <= n,
            n == s@.len(),
            forall|j: int| hi <= j < n ==> is_space(s@[j]),
        decreases hi,
    {
        hi -= 1;
    }
    proof {
        lemma_trim_subrange(s@, lo as int, hi as int);
    }
    s.substring_char(lo, hi).to_owned()
}

/// Index of the first whitespace character at or after `start`, or the
/// length of the line when the token runs to its end.
fn scan_token(s: &str, start: usize, n: usize) -> (j: usize)
    requires
        n == s@.len(),
        start < n,
    ensures
        start <= j <= n,
        forall|k: int| start <= k < j ==> !is_space(s@[k]),
        j < n ==> is_space(s@[j as int]),
{
    let mut j: usize = start;
    while j < n
        invariant
            start <= j <= n,
            n == s@.len(),
            forall|k: int| start <= k < j ==> !is_space(s@[k]),
        decreases n - j,
    {
        if is_space_char(s.get_char(j)) {
            return j;
        }
        j += 1;
    }
    n
}

/// Splits a line into its whitespace-delimited tokens.
pub fn tokenize(s: &str) -> (r: Vec<String>)
    ensures
        views_of(r@) == tokens_spec(s@),
{
    let n = s.unicode_len();
    let mut r: Vec<String> = Vec::new();
    let mut i: usize = 0;
    proof {
        assert(views_of(r@) =~= Seq::<Seq<char>>::empty());
        assert(s@.skip(0) =~= s@);
    }
    while i < n
        invariant
            i <= n,
            n == s@.len(),
            tokens_spec(s@) == views_of(r@) + tokens_spec(s@.skip(i as int)),
        decreases n - i,
    {
        if is_space_char(s.get_char(i)) {
            proof {
                assert(s@.skip(i as int)[0] == s@[i as int]);
                assert(s@.skip(i as int).drop_first() =~= s@.skip(i as int + 1));
            }
            i += 1;
        } else {
            let j = scan_token(s, i, n);
            let tok = s.substring_char(i, j).to_owned();
            proof {
                let sk = s@.skip(i as int);
                assert(sk[0] == s@[i as int]);
                assert forall|m: int| 0 <= m < j - i implies !is_space(sk[m]) by {
                    assert(sk[m] == s@[i + m]);
                }
                if j < n {
                    assert(sk[j - i] == s@[j as int]);
                }
                lemma_token_end_unique(sk, j - i);
                assert(sk.take(j - i) =~= s@.subrange(i as int, j as int));
                assert(sk.skip(j - i) =~= s@.skip(j as int));
                assert(tokens_spec(sk) == seq![tok@] + tokens_spec(s@.skip(j as int)));
                assert(views_of(r@.push(tok)) =~= views_of(r@).push(tok@));
                assert(views_of(r@) + (seq![tok@] + tokens_spec(s@.skip(j as int)))
                    =~= views_of(r@).push(tok@) + tokens_spec(s@.skip(j as int)));
            }
            r.push(tok);
            i = j;
        }
    }
    proof {
        assert(s@.skip(n as int) =~= Seq::<char>::empty());
        assert(tokens_spec(s@) =~= views_of(r@));
    }
    r
}

/// A parsed input line: the raw text, its trimmed form, and the
/// whitespace-delimited tokens of the trimmed form.
pub struct Input {
    pub raw: String,
    pub trimmed: String,
    pub tokens: Vec<String>,
}

impl Input {
    /// The three fields agree: the trimmed line is the raw line without
    /// surrounding whitespace, and the tokens are its words.
    pub open spec fn wf(self) -> bool {
        &&& self.trimmed@ == trim_spec(self.raw@)
        &&& views_of(self.tokens@) == tokens_spec(self.trimmed@)
    }

    /// Trims and tokenizes one raw input line.
    pub fn new(line: &str) -> (r: Input)
        ensures
            r.wf(),
            r.raw@ == line@,
    {
        let raw = line.to_owned();
        let trimmed = trim(line);
        let tokens = tokenize(trimmed.as_str());
        Input { raw, trimmed, tokens }
    }
}

} // verus!
