//! Character-level helpers shared by the configuration and handshake code:
//! the Unicode `White_Space` test, trimming, and conversions between `str`
//! and vectors of characters.
use vstd::prelude::*;

verus! {

broadcast use vstd::string::axiom_spec_iter;

/// The Unicode `White_Space` property, which `char::is_whitespace` tests.
pub open spec fn is_white_space(c: char) -> bool {
    let u = c as u32;
    ||| 0x09 <= u <= 0x0d
    ||| u == 0x20
    ||| u == 0x85
    ||| u == 0xa0
    ||| u == 0x1680
    ||| 0x2000 <= u <= 0x200a
    ||| u == 0x2028
    ||| u == 0x2029
    ||| u == 0x202f
    ||| u == 0x205f
    ||| u == 0x3000
}

/// `s` without its leading white space.
pub open spec fn trim_start(s: Seq<char>) -> Seq<char>
    decreases s.len(),
{
    if s.len() > 0 && is_white_space(s[0]) {
        trim_start(s.drop_first())
    } else {
        s
    }
}

/// `s` without its trailing white space.
pub open spec fn trim_end(s: Seq<char>) -> Seq<char>
    decreases s.len(),
{
    if s.len() > 0 && is_white_space(s.last()) {
        trim_end(s.drop_last())
    } else {
        s
    }
}

/// `s` without leading and trailing white space, as `str::trim` gives it.
pub open spec fn trim(s: Seq<char>) -> Seq<char> {
    trim_end(trim_start(s))
}

/// Tests the Unicode `White_Space` property of `c`.
pub fn is_whitespace(c: char) -> (r: bool)
    ensures
        r == is_white_space(c),
{
    let u: u32 = c as u32;
    (0x09 <= u && u <= 0x0d) || u == 0x20 || u == 0x85 || u == 0xa0 || u == 0x1680 || (0x2000
        <= u && u <= 0x200a) || u == 0x2028 || u == 0x2029 || u == 0x202f || u == 0x205f || u
        == 0x3000
}

proof fn lemma_trim_start_skip(s: Seq<char>, i: int)
    requires
        0 <= i <= s.len(),
        forall|k: int| 0 <= k < i ==> is_white_space(#[trigger] s[k]),
    ensures
        trim_start(s) == trim_start(s.skip(i)),
    decreases i,
{
    if i > 0 {
        assert(s.drop_first().skip(i - 1) =~= s.skip(i));
        lemma_trim_start_skip(s.drop_first(), i - 1);
    } else {
        assert(s.skip(0) =~= s);
    }
}

proof fn lemma_trim_end_take(s: Seq<char>, j: int)
    requires
        0 <= j <= s.len(),
        forall|k: int| j <= k < s.len() ==> is_white_space(#[trigger] s[k]),
    ensures
        trim_end(s) == trim_end(s.take(j)),
    decreases s.len() - j,
{
    if j < s.len() {
        assert(s.drop_last().take(j) =~= s.take(j));
        lemma_trim_end_take(s.drop_last(), j);
    } else {
        assert(s.take(j) =~= s);
    }
}

proof fn lemma_trim_start_append(a: Seq<char>, b: Seq<char>)
    requires
        exists|k: int| 0 <= k < a.len() && !is_white_space(#[trigger] a[k]),
    ensures
        trim_start(a + b) == trim_start(a) + b,
    decreases a.len(),
{
    if is_white_space(a[0]) {
        let k = choose|k: int| 0 <= k < a.len() && !is_white_space(#[trigger] a[k]);
        assert(a.drop_first()[k - 1] == a[k]);
        assert((a + b).drop_first() =~= a.drop_first() + b);
        lemma_trim_start_append(a.drop_first(), b);
    }
}

/// White space around a text does not change it once trimmed: trimming
/// `w1 + k + w2`, where `w1` and `w2` are white space, gives what trimming
/// `k` gives.
pub proof fn lemma_trim_ignores_surrounding_space(w1: Seq<char>, k: Seq<char>, w2: Seq<char>)
    requires
        forall|i: int| 0 <= i < w1.len() ==> is_white_space(#[trigger] w1[i]),
        forall|i: int| 0 <= i < w2.len() ==> is_white_space(#[trigger] w2[i]),
    ensures
        trim(w1 + k + w2) == trim(k),
{
    let s = w1 + k + w2;
    assert forall|i: int| 0 <= i < w1.len() implies is_white_space(#[trigger] s[i]) by {
        assert(s[i] == w1[i]);
    }
    lemma_trim_start_skip(s, w1.len() as int);
    assert(s.skip(w1.len() as int) =~= k + w2);
    if exists|j: int| 0 <= j < k.len() && !is_white_space(#[trigger] k[j]) {
        lemma_trim_start_append(k, w2);
        let t = trim_start(k) + w2;
        assert forall|i: int| trim_start(k).len() <= i < t.len() implies is_white_space(
            #[trigger] t[i],
        ) by {
            assert(t[i] == w2[i - trim_start(k).len()]);
        }
        lemma_trim_end_take(t, trim_start(k).len() as int);
        assert(t.take(trim_start(k).len() as int) =~= trim_start(k));
    } else {
        assert forall|i: int| 0 <= i < k.len() implies is_white_space(#[trigger] k[i]) by {}
        let u = k + w2;
        assert forall|i: int| 0 <= i < u.len() implies is_white_space(#[trigger] u[i]) by {
            if i < k.len() {
                assert(u[i] == k[i]);
            } else {
                assert(u[i] == w2[i - k.len()]);
            }
        }
        lemma_trim_start_skip(u, u.len() as int);
        lemma_trim_start_skip(k, k.len() as int);
        assert(u.skip(u.len() as int) =~= Seq::<char>::empty());
        assert(k.skip(k.len() as int) =~= Seq::<char>::empty());
        assert(trim_start(Seq::<char>::empty()) == Seq::<char>::empty());
    }
}

/// Appends `c` to `s` (`String::push`).
#[verifier::external_body]
pub(crate) fn string_push(s: &mut String, c: char)
    ensures
        final(s)@ == old(s)@.push(c),
{
    s.push(c)
}

/// The characters of `s`, in order.
pub fn chars_of(s: &str) -> (r: Vec<char>)
    ensures
        r@ == s@,
{
    let mut r: Vec<char> = Vec::new();
    for c in it: s.chars()
        invariant
            it.seq() == s@,
            r@ == it.seq().take(it.index() as int),
    {
        r.push(c);
    }
    r
}

/// The string made of `v[lo..hi]`.
pub fn string_of_range(v: &Vec<char>, lo: usize, hi: usize) -> (r: String)
    requires
        lo <= hi <= v.len(),
    ensures
        r@ == v@.subrange(lo as int, hi as int),
{
    let mut r = String::new();
    let mut i: usize = lo;
    while i < hi
        invariant
            lo <= i <= hi <= v.len(),
            r@ == v@.subrange(lo as int, i as int),
        decreases hi - i,
    {
        string_push(&mut r, v[i]);
        assert(v@.subrange(lo as int, i + 1) =~= v@.subrange(lo as int, i as int).push(v@[i as int]));
        i = i + 1;
    }
    r
}

/// The characters `v[lo..hi]` with leading and trailing white space removed.
pub fn trimmed_range(v: &Vec<char>, lo: usize, hi: usize) -> (r: String)
    requires
        lo <= hi <= v.len(),
    ensures
        r@ == trim(v@.subrange(lo as int, hi as int)),
{
    let ghost s = v@.subrange(lo as int, hi as int);
    let mut start: usize = lo;
    while start < hi && is_whitespace(v[start])
        invariant
            lo <= start <= hi <= v.len(),
            s == v@.subrange(lo as int, hi as int),
            forall|k: int| 0 <= k < start - lo ==> is_white_space(#[trigger] s[k]),
        decreases hi - start,
    {
        start = start + 1;
    }
    proof {
        lemma_trim_start_skip(s, start - lo);
        let t = s.skip(start - lo);
        if t.len() > 0 {
            assert(t[0] == v@[start as int]);
        }
        assert(trim_start(t) == t);
        assert(t =~= v@.subrange(start as int, hi as int));
    }
    let mut end: usize = hi;
    while end > start && is_whitespace(v[end - 1])
        invariant
            lo <= start <= end <= hi <= v.len(),
            forall|k: int| end <= k < hi ==> is_white_space(#[trigger] v@[k]),
        decreases end,
    {
        end = end - 1;
    }
    proof {
        let t = v@.subrange(start as int, hi as int);
        assert forall|k: int| end - start <= k < t.len() implies is_white_space(#[trigger] t[k]) by {
            assert(t[k] == v@[start + k]);
        }
        lemma_trim_end_take(t, end - start);
        let u = t.take(end - start);
        if u.len() > 0 {
            assert(u.last() == v@[end - 1]);
        }
        assert(trim_end(u) == u);
        assert(u =~= v@.subrange(start as int, end as int));
    }
    string_of_range(v, start, end)
}

} // verus!
