//! Verified text handling on Unicode scalar values: white space, trimming,
//! searching and prefixes.
use vstd::prelude::*;
use vstd::std_specs::iter::IteratorSpec;

verus! {

/// Unicode `White_Space`: the characters that `char::is_whitespace`
/// and `str::trim` treat as white space.
pub open spec fn is_white_space(c: char) -> bool {
    let n = c as u32;
    ||| 0x9 <= n <= 0xd
    ||| n == 0x20
    ||| n == 0x85
    ||| n == 0xa0
    ||| n == 0x1680
    ||| 0x2000 <= n <= 0x200a
    ||| n == 0x2028
    ||| n == 0x2029
    ||| n == 0x202f
    ||| n == 0x205f
    ||| n == 0x3000
}

/// `s` without its leading white space.
pub open spec fn trim_start(s: Seq<char>) -> Seq<char>
    decreases s.len(),
{
    if s.len() > 0 && is_white_space(s[0]) {
        trim_start(s.drop_first())
    } else {
        s
    }
}

/// `s` without its trailing white space.
pub open spec fn trim_end(s: Seq<char>) -> Seq<char>
    decreases s.len(),
{
    if s.len() > 0 && is_white_space(s.last()) {
        trim_end(s.drop_last())
    } else {
        s
    }
}

/// `s` without leading and trailing white space.
pub open spec fn trimmed(s: Seq<char>) -> Seq<char> {
    trim_end(trim_start(s))
}

/// Whether `c` is white space.
pub fn white_space(c: char) -> (r: bool)
    ensures
        r == is_white_space(c),
{
    let n = c as u32;
    (0x9 <= n && n <= 0xd) || n == 0x20 || n == 0x85 || n == 0xa0 || n == 0x1680 || (0x2000 <= n
        && n <= 0x200a) || n == 0x2028 || n == 0x2029 || n == 0x202f || n == 0x205f || n == 0x3000
}

/// The characters of `s`, in order.
pub fn chars_of(s: &str) -> (v: Vec<char>)
    ensures
        v@ == s@,
{
    broadcast use vstd::string::group_string_axioms;

    let mut v: Vec<char> = Vec::new();
    for c in it: s.chars()
        invariant
            v@ == it.seq().take(it.index() as int),
            it.seq() == s@,
    {
        v.push(c);
    }
    v
}


proof fn lemma_trim_start_skip(s: Seq<char>, i: int)
    requires
        0 <= i < s.len(),
        is_white_space(s[i]),
    ensures
        trim_start(s.skip(i)) == trim_start(s.skip(i + 1)),
{
    assert(s.skip(i).drop_first() =~= s.skip(i + 1));
}

proof fn lemma_trim_end_take(s: Seq<char>, j: int)
    requires
        0 < j <= s.len(),
        is_white_space(s[j - 1]),
    ensures
        trim_end(s.take(j)) == trim_end(s.take(j - 1)),
{
    assert(s.take(j).drop_last() =~= s.take(j - 1));
}

/// `s` without leading and trailing white space, as `str::trim` gives it.
pub fn trim(s: &str) -> (r: &str)
    ensures
        r@ == trimmed(s@),
{
    let v = chars_of(s);
    let n = v.len();
    let mut i: usize = 0;
    assert(s@.skip(0) =~= s@);
    while i < n && white_space(v[i])
        invariant
            v@ == s@,
            n == v.len(),
            i <= n,
            trim_start(s@) == trim_start(s@.skip(i as int)),
        decreases n - i,
    {
        proof {
            lemma_trim_start_skip(s@, i as int);
        }
        i = i + 1;
    }
    let ghost rest = s@.skip(i as int);
    assert(trim_start(s@) == rest) by {
        if i < n {
            assert(rest[0] == s@[i as int]);
        } else {
            assert(rest.len() == 0);
        }
    }
    let mut j: usize = n;
    assert(rest.take(n - i) =~= rest);
    while j > i && white_space(v[j - 1])
        invariant
            v@ == s@,
            n == v.len(),
            i <= j <= n,
            rest == s@.skip(i as int),
            trim_end(rest) == trim_end(rest.take(j - i)),
        decreases j - i,
    {
        proof {
            assert(rest[j - i - 1] == s@[j - 1]);
            lemma_trim_end_take(rest, j - i);
        }
        j = j - 1;
    }
    assert(trim_end(rest.take(j - i)) == rest.take(j - i)) by {
        if j > i {
            assert(rest.take(j - i).last() == s@[j - 1]);
        }
    }
    assert(rest.take(j - i) =~= s@.subrange(i as int, j as int));
    s.substring_char(i, j)
}

/// Whether `c` occurs in `s`.
pub fn contains_char(s: &str, c: char) -> (r: bool)
    ensures
        r == s@.contains(c),
{
    let v = chars_of(s);
    let n = v.len();
    let mut i: usize = 0;
    while i < n
        invariant
            v@ == s@,
            n == v.len(),
            i <= n,
            forall|k: int| 0 <= k < i ==> s@[k] != c,
        decreases n - i,
    {
        if v[i] == c {
            assert(s@[i as int] == c);
            return true;
        }
        i = i + 1;
    }
    false
}

/// `s` with `prefix` removed from its front, when `s` starts with `prefix`,
/// as `str::strip_prefix` gives it.
pub fn strip_prefix<'a>(s: &'a str, prefix: &str) -> (r: Option<&'a str>)
    ensures
        r is Some <==> prefix@.is_prefix_of(s@),
        r matches Some(rest) ==> rest@ == s@.skip(prefix@.len() as int),
{
    let v = chars_of(s);
    let p = chars_of(prefix);
    let n = v.len();
    let m = p.len();
    if m > n {
        return None;
    }
    let mut i: usize = 0;
    while i < m
        invariant
            v@ == s@,
            p@ == prefix@,
            n == v.len(),
            m == p.len(),
            m <= n,
            i <= m,
            forall|k: int| 0 <= k < i ==> s@[k] == prefix@[k],
        decreases m - i,
    {
        if v[i] != p[i] {
            return None;
        }
        i = i + 1;
    }
    assert(s@.skip(m as int) =~= s@.subrange(m as int, n as int));
    Some(s.substring_char(m, n))
}

/// The lower-case form that `str::to_lowercase` gives of `s` (Unicode
/// `Lowercase` mapping, including its context-dependent rules).
pub uninterp spec fn lowercase(s: Seq<char>) -> Seq<char>;

/// Lower-cases `s` with `str::to_lowercase`.
/// Trusted: the result is `lowercase(s)`; the Unicode mapping itself is
/// left to the name.
#[verifier::external_body]
pub(crate) fn to_lowercase(s: &str) -> (r: String)
    ensures
        r@ == lowercase(s@),
{
    s.to_lowercase()
}

/// The text `prefix`, then `middle`, then `suffix`.
pub fn join3(prefix: &str, middle: &str, suffix: &str) -> (r: String)
    ensures
        r@ == prefix@ + middle@ + suffix@,
{
    let mut r = String::from_str(prefix);
    r.append(middle);
    r.append(suffix);
    r
}

proof fn lemma_trim_start_shape(s: Seq<char>)
    ensures
        trim_start(s).len() == 0 || !is_white_space(trim_start(s)[0]),
    decreases s.len(),
{
    if s.len() > 0 && is_white_space(s[0]) {
        lemma_trim_start_shape(s.drop_first());
    }
}

proof fn lemma_trim_end_shape(s: Seq<char>)
    ensures
        trim_end(s).len() <= s.len(),
        trim_end(s) =~= s.take(trim_end(s).len() as int),
        trim_end(s).len() == 0 || !is_white_space(trim_end(s).last()),
    decreases s.len(),
{
    if s.len() > 0 && is_white_space(s.last()) {
        lemma_trim_end_shape(s.drop_last());
        assert(s.drop_last().take(trim_end(s).len() as int) =~= s.take(trim_end(s).len() as int));
    }
}

/// Trimming text that is already trimmed leaves it as it is.
pub proof fn trimmed_is_trimmed(s: Seq<char>)
    ensures
        trimmed(trimmed(s)) == trimmed(s),
{
    let t = trimmed(s);
    lemma_trim_start_shape(s);
    lemma_trim_end_shape(trim_start(s));
    if t.len() > 0 {
        assert(t[0] == trim_start(s)[0]);
    }
    assert(trim_start(t) == t);
    assert(trim_end(t) == t);
}

} // verus!
