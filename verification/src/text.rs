//! Text helpers: Unicode whitespace and trimming, prefix tests, decimal
//! rendering and the classification of a media source as a URL or a local
//! path.

use vstd::prelude::*;

verus! {

/// Whether `c` has the Unicode `White_Space` property: tab, line feed,
/// vertical tab, form feed, carriage return, space, next line, no-break
/// space, Ogham space mark, the spaces from en quad to hair space, line and
/// paragraph separators, narrow no-break space, medium mathematical space and
/// ideographic space.
pub open spec fn is_unicode_whitespace(c: char) -> bool {
    let u: u32 = c as u32;
    ||| 0x09 <= u <= 0x0d
    ||| u == 0x20
    ||| u == 0x85
    ||| u == 0xa0
    ||| u == 0x1680
    ||| 0x2000 <= u <= 0x200a
    ||| u == 0x2028
    ||| u == 0x2029
    ||| u == 0x202f
    ||| u == 0x205f
    ||| u == 0x3000
}

/// Whether `c` is Unicode whitespace, as `char::is_whitespace` decides.
pub fn is_whitespace(c: char) -> (r: bool)
    ensures
        r == is_unicode_whitespace(c),
{
    let u: u32 = c as u32;
    (0x09 <= u && u <= 0x0d) || u == 0x20 || u == 0x85 || u == 0xa0 || u == 0x1680 || (0x2000
        <= u && u <= 0x200a) || u == 0x2028 || u == 0x2029 || u == 0x202f || u == 0x205f || u
        == 0x3000
}

/// `s` with leading whitespace removed.
pub open spec fn trim_start(s: Seq<char>) -> Seq<char>
    decreases s.len(),
{
    if s.len() > 0 && is_unicode_whitespace(s[0]) {
        trim_start(s.drop_first())
    } else {
        s
    }
}

/// `s` with trailing whitespace removed.
pub open spec fn trim_end(s: Seq<char>) -> Seq<char>
    decreases s.len(),
{
    if s.len() > 0 && is_unicode_whitespace(s.last()) {
        trim_end(s.drop_last())
    } else {
        s
    }
}

/// `s` with leading and trailing whitespace removed.
pub open spec fn trim(s: Seq<char>) -> Seq<char> {
    trim_end(trim_start(s))
}

/// `p` is a prefix of `s`.
pub open spec fn has_prefix(s: Seq<char>, p: Seq<char>) -> bool {
    p.len() <= s.len() && s.subrange(0, p.len() as int) == p
}

pub open spec fn https_scheme() -> Seq<char> {
    seq!['h', 't', 't', 'p', 's', ':', '/', '/']
}

pub open spec fn http_scheme() -> Seq<char> {
    seq!['h', 't', 't', 'p', ':', '/', '/']
}

/// A source names a remote resource when, once trimmed, it starts with
/// `https://` or `http://`.
pub open spec fn is_http_url_spec(s: Seq<char>) -> bool {
    let t = trim(s);
    has_prefix(t, https_scheme()) || has_prefix(t, http_scheme())
}

/// The characters of `s`, in order.
pub fn str_chars(s: &str) -> (r: Vec<char>)
    ensures
        r@ == s@,
{
    let mut v: Vec<char> = Vec::new();
    for c in it: s.chars()
        invariant
            v@ == it.seq().take(it.index() as int),
    {
        v.push(c);
    }
    v
}

fn trim_bounds(v: &Vec<char>) -> (r: (usize, usize))
    ensures
        r.0 <= r.1 <= v.len(),
        trim(v@) == v@.subrange(r.0 as int, r.1 as int),
{
    let n: usize = v.len();
    let mut start: usize = 0;
    assert(v@.subrange(0, n as int) =~= v@);
    while start < n && is_whitespace(v[start])
        invariant
            start <= n == v.len(),
            trim_start(v@) == trim_start(v@.subrange(start as int, n as int)),
        decreases n - start,
    {
        assert(v@.subrange(start as int, n as int).drop_first() =~= v@.subrange(
            start + 1,
            n as int,
        ));
        start = start + 1;
    }
    assert(trim_start(v@) == v@.subrange(start as int, n as int));
    let mut end: usize = n;
    while end > start && is_whitespace(v[end - 1])
        invariant
            start <= end <= n == v.len(),
            trim_start(v@) == v@.subrange(start as int, n as int),
            trim(v@) == trim_end(v@.subrange(start as int, end as int)),
        decreases end - start,
    {
        assert(v@.subrange(start as int, end as int).drop_last() =~= v@.subrange(
            start as int,
            end - 1,
        ));
        end = end - 1;
    }
    (start, end)
}

/// `s` with leading and trailing Unicode whitespace removed, as `str::trim`.
pub fn trim_str<'a>(s: &'a str) -> (r: &'a str)
    ensures
        r@ == trim(s@),
{
    let v = str_chars(s);
    let (a, b) = trim_bounds(&v);
    s.substring_char(a, b)
}

/// Whether `p` is a prefix of `s`.
pub fn starts_with_chars(s: &[char], p: &[char]) -> (r: bool)
    ensures
        r == has_prefix(s@, p@),
{
    if p.len() > s.len() {
        return false;
    }
    let mut i: usize = 0;
    while i < p.len()
        invariant
            p@.len() <= s@.len(),
            i <= p@.len(),
            forall|k: int| 0 <= k < i ==> s@[k] == p@[k],
        decreases p.len() - i,
    {
        if s[i] != p[i] {
            assert(s@.subrange(0, p@.len() as int)[i as int] != p@[i as int]);
            return false;
        }
        i = i + 1;
    }
    assert(s@.subrange(0, p@.len() as int) =~= p@);
    true
}

/// Whether `s`, once trimmed, starts with `https://` or `http://`.
pub fn is_http_url(s: &str) -> (r: bool)
    ensures
        r == is_http_url_spec(s@),
        trim(s@).len() >= 8 && trim(s@).subrange(0, 8) == seq!['h', 't', 't', 'p', 's', ':', '/', '/'] ==> r,
        trim(s@).len() >= 7 && trim(s@).subrange(0, 7) == seq!['h', 't', 't', 'p', ':', '/', '/'] ==> r,
        r ==> (trim(s@).len() >= 8 && trim(s@).subrange(0, 8) == seq!['h', 't', 't', 'p', 's', ':', '/', '/']) || (trim(s@).len() >= 7
            && trim(s@).subrange(0, 7) == seq!['h', 't', 't', 'p', ':', '/', '/']),
{
    let t = str_chars(trim_str(s));
    let https: Vec<char> = vec!['h', 't', 't', 'p', 's', ':', '/', '/'];
    let http: Vec<char> = vec!['h', 't', 't', 'p', ':', '/', '/'];
    assert(https@ == https_scheme());
    assert(http@ == http_scheme());
    starts_with_chars(t.as_slice(), https.as_slice()) || starts_with_chars(
        t.as_slice(),
        http.as_slice(),
    )
}

proof fn lemma_trim_start_head(s: Seq<char>)
    ensures
        trim_start(s).len() > 0 ==> !is_unicode_whitespace(trim_start(s)[0]),
    decreases s.len(),
{
    if s.len() > 0 && is_unicode_whitespace(s[0]) {
        lemma_trim_start_head(s.drop_first());
    }
}

proof fn lemma_trim_end_prefix(s: Seq<char>)
    ensures
        trim_end(s).len() <= s.len(),
        trim_end(s) == s.subrange(0, trim_end(s).len() as int),
        trim_end(s).len() > 0 ==> !is_unicode_whitespace(trim_end(s).last()),
    decreases s.len(),
{
    if s.len() > 0 && is_unicode_whitespace(s.last()) {
        lemma_trim_end_prefix(s.drop_last());
        assert(s.drop_last().subrange(0, trim_end(s).len() as int) =~= s.subrange(
            0,
            trim_end(s).len() as int,
        ));
    } else {
        assert(s.subrange(0, s.len() as int) =~= s);
    }
}

/// Trimming is idempotent: a trimmed text is left as it is by a second trim.
pub proof fn lemma_trim_idempotent(s: Seq<char>)
    ensures
        trim(trim(s)) == trim(s),
{
    let t0 = trim_start(s);
    let t = trim_end(t0);
    lemma_trim_start_head(s);
    lemma_trim_end_prefix(t0);
    if t.len() > 0 {
        assert(t[0] == t0[0]);
    }
    assert(trim_start(t) == t);
    assert(trim_end(t) == t);
}

/// Classifying a source is unaffected by trimming it first: the already
/// trimmed source names a URL exactly when the raw source does.
pub proof fn lemma_url_classification_ignores_trim(s: Seq<char>)
    ensures
        is_http_url_spec(trim(s)) == is_http_url_spec(s),
{
    lemma_trim_idempotent(s);
}

/// Every source whose trimmed text begins with `https://` is a URL, whatever
/// follows.
pub proof fn lemma_https_sources_are_urls(s: Seq<char>, rest: Seq<char>)
    requires
        trim(s) == seq!['h', 't', 't', 'p', 's', ':', '/', '/'] + rest,
    ensures
        is_http_url_spec(s),
{
    assert(trim(s).subrange(0, 8) =~= seq!['h', 't', 't', 'p', 's', ':', '/', '/']);
}

/// Every source whose trimmed text begins with `http://` is a URL, whatever
/// follows.
pub proof fn lemma_http_sources_are_urls(s: Seq<char>, rest: Seq<char>)
    requires
        trim(s) == seq!['h', 't', 't', 'p', ':', '/', '/'] + rest,
    ensures
        is_http_url_spec(s),
{
    assert(trim(s).subrange(0, 7) =~= seq!['h', 't', 't', 'p', ':', '/', '/']);
}

/// Only such sources are URLs: a URL's trimmed text begins with `https://`
/// or `http://`.
pub proof fn lemma_urls_start_with_a_scheme(s: Seq<char>)
    requires
        is_http_url_spec(s),
    ensures
        trim(s) =~= seq!['h', 't', 't', 'p', 's', ':', '/', '/'] + trim(s).subrange(8, trim(s).len() as int) || trim(s) =~= seq!['h', 't', 't', 'p', ':', '/', '/']
            + trim(s).subrange(7, trim(s).len() as int),
{
}

/// Every character of `s` is whitespace.
pub open spec fn all_whitespace(s: Seq<char>) -> bool {
    forall|i: int| 0 <= i < s.len() ==> is_unicode_whitespace(#[trigger] s[i])
}

proof fn lemma_trim_start_skips_whitespace(p: Seq<char>, x: Seq<char>)
    requires
        all_whitespace(p),
    ensures
        trim_start(p + x) == trim_start(x),
    decreases p.len(),
{
    if p.len() > 0 {
        assert((p + x)[0] == p[0]);
        assert((p + x).drop_first() =~= p.drop_first() + x);
        lemma_trim_start_skips_whitespace(p.drop_first(), x);
    } else {
        assert(p + x =~= x);
    }
}

proof fn lemma_trim_end_skips_whitespace(x: Seq<char>, q: Seq<char>)
    requires
        all_whitespace(q),
    ensures
        trim_end(x + q) == trim_end(x),
    decreases q.len(),
{
    if q.len() > 0 {
        assert((x + q).last() == q.last());
        assert((x + q).drop_last() =~= x + q.drop_last());
        lemma_trim_end_skips_whitespace(x, q.drop_last());
    } else {
        assert(x + q =~= x);
    }
}

proof fn lemma_trim_start_append(s: Seq<char>, q: Seq<char>)
    ensures
        trim_start(s).len() > 0 ==> trim_start(s + q) == trim_start(s) + q,
        trim_start(s).len() == 0 ==> trim_start(s + q) == trim_start(q),
    decreases s.len(),
{
    if s.len() == 0 {
        assert(s + q =~= q);
    } else {
        assert((s + q)[0] == s[0]);
        if is_unicode_whitespace(s[0]) {
            assert((s + q).drop_first() =~= s.drop_first() + q);
            lemma_trim_start_append(s.drop_first(), q);
        }
    }
}

proof fn lemma_whitespace_trims_away(q: Seq<char>)
    requires
        all_whitespace(q),
    ensures
        trim_start(q).len() == 0,
    decreases q.len(),
{
    if q.len() > 0 {
        lemma_whitespace_trims_away(q.drop_first());
    }
}

/// Surrounding whitespace does not matter: `p + s + q`, with `p` and `q` made
/// of whitespace only, trims to what `s` trims to, and so is a URL exactly
/// when `s` is.
pub proof fn lemma_url_test_ignores_surrounding_whitespace(p: Seq<char>, s: Seq<char>, q: Seq<char>)
    requires
        all_whitespace(p),
        all_whitespace(q),
    ensures
        trim(p + s + q) == trim(s),
        is_http_url_spec(p + s + q) == is_http_url_spec(s),
{
    assert(p + s + q =~= p + (s + q));
    lemma_trim_start_skips_whitespace(p, s + q);
    lemma_trim_start_append(s, q);
    if trim_start(s).len() > 0 {
        lemma_trim_end_skips_whitespace(trim_start(s), q);
    } else {
        lemma_whitespace_trims_away(q);
        assert(trim_start(q) =~= trim_start(s));
    }
}

/// Where media is read from: a remote URL or a local file path.
#[derive(Debug, PartialEq, Eq)]
pub enum MediaSource {
    Url(String),
    File(String),
}

/// Classifies a user-supplied source and trims it.
pub fn classify_source(source: &str) -> (r: MediaSource)
    ensures
        match r {
            MediaSource::Url(u) => is_http_url_spec(source@) && u@ == trim(source@),
            MediaSource::File(p) => !is_http_url_spec(source@) && p@ == trim(source@),
        },
{
    let trimmed = String::from_str(trim_str(source));
    if is_http_url(source) {
        MediaSource::Url(trimmed)
    } else {
        MediaSource::File(trimmed)
    }
}

/// The decimal digit `d` (`0 <= d < 10`) as a character.
pub open spec fn digit_char(d: int) -> char {
    seq!['0', '1', '2', '3', '4', '5', '6', '7', '8', '9'][d]
}

/// The decimal digits of `n`, most significant first, without leading zeros.
pub open spec fn decimal_digits(n: nat) -> Seq<char>
    decreases n,
{
    if n < 10 {
        seq![digit_char(n as int)]
    } else {
        decimal_digits(n / 10).push(digit_char((n % 10) as int))
    }
}

/// The decimal rendering of `n`, with a leading `-` when negative.
pub open spec fn decimal(n: int) -> Seq<char> {
    if n < 0 {
        seq!['-'] + decimal_digits((-n) as nat)
    } else {
        decimal_digits(n as nat)
    }
}

fn digit_str(d: u64) -> (r: &'static str)
    requires
        d < 10,
    ensures
        r@ == seq![digit_char(d as int)],
{
    proof {
        reveal_strlit("0");
        reveal_strlit("1");
        reveal_strlit("2");
        reveal_strlit("3");
        reveal_strlit("4");
        reveal_strlit("5");
        reveal_strlit("6");
        reveal_strlit("7");
        reveal_strlit("8");
        reveal_strlit("9");
    }
    match d {
        0 => "0",
        1 => "1",
        2 => "2",
        3 => "3",
        4 => "4",
        5 => "5",
        6 => "6",
        7 => "7",
        8 => "8",
        _ => "9",
    }
}

fn push_decimal_digits(out: &mut String, n: u64)
    ensures
        final(out)@ == old(out)@ + decimal_digits(n as nat),
    decreases n,
{
    if n >= 10 {
        push_decimal_digits(out, n / 10);
    }
    out.append(digit_str(n % 10));
    assert(old(out)@ + decimal_digits(n as nat) =~= (if n >= 10 {
        old(out)@ + decimal_digits((n / 10) as nat)
    } else {
        old(out)@
    }) + seq![digit_char((n % 10) as int)]);
}

/// Appends the decimal rendering of `n` to `out`, as `{}` formats an `i64`.
pub fn push_decimal(out: &mut String, n: i64)
    ensures
        final(out)@ == old(out)@ + decimal(n as int),
{
    if n < 0 {
        out.append("-");
        proof {
            reveal_strlit("-");
        }
        let magnitude: u64 = (0i128 - (n as i128)) as u64;
        push_decimal_digits(out, magnitude);
        assert(old(out)@ + decimal(n as int) =~= old(out)@ + seq!['-'] + decimal_digits(
            magnitude as nat,
        ));
    } else {
        push_decimal_digits(out, n as u64);
    }
}

} // verus!
