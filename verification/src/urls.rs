use vstd::prelude::*;
use vstd::string::StrSliceExecFns;
use vstd::string::StringExecFns;

verus! {

/// `s` with one final `c` removed, when it ends with one.
pub open spec fn strip_one_trailing(s: Seq<char>, c: char) -> Seq<char> {
    if s.len() > 0 && s.last() == c {
        s.drop_last()
    } else {
        s
    }
}

/// `s` with every final run of `c` removed.
pub open spec fn strip_all_trailing(s: Seq<char>, c: char) -> Seq<char>
    decreases s.len(),
{
    if s.len() > 0 && s.last() == c {
        strip_all_trailing(s.drop_last(), c)
    } else {
        s
    }
}

/// What `url::Url::parse` makes of a candidate base URL: `Some` of the parsed
/// URL's serialization exactly when the text parses as an absolute URL that
/// can serve as a base for path segments, `None` otherwise.
pub uninterp spec fn url_base_form(s: Seq<char>) -> Option<Seq<char>>;

/// Relies on `url::Url::parse` for URL validation and normalization, on
/// `url::Url::cannot_be_a_base` to reject URLs (such as `mailto:` or `data:`
/// ones) that cannot carry path segments, and on `url::Url::as_str` for the
/// serialized form.
#[verifier::external_body]
pub(crate) fn parse_base_url(s: &str) -> (r: Option<String>)
    ensures
        r is Some <==> url_base_form(s@) is Some,
        r is Some ==> r->0@ == url_base_form(s@)->0,
{
    match url::Url::parse(s) {
        Ok(u) => {
            if u.cannot_be_a_base() {
                None
            } else {
                Some(u.as_str().to_owned())
            }
        },
        Err(_) => None,
    }
}

/// The base URL a session stores for the given constructor input: one
/// trailing slash is stripped, the rest must parse as an absolute URL, and
/// the stored serialization never ends in a slash.
pub open spec fn spec_session_base(input: Seq<char>) -> Option<Seq<char>> {
    match url_base_form(strip_one_trailing(input, '/')) {
        Some(t) => Some(strip_all_trailing(t, '/')),
        None => None,
    }
}

/// `s` without its final character when that character is `c`.
pub(crate) fn strip_one_char(s: &str, c: char) -> (r: String)
    ensures
        r@ == strip_one_trailing(s@, c),
{
    let n = s.unicode_len();
    if n > 0 && s.get_char(n - 1) == c {
        assert(s@.subrange(0, n - 1) == s@.drop_last());
        String::from_str(s.substring_char(0, n - 1))
    } else {
        String::from_str(s)
    }
}

/// `s` without its final run of `c` characters.
pub(crate) fn strip_all_char(s: &str, c: char) -> (r: String)
    ensures
        r@ == strip_all_trailing(s@, c),
{
    let total = s.unicode_len();
    let mut n = total;
    assert(s@.subrange(0, total as int) =~= s@);
    while n > 0 && s.get_char(n - 1) == c
        invariant
            n <= total,
            total == s@.len(),
            strip_all_trailing(s@, c) == strip_all_trailing(s@.subrange(0, n as int), c),
        decreases n,
    {
        assert(s@.subrange(0, n as int).drop_last() =~= s@.subrange(0, n - 1));
        n = n - 1;
    }
    assert(strip_all_trailing(s@.subrange(0, n as int), c) == s@.subrange(0, n as int));
    String::from_str(s.substring_char(0, n))
}

/// Every result of stripping a final run of `c` no longer ends in `c`.
pub proof fn lemma_strip_all_trailing_free(s: Seq<char>, c: char)
    ensures
        strip_all_trailing(s, c).len() > 0 ==> strip_all_trailing(s, c).last() != c,
    decreases s.len(),
{
    if s.len() > 0 && s.last() == c {
        lemma_strip_all_trailing_free(s.drop_last(), c);
    }
}

} // verus!
