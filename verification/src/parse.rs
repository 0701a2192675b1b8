use crate::error::Endpoint;
use crate::error::ReaderError;
use vstd::prelude::*;
use vstd::string::StrSliceExecFns;
use vstd::string::StringExecFns;

verus! {

/// The whitespace characters that delimit the auth token in a login
/// response: the Unicode white-space set.
pub open spec fn is_space(c: char) -> bool {
    ||| c == ' '
    ||| c == '\t'
    ||| c == '\n'
    ||| c == '\u{b}'
    ||| c == '\u{c}'
    ||| c == '\r'
    ||| c == '\u{85}'
    ||| c == '\u{a0}'
    ||| c == '\u{1680}'
    ||| ('\u{2000}' <= c && c <= '\u{200a}')
    ||| c == '\u{2028}'
    ||| c == '\u{2029}'
    ||| c == '\u{202f}'
    ||| c == '\u{205f}'
    ||| c == '\u{3000}'
}

fn char_is_space(c: char) -> (r: bool)
    ensures
        r == is_space(c),
{
    c == ' ' || c == '\t' || c == '\n' || c == '\u{b}' || c == '\u{c}' || c == '\r'
        || c == '\u{85}' || c == '\u{a0}' || c == '\u{1680}' || ('\u{2000}' <= c && c
        <= '\u{200a}') || c == '\u{2028}' || c == '\u{2029}' || c == '\u{202f}' || c == '\u{205f}'
        || c == '\u{3000}'
}

/// The literal `Auth=` stands at position `i` of `s`.
pub open spec fn auth_prefix_at(s: Seq<char>, i: int) -> bool {
    &&& 0 <= i
    &&& i + 5 <= s.len()
    &&& s[i] == 'A'
    &&& s[i + 1] == 'u'
    &&& s[i + 2] == 't'
    &&& s[i + 3] == 'h'
    &&& s[i + 4] == '='
}

/// `Auth=` stands at position `i` and is followed by at least one
/// non-whitespace character, so a token starts at `i + 5`.
pub open spec fn auth_match_at(s: Seq<char>, i: int) -> bool {
    auth_prefix_at(s, i) && i + 5 < s.len() && !is_space(s[i + 5])
}

/// The end of the run of non-whitespace characters that starts at `j`.
pub open spec fn token_end(s: Seq<char>, j: int) -> int
    decreases s.len() - j,
{
    if j < 0 || j >= s.len() || is_space(s[j]) {
        j
    } else {
        token_end(s, j + 1)
    }
}

/// The first token match at a position no earlier than `i`.
pub open spec fn first_auth_match(s: Seq<char>, i: int) -> Option<int>
    decreases s.len() - i,
{
    if i < 0 || i + 5 >= s.len() {
        None
    } else if auth_match_at(s, i) {
        Some(i)
    } else {
        first_auth_match(s, i + 1)
    }
}

/// The auth token carried by a login response body: the first run of
/// non-whitespace characters that follows a literal `Auth=`, or nothing
/// when the body holds no such run.
pub open spec fn auth_token_of(s: Seq<char>) -> Option<Seq<char>> {
    match first_auth_match(s, 0) {
        Some(i) => Some(s.subrange(i + 5, token_end(s, i + 5))),
        None => None,
    }
}

/// Scan a login response body for its auth token.
pub fn find_auth_token(body: &str) -> (r: Option<String>)
    ensures
        r is Some <==> auth_token_of(body@) is Some,
        r is Some ==> r->0@ == auth_token_of(body@)->0,
{
    let n = body.unicode_len();
    if n < 6 {
        return None;
    }
    let mut i: usize = 0;
    while i < n - 5
        invariant
            6 <= n == body@.len(),
            i <= n - 5,
            first_auth_match(body@, 0) == first_auth_match(body@, i as int),
        decreases n - i,
    {
        let matched = body.get_char(i) == 'A' && body.get_char(i + 1) == 'u' && body.get_char(
            i + 2,
        ) == 't' && body.get_char(i + 3) == 'h' && body.get_char(i + 4) == '=' && !char_is_space(
            body.get_char(i + 5),
        );
        if matched {
            let start = i + 5;
            let mut j = start;
            while j < n && !char_is_space(body.get_char(j))
                invariant
                    start <= j <= n == body@.len(),
                    token_end(body@, start as int) == token_end(body@, j as int),
                decreases n - j,
            {
                j = j + 1;
            }
            assert(token_end(body@, j as int) == j);
            assert(first_auth_match(body@, i as int) == Some(i as int));
            return Some(String::from_str(body.substring_char(start, j)));
        }
        i = i + 1;
    }
    assert(first_auth_match(body@, i as int) is None);
    None
}

/// A decimal digit.
pub open spec fn is_digit(c: char) -> bool {
    '0' <= c && c <= '9'
}

pub open spec fn digit_val(c: char) -> int {
    c as int - '0' as int
}

/// The value of `s` read as a decimal numeral.
pub open spec fn digits_value(s: Seq<char>) -> int
    decreases s.len(),
{
    if s.len() == 0 {
        0
    } else {
        digits_value(s.drop_last()) * 10 + digit_val(s.last())
    }
}

/// `s` without a single leading `+` sign.
pub open spec fn skip_plus(s: Seq<char>) -> Seq<char> {
    if s.len() > 0 && s[0] == '+' {
        s.drop_first()
    } else {
        s
    }
}

/// The texts that read as an unsigned count: an optional `+` sign followed
/// by one or more decimal digits.
pub open spec fn is_count_text(s: Seq<char>) -> bool {
    &&& skip_plus(s).len() > 0
    &&& forall|k: int| 0 <= k < skip_plus(s).len() ==> is_digit(skip_plus(s)[k])
}

proof fn lemma_digits_value_nonneg(s: Seq<char>)
    requires
        forall|k: int| 0 <= k < s.len() ==> is_digit(s[k]),
    ensures
        digits_value(s) >= 0,
    decreases s.len(),
{
    if s.len() > 0 {
        lemma_digits_value_nonneg(s.drop_last());
    }
}

/// Reading more digits never shrinks the value of a numeral.
proof fn lemma_digits_value_mono(s: Seq<char>, i: int)
    requires
        0 <= i <= s.len(),
        forall|k: int| 0 <= k < s.len() ==> is_digit(s[k]),
    ensures
        digits_value(s.subrange(0, i)) <= digits_value(s),
    decreases s.len() - i,
{
    if i < s.len() {
        lemma_digits_value_nonneg(s.drop_last());
        lemma_digits_value_mono(s.drop_last(), i);
        assert(s.drop_last().subrange(0, i) =~= s.subrange(0, i));
        assert(is_digit(s[s.len() - 1]));
        assert(digit_val(s.last()) >= 0);
        assert(digits_value(s) == digits_value(s.drop_last()) * 10 + digit_val(s.last()));
        assert(digits_value(s.drop_last()) * 10 >= digits_value(s.drop_last()));
    } else {
        assert(s.subrange(0, i) =~= s);
    }
}

/// Parse an unread-count response body: the decimal numeral it holds, or a
/// parse error naming the endpoint and the body's byte length when the body
/// is not a numeral or its value does not fit. Servers that do not implement
/// the unread-count endpoint answer with a non-numeric body, which surfaces
/// here as the parse error.
pub fn parse_unread_count(body: &str) -> (r: Result<usize, ReaderError>)
    ensures
        match r {
            Ok(v) => is_count_text(body@) && digits_value(skip_plus(body@)) == v as int,
            Err(e) => {
                &&& !(is_count_text(body@) && digits_value(skip_plus(body@)) <= usize::MAX as int)
                &&& e == (ReaderError::Parse {
                    endpoint: Endpoint::UnreadCount,
                    body_len: body.len(),
                })
            },
        },
{
    let n = body.unicode_len();
    let err = ReaderError::Parse { endpoint: Endpoint::UnreadCount, body_len: body.len() };
    let start: usize = if n > 0 && body.get_char(0) == '+' {
        1
    } else {
        0
    };
    proof {
        if start == 1 {
            assert(skip_plus(body@) =~= body@.subrange(1, n as int));
        } else {
            assert(skip_plus(body@) =~= body@.subrange(0, n as int));
        }
    }
    if start >= n {
        return Err(err);
    }
    let ghost digits = skip_plus(body@);
    let mut v: usize = 0;
    let mut j = start;
    assert(body@.subrange(start as int, start as int) =~= digits.subrange(0, 0));
    while j < n
        invariant
            start <= j <= n == body@.len(),
            start <= 1,
            err == (ReaderError::Parse { endpoint: Endpoint::UnreadCount, body_len: body.len() }),
            digits == skip_plus(body@),
            digits == body@.subrange(start as int, n as int),
            forall|k: int| start <= k < j ==> is_digit(body@[k]),
            v as int == digits_value(digits.subrange(0, j - start)),
        decreases n - j,
    {
        let c = body.get_char(j);
        if !('0' <= c && c <= '9') {
            assert(digits[j - start] == body@[j as int]);
            return Err(err);
        }
        let d = (c as u32 - 48) as usize;
        let next = match v.checked_mul(10) {
            Some(x) => x.checked_add(d),
            None => None,
        };
        proof {
            let pref = digits.subrange(0, j + 1 - start);
            assert(pref.drop_last() =~= digits.subrange(0, j - start));
            assert(pref.last() == body@[j as int]);
            assert(digits_value(pref) == v as int * 10 + d as int);
        }
        match next {
            Some(x) => {
                v = x;
            },
            None => {
                proof {
                    if is_count_text(body@) {
                        lemma_digits_value_mono(digits, j + 1 - start);
                    }
                }
                return Err(err);
            },
        }
        j = j + 1;
    }
    assert(digits.subrange(0, n - start) =~= digits);
    Ok(v)
}

} // verus!
