use crate::items::Response;
use crate::session::NextAction;
use crate::session::Request;
use crate::session::Session;
use crate::urls::spec_session_base;
use vstd::prelude::*;

verus! {

broadcast use vstd::seq::group_seq_axioms;

/// Two sequences that agree after the same prefix agree outright.
proof fn lemma_seq_prefix_cancel(p: Seq<char>, a: Seq<char>, b: Seq<char>)
    requires
        p + a == p + b,
    ensures
        a == b,
{
    assert((p + a).len() == p.len() + a.len());
    assert((p + b).len() == p.len() + b.len());
    assert((p + a).len() == (p + b).len());
    assert(a.len() == b.len());
    assert forall|i: int| 0 <= i < a.len() implies a[i] == b[i] by {
        vstd::seq::lemma_seq_add_index2_alt(p, a, i);
        vstd::seq::lemma_seq_add_index2_alt(p, b, i);
    }
    assert(a =~= b);
}

/// URL normalization: a server URL that ends in a slash builds the same
/// session base as the same text without that slash, so `http://x/a/` and
/// `http://x/a` are equivalent after construction.
pub proof fn lemma_url_normalization(with_slash: Seq<char>, without: Seq<char>)
    requires
        with_slash.len() > 0,
        with_slash.last() == '/',
        without == with_slash.drop_last(),
        without.len() > 0 ==> without.last() != '/',
    ensures
        spec_session_base(with_slash) == spec_session_base(without),
{
}

/// Lazy login: whichever authenticated operation is stepped on a session
/// with no cached auth token, the demanded action is the login request, to
/// be applied before the operation's own request — and once an auth token is
/// cached, no step asks for a login again.
pub proof fn lemma_lazy_login(
    s: Session,
    id: Seq<char>,
    cont: Option<Seq<char>>,
    r: NextAction,
)
    requires
        s.write_token_step_ok(r) || s.list_unread_step_ok(cont, r) || s.mark_read_step_ok(id, r)
            || s.unread_count_step_ok(r),
    ensures
        s.auth_token is None ==> (r matches NextAction::Login(req) && s.is_login_request(req)),
        s.auth_token is Some ==> !(r matches NextAction::Login(_)),
{
}

/// Token isolation: every authenticated request authorizes itself with the
/// auth token alone — its `Authorization` header is `GoogleLogin auth=`
/// followed by the cached auth token, and, the two tokens differing, never
/// the same header built from the write token — while the edit-tag mutation
/// carries the write token alone in its `T` field, never the auth token.
pub proof fn lemma_token_isolation(
    s: Session,
    id: Seq<char>,
    cont: Option<Seq<char>>,
    req: Request,
)
    requires
        s.auth_token is Some,
        s.write_token is Some,
        s.auth_token->0@ != s.write_token->0@,
        s.is_write_token_request(req) || s.is_list_request(cont, req) || s.is_edit_tag_request(
            id,
            req,
        ) || s.is_unread_count_request(req),
    ensures
        req.auth matches Some(h) && h@ == "GoogleLogin auth="@ + s.auth_token->0@,
        req.auth matches Some(h) && h@ != "GoogleLogin auth="@ + s.write_token->0@,
        s.is_edit_tag_request(id, req) ==> req.form@[1].1@ == s.write_token->0@
            && req.form@[1].1@ != s.auth_token->0@,
{
    if req.auth->0@ == "GoogleLogin auth="@ + s.write_token->0@ {
        lemma_seq_prefix_cancel("GoogleLogin auth="@, s.auth_token->0@, s.write_token->0@);
    }
}

/// Pagination: a page that carries a continuation cursor is re-queried with
/// exactly that cursor — the request built for it places `c={cursor}&` at
/// the head of the query string, before the fixed reading-list parameters —
/// while a page without a cursor is the last one.
pub proof fn lemma_pagination_requery(s: Session, page: Response, req: Request)
    requires
        page.continuation is Some,
        s.is_list_request(Some(page.continuation->0@), req),
    ensures
        req.url@ == s.base_url@
            + "/reader/api/0/stream/contents/user/-/state/com.google/reading-list"@ + "?"@ + (
        "c="@ + page.continuation->0@ + "&"@ + "r=n&xt=user/-/state/com.google/read"@),
{
}

} // verus!
