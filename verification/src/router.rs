//! Which requests the gateway answers itself.
//!
//!   * `GET <base>/.well-known/agent-card.json` is answered with the agent card.
//!   * `POST <base><rpc path>` is a JSON-RPC call.
//!   * Anything else is passed on, or refused in strict mode.

use vstd::prelude::*;

use crate::text::{
    after_last, before_first, concat2, cut_at, ends_in, ends_with, eq_ignore_case,
    occurs_after_last, same_ignoring_case, text_eq, trim_end_char, trim_end_of,
};

verus! {

/// What a request asks for.
#[derive(Debug, Clone, Copy, PartialEq, Eq, Structural)]
pub enum Route {
    AgentCard,
    A2aRpc,
    Passthrough,
}

/// How the path of the agent card ends, wherever the API is mounted.
pub const AGENT_CARD_SUFFIX: &'static str = "/.well-known/agent-card.json";

/// Whether a path is one for calls. With the root as the configured path, that
/// is any path whose last segment has no dot in it; with another, any path that
/// ends with it, with or without a slash at the end.
pub open spec fn rpc_path(path: Seq<char>, configured: Seq<char>) -> bool {
    if configured == "/"@ {
        !after_last(path, '/').contains('.')
    } else {
        let stem = trim_end_of(configured, '/');
        ends_in(path, stem) || ends_in(path, stem + "/"@)
    }
}

/// What a request asks for. The query of the path has no say in it.
pub open spec fn route(method: Seq<char>, path: Seq<char>, configured: Seq<char>) -> Route {
    let bare = before_first(path, '?');
    if same_ignoring_case(method, "GET"@) && ends_in(bare, "/.well-known/agent-card.json"@) {
        Route::AgentCard
    } else if same_ignoring_case(method, "POST"@) && rpc_path(bare, configured) {
        Route::A2aRpc
    } else {
        Route::Passthrough
    }
}

/// Decides what a request asks for.
pub fn classify(method: &str, path: &str, a2a_rpc_path: &str) -> (r: Route)
    ensures
        r == route(method@, path@, a2a_rpc_path@),
{
    let bare: String = cut_at(path, '?');
    if eq_ignore_case(method, "GET") && ends_with(bare.as_str(), AGENT_CARD_SUFFIX) {
        return Route::AgentCard;
    }
    if eq_ignore_case(method, "POST") && rpc_path_matches(bare.as_str(), a2a_rpc_path) {
        return Route::A2aRpc;
    }
    Route::Passthrough
}

/// Decides whether a path is one for calls.
pub fn rpc_path_matches(path: &str, configured: &str) -> (r: bool)
    ensures
        r == rpc_path(path@, configured@),
{
    if text_eq(configured, "/") {
        return path_has_no_extension_after_last_segment(path);
    }
    let stem: String = trim_end_char(configured, '/');
    let with_slash: String = concat2(stem.as_str(), "/");
    ends_with(path, stem.as_str()) || ends_with(path, with_slash.as_str())
}

/// Decides whether a path looks like a resource rather than a file.
pub fn path_has_no_extension_after_last_segment(path: &str) -> (r: bool)
    ensures
        r == !after_last(path@, '/').contains('.'),
{
    !occurs_after_last(path, '/', '.')
}

proof fn lemma_before_query(path: Seq<char>, query: Seq<char>)
    requires
        !path.contains('?'),
    ensures
        before_first(path, '?') == path,
        before_first(path + seq!['?'] + query, '?') == path,
    decreases path.len(),
{
    let whole = path + seq!['?'] + query;
    if path.len() == 0 {
        assert(whole[0] == '?');
        assert(before_first(whole, '?') =~= path);
        assert(before_first(path, '?') =~= path);
    } else {
        let rest = path.drop_first();
        assert(path.contains(path[0]));
        assert forall|i: int| 0 <= i < rest.len() implies rest[i] != '?' by {
            assert(path.contains(path[i + 1]));
        }
        lemma_before_query(rest, query);
        assert(whole.drop_first() =~= rest + seq!['?'] + query);
        assert(seq![path[0]] + rest =~= path);
    }
}

/// The query of a path does not change what a request asks for.
pub proof fn query_does_not_route(
    method: Seq<char>,
    path: Seq<char>,
    query: Seq<char>,
    configured: Seq<char>,
)
    requires
        !path.contains('?'),
    ensures
        route(method, path + seq!['?'] + query, configured) == route(method, path, configured),
{
    lemma_before_query(path, query);
}

/// The agent card is served to `GET` alone, and calls are taken from `POST`
/// alone, however the verb is written.
pub proof fn routes_go_by_verb(method: Seq<char>, path: Seq<char>, configured: Seq<char>)
    ensures
        route(method, path, configured) is AgentCard ==> same_ignoring_case(method, "GET"@),
        route(method, path, configured) is A2aRpc ==> same_ignoring_case(method, "POST"@),
{
}

/// Wherever the API is mounted, `GET` of the card's path there is answered with
/// the card.
pub proof fn card_is_served_anywhere(mount: Seq<char>, configured: Seq<char>)
    requires
        !mount.contains('?'),
    ensures
        route("GET"@, mount + "/.well-known/agent-card.json"@, configured) is AgentCard,
{
    let suffix = "/.well-known/agent-card.json"@;
    let path = mount + suffix;
    reveal_strlit("/.well-known/agent-card.json");
    assert forall|i: int| 0 <= i < path.len() implies path[i] != '?' by {
        if i < mount.len() {
            assert(mount.contains(mount[i]));
        } else {
            assert(suffix[i - mount.len()] != '?');
        }
    }
    lemma_before_query(path, Seq::empty());
    assert(path.skip(path.len() - suffix.len()) =~= suffix);
}

} // verus!
