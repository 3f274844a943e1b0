//! Which requests are for whom.

use agentforce_a2a::router::{
    classify, path_has_no_extension_after_last_segment, rpc_path_matches, Route,
};

#[test]
fn classifies_agent_card() {
    let r = classify("GET", "/agentforce/.well-known/agent-card.json", "/");
    assert_eq!(r, Route::AgentCard);
}

#[test]
fn classifies_agent_card_at_root() {
    let r = classify("GET", "/.well-known/agent-card.json", "/");
    assert_eq!(r, Route::AgentCard);
}

#[test]
fn case_insensitive_method() {
    let r = classify("get", "/.well-known/agent-card.json", "/");
    assert_eq!(r, Route::AgentCard);
}

#[test]
fn classifies_post_root_as_rpc() {
    let r = classify("POST", "/agentforce/", "/");
    assert_eq!(r, Route::A2aRpc);
    let r = classify("POST", "/agentforce", "/");
    assert_eq!(r, Route::A2aRpc);
}

#[test]
fn classifies_post_explicit_path() {
    let r = classify("POST", "/agentforce/rpc", "/rpc");
    assert_eq!(r, Route::A2aRpc);
    let r = classify("POST", "/agentforce/rpc/", "/rpc");
    assert_eq!(r, Route::A2aRpc);
}

#[test]
fn does_not_treat_static_asset_as_rpc_when_root_path() {
    let r = classify("POST", "/agentforce/foo.png", "/");
    assert_eq!(r, Route::Passthrough);
}

#[test]
fn passthrough_for_other_methods() {
    let r = classify("PUT", "/agentforce/", "/");
    assert_eq!(r, Route::Passthrough);
}

#[test]
fn passthrough_for_non_matching_paths() {
    let r = classify("POST", "/agentforce/other-thing", "/rpc");
    assert_eq!(r, Route::Passthrough);
}

#[test]
fn strips_query_string() {
    let r = classify("GET", "/.well-known/agent-card.json?foo=bar", "/");
    assert_eq!(r, Route::AgentCard);
}

#[test]
fn query_is_cut_at_the_first_mark() {
    assert_eq!(classify("POST", "/a2a/rpc?x=/foo.png?y=1", "/rpc"), Route::A2aRpc);
    assert_eq!(classify("POST", "/a2a/foo.png?x=/rpc", "/rpc"), Route::Passthrough);
}

#[test]
fn configured_path_loses_its_trailing_slashes() {
    assert_eq!(classify("POST", "/a2a/rpc", "/rpc//"), Route::A2aRpc);
    assert_eq!(classify("POST", "/a2a/rpc/", "/rpc//"), Route::A2aRpc);
    assert!(rpc_path_matches("/anything.png", "//"));
    assert!(!rpc_path_matches("/anything.png", "/"));
}

#[test]
fn extensions_count_only_in_the_last_segment() {
    assert!(path_has_no_extension_after_last_segment("/v1.2/agent"));
    assert!(!path_has_no_extension_after_last_segment("/v1/agent.json"));
    assert!(path_has_no_extension_after_last_segment("/v1.2/"));
    assert!(path_has_no_extension_after_last_segment(""));
    assert!(!path_has_no_extension_after_last_segment("a.b"));
}

#[test]
fn card_is_not_posted() {
    assert_eq!(classify("POST", "/.well-known/agent-card.json", "/"), Route::Passthrough);
    assert_eq!(classify("GET", "/agentforce/", "/"), Route::Passthrough);
}
