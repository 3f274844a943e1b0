//! What errors say.

use vstd::prelude::*;

use crate::agent_card::{card_error_text, CardErrorView};
use crate::agentforce::auth::{auth_error_text, AuthErrorView};
use crate::agentforce::client::{client_error_text, ClientErrorView};
use crate::config::{config_error_text, ConfigErrorView};
use crate::exchange::publish::{publish_error_text, PublishErrorView};
use crate::store::object_store_v2::{os2_error_text, OS2ErrorView};
use crate::text::decimal;

verus! {

/// An error that was told something passes it on: the status in digits, and the reason
/// or the body as it came.
pub proof fn errors_pass_on_what_they_were_told(
    s: Seq<char>,
    t: Seq<char>,
    status: u32,
    e: AuthErrorView,
)
    ensures
        card_error_text(CardErrorView::Transport(s)) == "agent card url fetch transport error: "@
            + s,
        card_error_text(CardErrorView::HttpStatus(status)) == "agent card url fetch returned HTTP "@
            + decimal(status as nat),
        card_error_text(CardErrorView::BadJson(s)) == "agent card body was not valid JSON: "@ + s,
        auth_error_text(AuthErrorView::Transport(s)) == "transport error talking to Salesforce: "@
            + s,
        auth_error_text(AuthErrorView::HttpStatus { status, body: s })
            == "Salesforce token endpoint returned HTTP "@ + decimal(status as nat) + ": "@ + s,
        auth_error_text(AuthErrorView::BadJson(s))
            == "Salesforce token response was not valid JSON: "@ + s,
        client_error_text(ClientErrorView::Auth(e)) == "auth error: "@ + auth_error_text(e),
        client_error_text(ClientErrorView::Transport { source: s })
            == "transport error talking to Agentforce: "@ + s,
        client_error_text(ClientErrorView::HttpStatus { operation: t, status, body: s })
            == "Agentforce returned HTTP "@ + decimal(status as nat) + " on "@ + t + ": "@ + s,
        client_error_text(ClientErrorView::BadJson(s))
            == "Agentforce response body was not valid JSON: "@ + s,
        client_error_text(ClientErrorView::MissingField(s))
            == "Agentforce response missing field: "@ + s,
        os2_error_text(OS2ErrorView::Transport { endpoint: t, source: s })
            == "transport error talking to "@ + t + ": "@ + s,
        os2_error_text(OS2ErrorView::HttpStatus { operation: t, status }) == "OS v2 returned HTTP "@
            + decimal(status as nat) + " on "@ + t,
        os2_error_text(OS2ErrorView::BadTokenJson(s))
            == "OS v2 token endpoint response was not valid JSON: "@ + s,
        publish_error_text(PublishErrorView::TokenTransport(s)) == "token transport error: "@ + s,
        publish_error_text(PublishErrorView::TokenHttpStatus { status, body: s })
            == "token endpoint returned HTTP "@ + decimal(status as nat) + ": "@ + s,
        publish_error_text(PublishErrorView::TokenBadJson(s))
            == "token response was not valid JSON: "@ + s,
        publish_error_text(PublishErrorView::PublishTransport(s)) == "publish transport error: "@
            + s,
        publish_error_text(PublishErrorView::PublishHttpStatus { status, body: s })
            == "publish returned HTTP "@ + decimal(status as nat) + ": "@ + s,
        config_error_text(ConfigErrorView::InvalidJson { field: t, error: s })
            == "invalid JSON in "@ + t + ": "@ + s,
{
}

} // verus!
