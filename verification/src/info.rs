//! Static server identity exposed at session negotiation, and the plain
//! health payload.

use vstd::prelude::*;
use crate::json::{Json, JsonValue, jmodel, lemma_jmodel_entries};
use crate::render::{jtext, render_json};

verus! {

/// What the server declares about itself when a session is negotiated:
/// protocol version, capabilities, identity, and instructions.
pub struct ServerInfo {
    pub protocol_version: String,
    pub tools_capability: bool,
    pub name: String,
    pub version: String,
    pub instructions: String,
}

/// The negotiation response: a fixed identity declaring the tools
/// capability.
pub fn get_info() -> (r: ServerInfo)
    ensures
        r.protocol_version@ == "2024-11-05"@,
        r.tools_capability,
        r.name@ == "mcp-rust-server"@,
        r.version@ == "0.1.0"@,
        r.instructions@ == "Rust MCP benchmark server"@,
{
    ServerInfo {
        protocol_version: "2024-11-05".to_owned(),
        tools_capability: true,
        name: "mcp-rust-server".to_owned(),
        version: "0.1.0".to_owned(),
        instructions: "Rust MCP benchmark server".to_owned(),
    }
}

/// The health payload's body.
pub open spec fn health_model() -> Json {
    Json::Object(seq![("server_type"@, Json::Str("rust"@)), ("status"@, Json::Str("ok"@))])
}

/// The health payload, rendered: a plain all-is-well answer with the
/// server discriminator.
pub fn health_response() -> (r: String)
    ensures
        r@ == jtext(health_model()),
{
    let mut fields: Vec<(String, JsonValue)> = Vec::new();
    fields.push(("server_type".to_owned(), JsonValue::Str("rust".to_owned())));
    fields.push(("status".to_owned(), JsonValue::Str("ok".to_owned())));
    let ghost fs = fields@;
    let body = JsonValue::Object(fields);
    proof {
        lemma_jmodel_entries(fs);
        assert(crate::json::jmodel_entries(fs) =~~= seq![
            ("server_type"@, Json::Str("rust"@)),
            ("status"@, Json::Str("ok"@)),
        ]);
        assert(jmodel(body) =~~= health_model());
    }
    render_json(&body)
}

} // verus!
