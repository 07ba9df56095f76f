//! RCON commands sent through the Battlemetrics API: the JSON body, the
//! endpoint and the authorization of a request, and the plan for delivering a
//! product to a player.
use vstd::prelude::*;
use crate::json::{json_string, json_string_literal, json_plain, lemma_json_plain};
use crate::product::{Product, spec_delivery_command, spec_no_player_reply};
use crate::text::lemma_concat_cancel;

verus! {

struct CommandOptions {
    raw: String,
}

struct CommandAttributes {
    command: String,
    options: CommandOptions,
}

struct RconCommand {
    type_field: String,
    attributes: CommandAttributes,
}

/// The body of a Battlemetrics RCON command request.
pub struct RconData {
    data: RconCommand,
}

impl View for RconData {
    /// The `type`, `command` and `raw` strings.
    type V = (Seq<char>, Seq<char>, Seq<char>);

    closed spec fn view(&self) -> (Seq<char>, Seq<char>, Seq<char>) {
        (self.data.type_field@, self.data.attributes.command@, self.data.attributes.options.raw@)
    }
}

/// The JSON of an RCON command body with the given `type`, `command` and
/// `raw` strings, keys in this order, no white space:
/// `{"data":{"type":..,"attributes":{"command":..,"options":{"raw":..}}}}`.
pub open spec fn rcon_json(v: (Seq<char>, Seq<char>, Seq<char>)) -> Seq<char> {
    "{\"data\":{\"type\":"@ + json_string_literal(v.0) + ",\"attributes\":{\"command\":"@
        + json_string_literal(v.1) + ",\"options\":{\"raw\":"@ + json_string_literal(v.2)
        + "}}}}"@
}

/// The same JSON when none of the three strings holds a character to
/// escape: each is written between quotes as it is.
pub open spec fn rcon_json_plain(v: (Seq<char>, Seq<char>, Seq<char>)) -> Seq<char> {
    "{\"data\":{\"type\":\""@ + v.0 + "\",\"attributes\":{\"command\":\""@ + v.1
        + "\",\"options\":{\"raw\":\""@ + v.2 + "\"}}}}"@
}

impl RconData {
    pub fn new(type_field: &str, command: &str, raw: &str) -> (r: Self)
        ensures
            r@ == (type_field@, command@, raw@),
    {
        RconData {
            data: RconCommand {
                type_field: type_field.to_string(),
                attributes: CommandAttributes {
                    command: command.to_string(),
                    options: CommandOptions { raw: raw.to_string() },
                },
            },
        }
    }

    /// The JSON text of this body. It always succeeds.
    pub fn to_json(&self) -> (r: Result<String, serde_json::Error>)
        ensures
            r is Ok,
            r matches Ok(v) ==> v@ == rcon_json(self@),
            r matches Ok(v) ==> v@ == "{\"data\":{\"type\":"@ + json_string_literal(self@.0)
                + ",\"attributes\":{\"command\":"@ + json_string_literal(self@.1)
                + ",\"options\":{\"raw\":"@ + json_string_literal(self@.2) + "}}}}"@,
            r matches Ok(v) ==> (json_plain(self@.0) && json_plain(self@.1) && json_plain(self@.2)
                ==> v@ == rcon_json_plain(self@)),
    {
        let kind = json_string(self.data.type_field.as_str())?;
        let command = json_string(self.data.attributes.command.as_str())?;
        let raw = json_string(self.data.attributes.options.raw.as_str())?;
        let mut out = "{\"data\":{\"type\":".to_string();
        out.append(kind.as_str());
        out.append(",\"attributes\":{\"command\":");
        out.append(command.as_str());
        out.append(",\"options\":{\"raw\":");
        out.append(raw.as_str());
        out.append("}}}}");
        proof {
            reveal_strlit("{\"data\":{\"type\":");
            reveal_strlit(",\"attributes\":{\"command\":");
            reveal_strlit(",\"options\":{\"raw\":");
            reveal_strlit("}}}}");
            reveal_strlit("{\"data\":{\"type\":\"");
            reveal_strlit("\",\"attributes\":{\"command\":\"");
            reveal_strlit("\",\"options\":{\"raw\":\"");
            reveal_strlit("\"}}}}");
            let v = self@;
            if json_plain(v.0) && json_plain(v.1) && json_plain(v.2) {
                lemma_json_plain(v.0);
                lemma_json_plain(v.1);
                lemma_json_plain(v.2);
                assert(out@ =~= rcon_json_plain(v));
            }
        }
        Ok(out)
    }
}

/// An HTTP POST to send: where, with which `Authorization` header, and the
/// JSON body.
#[derive(Debug)]
pub struct RconRequest {
    pub url: String,
    pub authorization: String,
    pub body: String,
}

/// The Battlemetrics endpoint that runs RCON commands on a server.
pub open spec fn spec_command_url(server_id: Seq<char>) -> Seq<char> {
    "https://api.battlemetrics.com/servers/"@ + server_id + "/command"@
}

pub open spec fn spec_bearer(token: Seq<char>) -> Seq<char> {
    "Bearer "@ + token
}

/// The body that runs `command` raw on the server.
pub open spec fn spec_raw_command_body(command: Seq<char>) -> Seq<char> {
    rcon_json(("rconCommand"@, "raw"@, command))
}

/// The endpoint for every server id is
/// `https://api.battlemetrics.com/servers/<id>/command` with the id carried
/// over unchanged, so two ids give the same endpoint only when they are the
/// same id.
pub proof fn lemma_command_url_law(a: Seq<char>, b: Seq<char>)
    ensures
        spec_command_url(a) == "https://api.battlemetrics.com/servers/"@ + a + "/command"@,
        spec_command_url(a) == spec_command_url(b) ==> a == b,
{
    if spec_command_url(a) == spec_command_url(b) {
        lemma_concat_cancel("https://api.battlemetrics.com/servers/"@, a, b, "/command"@);
    }
}

/// The `Authorization` header for every token is `Bearer <token>`, the token
/// carried over unchanged.
pub proof fn lemma_bearer_law(a: Seq<char>, b: Seq<char>)
    ensures
        spec_bearer(a) == "Bearer "@ + a,
        spec_bearer(a) == spec_bearer(b) ==> a == b,
{
    if spec_bearer(a) == spec_bearer(b) {
        lemma_concat_cancel("Bearer "@, a, b, Seq::<char>::empty());
    }
}

/// The Battlemetrics endpoint that runs RCON commands on `server_id`.
pub fn command_url(server_id: &str) -> (r: String)
    ensures
        r@ == spec_command_url(server_id@),
        r@ == "https://api.battlemetrics.com/servers/"@ + server_id@ + "/command"@,
{
    let mut out = "https://api.battlemetrics.com/servers/".to_string();
    out.append(server_id);
    out.append("/command");
    out
}

/// The `Authorization` header for a Battlemetrics token.
pub fn bearer(token: &str) -> (r: String)
    ensures
        r@ == spec_bearer(token@),
        r@ == "Bearer "@ + token@,
{
    let mut out = "Bearer ".to_string();
    out.append(token);
    out
}

/// The request that runs `command` raw on `server_id`, authorized by
/// `bm_token`.
pub fn rcon_request(server_id: &str, bm_token: &str, command: &str) -> (q: RconRequest)
    ensures
        q.url@ == spec_command_url(server_id@),
        q.url@ == "https://api.battlemetrics.com/servers/"@ + server_id@ + "/command"@,
        q.authorization@ == spec_bearer(bm_token@),
        q.authorization@ == "Bearer "@ + bm_token@,
        q.body@ == spec_raw_command_body(command@),
        json_plain(command@) ==> q.body@ == rcon_json_plain(("rconCommand"@, "raw"@, command@)),
{
    proof {
        reveal_strlit("rconCommand");
        reveal_strlit("raw");
    }
    let data = RconData::new("rconCommand", "raw", command);
    let body = match data.to_json() {
        Ok(b) => b,
        Err(_) => String::new(),  // never taken: `to_json` always succeeds
    };
    RconRequest { url: command_url(server_id), authorization: bearer(bm_token), body }
}

/// What to do to deliver a product.
#[derive(Debug)]
pub enum RconPlan {
    /// No player was named: send this reply and nothing else.
    NoPlayer(String),
    /// Send this request.
    Send(RconRequest),
}

/// The plan for delivering `product` to the player `name` on `server_id`.
pub fn plan_delivery(product: &Product, name: Option<&str>, server_id: &str, bm_token: &str) -> (r: RconPlan)
    ensures
        name is None <==> r is NoPlayer,
        name is Some <==> r is Send,
        r matches RconPlan::NoPlayer(m) ==> m@ == spec_no_player_reply(*product),
        r matches RconPlan::Send(q) ==> (name matches Some(player) && {
            &&& q.url@ == spec_command_url(server_id@)
            &&& q.url@ == "https://api.battlemetrics.com/servers/"@ + server_id@ + "/command"@
            &&& q.authorization@ == spec_bearer(bm_token@)
            &&& q.authorization@ == "Bearer "@ + bm_token@
            &&& q.body@ == spec_raw_command_body(spec_delivery_command(*product, player@))
            &&& *product matches Product::Blood { amount } ==> q.body@
                == spec_raw_command_body("giveitem blood "@ + amount@ + " "@ + player@)
            &&& *product is Unmute ==> q.body@
                == spec_raw_command_body("inventory.giveto \""@ + player@ + "\" \"unmute\" "@)
        }),
{
    match name {
        None => RconPlan::NoPlayer(product.no_player_reply()),
        Some(player) => {
            let command = product.delivery_command(player);
            RconPlan::Send(rcon_request(server_id, bm_token, command.as_str()))
        },
    }
}

} // verus!
