use zbd_discord_bot::battlemetrics::{bearer, command_url, plan_delivery, rcon_request, RconData, RconPlan};
use zbd_discord_bot::product::Product;

#[test]
fn rcon_body_has_the_documented_shape() {
    let body = RconData::new("rconCommand", "raw", "say hello").to_json().unwrap();
    assert_eq!(
        body,
        "{\"data\":{\"type\":\"rconCommand\",\"attributes\":{\"command\":\"raw\",\"options\":{\"raw\":\"say hello\"}}}}"
    );
}

#[test]
fn rcon_body_escapes_quotes() {
    let body = RconData::new("rconCommand", "raw", "inventory.giveto \"Bob\" \"blood\" 5").to_json().unwrap();
    assert_eq!(
        body,
        "{\"data\":{\"type\":\"rconCommand\",\"attributes\":{\"command\":\"raw\",\"options\":{\"raw\":\"inventory.giveto \\\"Bob\\\" \\\"blood\\\" 5\"}}}}"
    );
    let value: serde_json::Value = serde_json::from_str(&body).unwrap();
    assert_eq!(value["data"]["attributes"]["options"]["raw"], "inventory.giveto \"Bob\" \"blood\" 5");
    assert_eq!(value["data"]["type"], "rconCommand");
}

#[test]
fn rcon_body_escapes_control_characters() {
    let body = RconData::new("a\nb", "c\\d", "\u{1}").to_json().unwrap();
    assert_eq!(
        body,
        "{\"data\":{\"type\":\"a\\nb\",\"attributes\":{\"command\":\"c\\\\d\",\"options\":{\"raw\":\"\\u0001\"}}}}"
    );
}

#[test]
fn url_and_authorization() {
    assert_eq!(command_url("12345"), "https://api.battlemetrics.com/servers/12345/command");
    assert_eq!(bearer("tok"), "Bearer tok");
}

#[test]
fn raw_command_request() {
    let q = rcon_request("9", "tok", "say hi");
    assert_eq!(q.url, "https://api.battlemetrics.com/servers/9/command");
    assert_eq!(q.authorization, "Bearer tok");
    assert_eq!(
        q.body,
        "{\"data\":{\"type\":\"rconCommand\",\"attributes\":{\"command\":\"raw\",\"options\":{\"raw\":\"say hi\"}}}}"
    );
}

#[test]
fn delivery_plan_without_player() {
    let p = Product::Blood { amount: "5".to_string() };
    match plan_delivery(&p, None, "9", "tok") {
        RconPlan::NoPlayer(m) => assert_eq!(m, "Failed to parse amount"),
        _ => panic!("expected a reply"),
    }
    match plan_delivery(&Product::Unmute, None, "9", "tok") {
        RconPlan::NoPlayer(m) => assert_eq!(m, "Failed to unmute player"),
        _ => panic!("expected a reply"),
    }
}

#[test]
fn delivery_plan_for_blood() {
    let p = Product::Blood { amount: "5".to_string() };
    match plan_delivery(&p, Some("Bob"), "9", "tok") {
        RconPlan::Send(q) => {
            assert_eq!(q.url, "https://api.battlemetrics.com/servers/9/command");
            assert_eq!(q.authorization, "Bearer tok");
            assert_eq!(
                q.body,
                "{\"data\":{\"type\":\"rconCommand\",\"attributes\":{\"command\":\"raw\",\"options\":{\"raw\":\"giveitem blood 5 Bob\"}}}}"
            );
            let value: serde_json::Value = serde_json::from_str(&q.body).unwrap();
            assert_eq!(value["data"]["attributes"]["command"], "raw");
        },
        _ => panic!("expected a request"),
    }
}

#[test]
fn delivery_plan_for_unmute() {
    match plan_delivery(&Product::Unmute, Some("Eve"), "1", "t") {
        RconPlan::Send(q) => {
            let value: serde_json::Value = serde_json::from_str(&q.body).unwrap();
            assert_eq!(value["data"]["attributes"]["options"]["raw"], "inventory.giveto \"Eve\" \"unmute\" ");
        },
        _ => panic!("expected a request"),
    }
}
