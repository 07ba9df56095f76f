use zbd_discord_bot::decimal::parse_i32;
use zbd_discord_bot::product::{blood_charge, sats_to_msats, AmountError, Product};

fn blood(a: &str) -> Product {
    Product::Blood { amount: a.to_string() }
}

#[test]
fn blood_charge_is_in_millisatoshis() {
    let c = blood_charge("5").unwrap();
    assert_eq!(c.amount, "5000");
    assert_eq!(c.description, "Buy Blood");
    assert_eq!(c.expires_in, 40);
    assert_eq!(blood_charge("-1").unwrap().amount, "-1000");
    assert_eq!(blood_charge("+12").unwrap().amount, "12000");
    assert_eq!(blood_charge("0").unwrap().amount, "0");
}

#[test]
fn blood_charge_errors() {
    assert!(matches!(blood_charge("abc"), Err(AmountError::NotANumber)));
    assert!(matches!(blood_charge(""), Err(AmountError::NotANumber)));
    assert!(matches!(blood_charge("9999999999"), Err(AmountError::NotANumber)));
    assert!(matches!(blood_charge("2147484"), Err(AmountError::TooLarge)));
    assert!(matches!(blood_charge("-2147484"), Err(AmountError::TooLarge)));
    assert_eq!(blood_charge("2147483").unwrap().amount, "2147483000");
    assert_eq!(blood_charge("-2147483").unwrap().amount, "-2147483000");
}

#[test]
fn msats_formula() {
    assert_eq!(sats_to_msats(21), 21000);
    assert_eq!(sats_to_msats(-3), -3000);
}

#[test]
fn unmute_charge() {
    let c = Product::Unmute.charge().unwrap();
    assert_eq!(c.amount, "1000");
    assert_eq!(c.description, "unmute player");
    assert_eq!(c.expires_in, 40);
}

#[test]
fn product_charge_for_blood() {
    let c = blood("7").charge().unwrap();
    assert_eq!(c.amount, "7000");
    assert!(matches!(blood("seven").charge(), Err(AmountError::NotANumber)));
}

#[test]
fn charge_matches_delivery_law() {
    for a in ["1", "25", "+3", "-4", "2147483"] {
        let p = blood(a);
        let c = p.charge().unwrap();
        let n = parse_i32(a).unwrap();
        assert_eq!(parse_i32(&c.amount), Some(n * 1000));
        assert_eq!(p.delivery_command("Bob"), format!("giveitem blood {} Bob", a));
    }
}

#[test]
fn delivery_commands() {
    assert_eq!(blood("5").delivery_command("Bob"), "giveitem blood 5 Bob");
    assert_eq!(Product::Unmute.delivery_command("Bob"), "inventory.giveto \"Bob\" \"unmute\" ");
}

#[test]
fn delivery_replies() {
    assert_eq!(blood("5").delivery_reply("Bob", 200), "Bob has been payed 5 blood");
    assert_eq!(blood("5").delivery_reply("Bob", 500), "Failed to pay 5 blood to Bob.");
    assert_eq!(blood("5").delivery_reply("Bob", 201), "Failed to pay 5 blood to Bob.");
    assert_eq!(Product::Unmute.delivery_reply("Bob", 200), "Bob has been unmuted");
    assert_eq!(Product::Unmute.delivery_reply("Bob", 404), "Failed to unmute player Bob.");
}

#[test]
fn no_player_replies() {
    assert_eq!(blood("5").no_player_reply(), "Failed to parse amount");
    assert_eq!(Product::Unmute.no_player_reply(), "Failed to unmute player");
}
