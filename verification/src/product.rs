//! What the bot sells: blood for a player, or lifting a player's mute. Each
//! product has a Lightning charge, an in-game command that delivers it, and
//! the replies that report the delivery.
use vstd::prelude::*;
use crate::decimal::{
    i32_to_string, parse_i32, spec_decimal, spec_parse_i32, lemma_decimal_round_trip,
    lemma_decimal_1000,
};
use crate::text::lemma_concat_cancel;

verus! {

/// Seconds before an invoice expires.
pub const INVOICE_EXPIRY_SECONDS: u32 = 40;

/// The amount that the unmute charge asks for, and that the invoice message
/// names as its price.
pub const UNMUTE_PRICE: i32 = 1000;

/// Something a player can pay for.
#[derive(Debug)]
pub enum Product {
    /// `amount` blood, as the buyer typed it: the same number of satoshis.
    Blood { amount: String },
    /// Lift the player's mute.
    Unmute,
}

/// Why no charge can be made for an amount of blood.
#[derive(Clone, Copy, Debug, PartialEq, Eq, Structural)]
pub enum AmountError {
    /// The amount is not a number that `i32` holds.
    NotANumber,
    /// The amount in millisatoshis (1000 times the amount) does not fit an
    /// `i32`: multiplying it out would overflow.
    TooLarge,
}

/// A charge to ask the payment service for.
#[derive(Debug)]
pub struct ChargeRequest {
    /// Millisatoshis, in decimal.
    pub amount: String,
    pub description: String,
    pub expires_in: u32,
}

/// The charge as plain values: amount text, description, seconds to expiry.
pub open spec fn charge_view(c: ChargeRequest) -> (Seq<char>, Seq<char>, u32) {
    (c.amount@, c.description@, c.expires_in)
}

pub open spec fn charge_outcome(r: Result<ChargeRequest, AmountError>) -> Result<(Seq<char>, Seq<char>, u32), AmountError> {
    match r {
        Ok(c) => Ok(charge_view(c)),
        Err(e) => Err(e),
    }
}

pub open spec fn fits_i32(v: int) -> bool {
    i32::MIN <= v && v <= i32::MAX
}

/// The charge for `amount` blood: one satoshi, that is 1000 millisatoshis,
/// for each unit of blood.
pub open spec fn spec_blood_charge(amount: Seq<char>) -> Result<(Seq<char>, Seq<char>, u32), AmountError> {
    match spec_parse_i32(amount) {
        None => Err(AmountError::NotANumber),
        Some(n) => if fits_i32(n * 1000) {
            Ok((spec_decimal(n * 1000), "Buy Blood"@, 40u32))
        } else {
            Err(AmountError::TooLarge)
        },
    }
}

pub open spec fn spec_charge(p: Product) -> Result<(Seq<char>, Seq<char>, u32), AmountError> {
    match p {
        Product::Blood { amount } => spec_blood_charge(amount@),
        Product::Unmute => Ok((spec_decimal(1000), "unmute player"@, 40u32)),
    }
}

/// What a blood charge is, for every amount text: no charge for a text that
/// is not an `i32`; for a number `n` whose millisatoshis fit an `i32`, a
/// "Buy Blood" charge of 40 seconds whose amount reads back as `n * 1000`;
/// and for any other number, a refusal as too large.
pub proof fn lemma_blood_charge_law(amount: Seq<char>)
    ensures
        spec_parse_i32(amount) is None ==> spec_blood_charge(amount)
            == Err::<(Seq<char>, Seq<char>, u32), AmountError>(AmountError::NotANumber),
        spec_parse_i32(amount) matches Some(n) ==> {
            &&& -2147483 <= n <= 2147483 ==> (spec_blood_charge(amount) matches Ok(c)
                && spec_parse_i32(c.0) == Some((n * 1000) as i32)
                && c.1 == "Buy Blood"@
                && c.2 == 40)
            &&& !(-2147483 <= n <= 2147483) ==> spec_blood_charge(amount)
                == Err::<(Seq<char>, Seq<char>, u32), AmountError>(AmountError::TooLarge)
        },
{
    if let Some(n) = spec_parse_i32(amount) {
        if -2147483 <= n <= 2147483 {
            assert(fits_i32(n * 1000));
            lemma_decimal_round_trip((n * 1000) as i32);
        }
    }
}

/// Satoshis to millisatoshis.
pub fn sats_to_msats(sats: i32) -> (r: i32)
    requires
        fits_i32(sats * 1000),
    ensures
        r == sats * 1000,
{
    sats * 1000
}

/// The charge for `amount` blood.
pub fn blood_charge(amount: &str) -> (r: Result<ChargeRequest, AmountError>)
    ensures
        charge_outcome(r) == spec_blood_charge(amount@),
        spec_parse_i32(amount@) is None <==> r == Err::<ChargeRequest, AmountError>(AmountError::NotANumber),
        spec_parse_i32(amount@) matches Some(n) ==> (-2147483 <= n <= 2147483 <==> r is Ok),
        r matches Ok(c) ==> {
            &&& spec_parse_i32(amount@) matches Some(n)
            &&& spec_parse_i32(c.amount@) == Some((n * 1000) as i32)
            &&& c.description@ == "Buy Blood"@
            &&& c.expires_in == 40
        },
{
    proof {
        lemma_blood_charge_law(amount@);
    }
    match parse_i32(amount) {
        None => Err(AmountError::NotANumber),
        Some(n) => {
            if n < -2147483 || n > 2147483 {
                Err(AmountError::TooLarge)
            } else {
                let msats = sats_to_msats(n);
                let description = "Buy Blood".to_string();
                Ok(ChargeRequest { amount: i32_to_string(msats), description, expires_in: INVOICE_EXPIRY_SECONDS })
            }
        },
    }
}

impl Product {
    /// The charge that pays for this product.
    pub fn charge(&self) -> (r: Result<ChargeRequest, AmountError>)
        ensures
            charge_outcome(r) == spec_charge(*self),
            *self is Unmute ==> (r matches Ok(c) && c.amount@ == "1000"@
                && c.description@ == "unmute player"@ && c.expires_in == 40),
            *self matches Product::Blood { amount } ==> {
                &&& spec_parse_i32(amount@) is None <==> r == Err::<ChargeRequest, AmountError>(AmountError::NotANumber)
                &&& spec_parse_i32(amount@) matches Some(n) ==> (-2147483 <= n <= 2147483 <==> r is Ok)
                &&& r matches Ok(c) ==> {
                    &&& spec_parse_i32(amount@) matches Some(n)
                    &&& spec_parse_i32(c.amount@) == Some((n * 1000) as i32)
                    &&& c.description@ == "Buy Blood"@
                    &&& c.expires_in == 40
                }
            },
    {
        proof {
            lemma_decimal_1000();
        }
        match self {
            Product::Blood { amount } => blood_charge(amount.as_str()),
            Product::Unmute => {
                let description = "unmute player".to_string();
                Ok(ChargeRequest {
                    amount: i32_to_string(UNMUTE_PRICE),
                    description,
                    expires_in: INVOICE_EXPIRY_SECONDS,
                })
            },
        }
    }
}

/// The in-game command that delivers `p` to `player`: `giveitem blood
/// <amount> <player>` for blood, and the `inventory.giveto` of the `unmute`
/// item for an unmute.
pub open spec fn spec_delivery_command(p: Product, player: Seq<char>) -> Seq<char> {
    match p {
        Product::Blood { amount } => "giveitem blood "@ + amount@ + " "@ + player,
        Product::Unmute => "inventory.giveto \""@ + player + "\" \"unmute\" "@,
    }
}

/// The reply once the server has answered the delivery with `status`.
pub open spec fn spec_delivery_reply(p: Product, player: Seq<char>, status: u16) -> Seq<char> {
    match p {
        Product::Blood { amount } => if status == 200 {
            player + " has been payed "@ + amount@ + " blood"@
        } else {
            "Failed to pay "@ + amount@ + " blood to "@ + player + "."@
        },
        Product::Unmute => if status == 200 {
            player + " has been unmuted"@
        } else {
            "Failed to unmute player "@ + player + "."@
        },
    }
}

/// The reply when no player was named to deliver to.
pub open spec fn spec_no_player_reply(p: Product) -> Seq<char> {
    match p {
        Product::Blood { .. } => "Failed to parse amount"@,
        Product::Unmute => "Failed to unmute player"@,
    }
}

/// Paying for blood buys the blood that is delivered: read back as a number,
/// the charge is 1000 millisatoshis (one satoshi) for each unit of blood the
/// buyer asked for, and the delivery command `giveitem blood <amount>
/// <player>` gives that same amount, as the buyer typed it.
pub proof fn lemma_charge_matches_delivery(p: Product, player: Seq<char>)
    requires
        p is Blood,
    ensures
        spec_charge(p) matches Ok(c) ==> {
            &&& spec_parse_i32(p->amount@) matches Some(n)
            &&& spec_parse_i32(c.0) == Some((n * 1000) as i32)
            &&& spec_delivery_command(p, player)
                == "giveitem blood "@ + p->amount@ + " "@ + player
        },
{
    if let Some(n) = spec_parse_i32(p->amount@) {
        if fits_i32(n * 1000) {
            lemma_decimal_round_trip((n * 1000) as i32);
        }
    }
}

/// The delivery command, for every product and player: `giveitem blood
/// <amount> <player>` for blood and `inventory.giveto "<player>" "unmute" `
/// for an unmute, with the player's name carried over unchanged; so two
/// names give the same command only when they are the same name.
pub proof fn lemma_delivery_command_law(p: Product, a: Seq<char>, b: Seq<char>)
    ensures
        p matches Product::Blood { amount } ==> spec_delivery_command(p, a)
            == "giveitem blood "@ + amount@ + " "@ + a,
        p is Unmute ==> spec_delivery_command(p, a) == "inventory.giveto \""@ + a + "\" \"unmute\" "@,
        spec_delivery_command(p, a) == spec_delivery_command(p, b) ==> a == b,
{
    if spec_delivery_command(p, a) == spec_delivery_command(p, b) {
        match p {
            Product::Blood { amount } => {
                let x = "giveitem blood "@ + amount@ + " "@;
                assert(x + a + Seq::<char>::empty() =~= spec_delivery_command(p, a));
                assert(x + b + Seq::<char>::empty() =~= spec_delivery_command(p, b));
                lemma_concat_cancel(x, a, b, Seq::<char>::empty());
            },
            Product::Unmute => {
                lemma_concat_cancel("inventory.giveto \""@, a, b, "\" \"unmute\" "@);
            },
        }
    }
}

/// The delivery reply, for every product, player and status: the success
/// text exactly when the status is 200, the failure text for every other
/// status, and the two always differ.
pub proof fn lemma_delivery_reply_law(p: Product, player: Seq<char>, status: u16)
    ensures
        p matches Product::Blood { amount } ==> spec_delivery_reply(p, player, status) == if status == 200 {
            player + " has been payed "@ + amount@ + " blood"@
        } else {
            "Failed to pay "@ + amount@ + " blood to "@ + player + "."@
        },
        p is Unmute ==> spec_delivery_reply(p, player, status) == if status == 200 {
            player + " has been unmuted"@
        } else {
            "Failed to unmute player "@ + player + "."@
        },
        status != 200 ==> spec_delivery_reply(p, player, status) != spec_delivery_reply(p, player, 200),
{
    reveal_strlit(" has been payed ");
    reveal_strlit(" blood");
    reveal_strlit("Failed to pay ");
    reveal_strlit(" blood to ");
    reveal_strlit(".");
    reveal_strlit(" has been unmuted");
    reveal_strlit("Failed to unmute player ");
    assert(" has been payed "@.len() == 16);
    assert(" blood"@.len() == 6);
    assert("Failed to pay "@.len() == 14);
    assert(" blood to "@.len() == 10);
    assert("."@.len() == 1);
    assert(" has been unmuted"@.len() == 17);
    assert("Failed to unmute player "@.len() == 24);
    if status != 200 {
        let fail = spec_delivery_reply(p, player, status);
        let ok = spec_delivery_reply(p, player, 200);
        match p {
            Product::Blood { amount } => {
                assert(fail.len() == 25 + amount@.len() + player.len());
                assert(ok.len() == 22 + amount@.len() + player.len());
            },
            Product::Unmute => {
                assert(fail.len() == 25 + player.len());
                assert(ok.len() == 17 + player.len());
            },
        }
    }
}

impl Product {
    /// The in-game command that delivers this product to `player`.
    pub fn delivery_command(&self, player: &str) -> (r: String)
        ensures
            r@ == spec_delivery_command(*self, player@),
            *self matches Product::Blood { amount } ==> r@ == "giveitem blood "@ + amount@ + " "@ + player@,
            *self is Unmute ==> r@ == "inventory.giveto \""@ + player@ + "\" \"unmute\" "@,
    {
        match self {
            Product::Blood { amount } => {
                let mut out = "giveitem blood ".to_string();
                out.append(amount.as_str());
                out.append(" ");
                out.append(player);
                out
            },
            Product::Unmute => {
                let mut out = "inventory.giveto \"".to_string();
                out.append(player);
                out.append("\" \"unmute\" ");
                out
            },
        }
    }

    /// The reply once the game server answered the delivery to `player`
    /// with HTTP `status`: only 200 reports success.
    pub fn delivery_reply(&self, player: &str, status: u16) -> (r: String)
        ensures
            r@ == spec_delivery_reply(*self, player@, status),
            *self matches Product::Blood { amount } ==> r@ == if status == 200 {
                player@ + " has been payed "@ + amount@ + " blood"@
            } else {
                "Failed to pay "@ + amount@ + " blood to "@ + player@ + "."@
            },
            *self is Unmute ==> r@ == if status == 200 {
                player@ + " has been unmuted"@
            } else {
                "Failed to unmute player "@ + player@ + "."@
            },
    {
        match self {
            Product::Blood { amount } => {
                if status == 200 {
                    let mut out = player.to_string();
                    out.append(" has been payed ");
                    out.append(amount.as_str());
                    out.append(" blood");
                    out
                } else {
                    let mut out = "Failed to pay ".to_string();
                    out.append(amount.as_str());
                    out.append(" blood to ");
                    out.append(player);
                    out.append(".");
                    out
                }
            },
            Product::Unmute => {
                if status == 200 {
                    let mut out = player.to_string();
                    out.append(" has been unmuted");
                    out
                } else {
                    let mut out = "Failed to unmute player ".to_string();
                    out.append(player);
                    out.append(".");
                    out
                }
            },
        }
    }

    /// The reply when no player was named to deliver to.
    pub fn no_player_reply(&self) -> (r: String)
        ensures
            r@ == spec_no_player_reply(*self),
            *self is Blood ==> r@ == "Failed to parse amount"@,
            *self is Unmute ==> r@ == "Failed to unmute player"@,
    {
        match self {
            Product::Blood { .. } => "Failed to parse amount".to_string(),
            Product::Unmute => "Failed to unmute player".to_string(),
        }
    }
}

} // verus!
