//! The bot's commands: who is addressed, the invoice message that asks for
//! payment, and what each answer of the payment service leads to.
use vstd::prelude::*;
use crate::decimal::{i32_to_string, spec_decimal, lemma_decimal_1000};
use crate::json::{request_text, spec_request_text};
use crate::product::{AmountError, Product, UNMUTE_PRICE};
use crate::qr::{QrEcc, qr_png, qr_png_bytes};
use crate::text::str_eq;

verus! {

/// Side, in pixels, of the QR code image.
pub const QR_IMAGE_SIZE: usize = 1024;

/// The name used for a buyer who gave none.
pub open spec fn spec_display_name(name: Option<Seq<char>>) -> Seq<char> {
    match name {
        Some(n) => n,
        None => "User"@,
    }
}

/// The name to address the buyer by: the one given, else `User`.
pub fn display_name<'a>(name: Option<&'a str>) -> (r: &'a str)
    ensures
        r@ == spec_display_name(match name { Some(n) => Some(n@), None => None }),
        name matches Some(n) ==> r@ == n@,
        name is None ==> r@ == "User"@,
{
    match name {
        Some(n) => n,
        None => "User",
    }
}

/// The `Debug` text of a string: quoted and escaped.
pub uninterp spec fn debug_str(s: Seq<char>) -> Seq<char>;

/// Every character of `s` is printable ASCII (U+0020 to U+007E) other than
/// a quote or a backslash: `Debug` escapes none of them.
pub open spec fn debug_plain(s: Seq<char>) -> bool {
    forall|i: int|
        0 <= i < s.len() ==> #[trigger] s[i] != '"' && s[i] != '\\' && 0x20 <= (s[i] as u32)
            && (s[i] as u32) <= 0x7e
}

/// `format!("{:?}", s)` on a `str`. Its result is named `debug_str`. The
/// standard library writes a `str` between quotes with each character as
/// `char::escape_debug` gives it, which leaves printable ASCII other than a
/// quote and a backslash as it is; so such a string is written between quotes
/// unchanged. How other characters are escaped (it rests on Unicode tables)
/// is not stated.
#[verifier::external_body]
fn debug_quoted(s: &str) -> (r: String)
    ensures
        r@ == debug_str(s@),
        debug_plain(s@) ==> r@ == seq!['"'] + s@ + seq!['"'],
{
    format!("{:?}", s)
}

/// The price the invoice message names.
pub open spec fn spec_price_text(p: Product) -> Seq<char> {
    match p {
        Product::Blood { amount } => amount@,
        Product::Unmute => spec_decimal(1000),
    }
}

/// The description of the invoice message for `p`, addressed to `name`.
pub open spec fn spec_invoice_description(p: Product, name: Seq<char>) -> Seq<char> {
    invoice_description_with(p, name, debug_str(name))
}

/// The description of the invoice message for `p`, addressed to `name`,
/// whose `Debug` text is `quoted`.
pub open spec fn invoice_description_with(p: Product, name: Seq<char>, quoted: Seq<char>) -> Seq<char> {
    match p {
        Product::Blood { amount } => quoted + ", please pay "@ + amount@
            + " sats to the following invoice to give "@ + amount@ + " blood."@,
        Product::Unmute => quoted + ", please pay "@ + spec_decimal(1000)
            + " sats to the following invoice to unmute "@ + name + "."@,
    }
}

/// The invoice description, for every product and buyer: for blood it names
/// the whole amount the buyer typed, both as the price in sats and as the
/// blood given; for an unmute it names the price 1000 and the buyer's name.
/// The price field shows the same text as the price named.
pub proof fn lemma_invoice_description_law(p: Product, name: Seq<char>)
    ensures
        p matches Product::Blood { amount } ==> {
            &&& spec_invoice_description(p, name) == debug_str(name) + ", please pay "@ + amount@
                + " sats to the following invoice to give "@ + amount@ + " blood."@
            &&& spec_price_text(p) == amount@
        },
        p is Unmute ==> {
            &&& spec_invoice_description(p, name) == debug_str(name) + ", please pay "@ + "1000"@
                + " sats to the following invoice to unmute "@ + name + "."@
            &&& spec_price_text(p) == "1000"@
        },
{
    lemma_decimal_1000();
}

/// A field of an embedded message.
#[derive(Debug)]
pub struct EmbedField {
    pub name: String,
    pub value: String,
    pub inline: bool,
}

pub open spec fn field_is(f: EmbedField, name: Seq<char>, value: Seq<char>) -> bool {
    f.name@ == name && f.value@ == value && !f.inline
}

/// The message that asks the buyer to pay an invoice.
#[derive(Debug)]
pub struct InvoiceMessage {
    pub title: String,
    pub description: String,
    pub fields: Vec<EmbedField>,
    /// File name of the attached QR code.
    pub attachment_name: String,
    /// PNG of the QR code that encodes the invoice.
    pub qr_png: Vec<u8>,
}

/// Why no invoice message was made.
/// The message asking `name` to pay the payment request `request` for
/// `product`: its text, three fields (price, expiry, the request) and a QR
/// code of the request. It fails exactly where no QR code can be drawn for
/// the request, with the QR library's error.
pub fn invoice_message(product: &Product, name: &str, request: &str) -> (r: Result<InvoiceMessage, qrcode_generator::QRCodeError>)
    ensures
        r is Ok <==> qr_png(spec_request_text(request@), QrEcc::Low, QR_IMAGE_SIZE) is Some,
        r matches Ok(m) ==> {
            &&& m.title@ == "Blood Invoice"@
            &&& m.description@ == spec_invoice_description(*product, name@)
            &&& debug_plain(name@) ==> m.description@
                == invoice_description_with(*product, name@, seq!['"'] + name@ + seq!['"'])
            &&& m.fields@.len() == 3
            &&& field_is(m.fields@[0], "Amount"@, spec_price_text(*product))
            &&& field_is(m.fields@[1], "Expires in"@, "40 seconds"@)
            &&& field_is(m.fields@[2], "Invoice: "@, spec_request_text(request@))
            &&& m.attachment_name@ == "qr.png"@
            &&& qr_png(spec_request_text(request@), QrEcc::Low, QR_IMAGE_SIZE) == Some(m.qr_png@)
            &&& *product matches Product::Blood { amount } ==> {
                &&& m.description@ == debug_str(name@) + ", please pay "@ + amount@
                    + " sats to the following invoice to give "@ + amount@ + " blood."@
                &&& m.fields@[0].value@ == amount@
            }
            &&& *product is Unmute ==> {
                &&& m.description@ == debug_str(name@) + ", please pay "@ + "1000"@
                    + " sats to the following invoice to unmute "@ + name@ + "."@
                &&& m.fields@[0].value@ == "1000"@
            }
        },
{
    proof {
        lemma_decimal_1000();
    }
    let data = request_text(request);
    let png = match qr_png_bytes(data.as_str(), QrEcc::Low, QR_IMAGE_SIZE) {
        Ok(p) => p,
        Err(e) => return Err(e),
    };
    let price = match product {
        Product::Blood { amount } => amount.clone(),
        Product::Unmute => i32_to_string(UNMUTE_PRICE),
    };
    let mut description = debug_quoted(name);
    description.append(", please pay ");
    description.append(price.as_str());
    match product {
        Product::Blood { amount } => {
            description.append(" sats to the following invoice to give ");
            description.append(amount.as_str());
            description.append(" blood.");
        },
        Product::Unmute => {
            description.append(" sats to the following invoice to unmute ");
            description.append(name);
            description.append(".");
        },
    }
    let mut fields: Vec<EmbedField> = Vec::new();
    fields.push(EmbedField { name: "Amount".to_string(), value: price, inline: false });
    fields.push(EmbedField { name: "Expires in".to_string(), value: "40 seconds".to_string(), inline: false });
    fields.push(EmbedField { name: "Invoice: ".to_string(), value: data, inline: false });
    Ok(InvoiceMessage {
        title: "Blood Invoice".to_string(),
        description,
        fields,
        attachment_name: "qr.png".to_string(),
        qr_png: png,
    })
}

/// Short notices the bot replies with.
#[derive(Debug)]
pub enum Notice {
    /// The amount typed is not a number.
    InvalidAmount,
    /// The payment service returned a charge without an invoice.
    MissingInvoice,
}

pub open spec fn spec_notice_text(n: Notice) -> Seq<char> {
    match n {
        Notice::InvalidAmount => "Please enter a valid number for the amount."@,
        Notice::MissingInvoice => "Failed to get invoice data."@,
    }
}

impl Notice {
    pub fn text(&self) -> (r: String)
        ensures
            r@ == spec_notice_text(*self),
            *self is InvalidAmount ==> r@ == "Please enter a valid number for the amount."@,
            *self is MissingInvoice ==> r@ == "Failed to get invoice data."@,
    {
        match self {
            Notice::InvalidAmount => "Please enter a valid number for the amount.".to_string(),
            Notice::MissingInvoice => "Failed to get invoice data.".to_string(),
        }
    }
}

/// The reply to an amount that cannot be charged: the invalid-amount notice
/// for one that is no number, and none for one whose millisatoshis overflow
/// (the command stops there, as multiplying it out overflows).
pub fn amount_error_reply(e: AmountError) -> (r: Option<String>)
    ensures
        e is NotANumber <==> r is Some,
        r matches Some(m) ==> m@ == spec_notice_text(Notice::InvalidAmount),
        r matches Some(m) ==> m@ == "Please enter a valid number for the amount."@,
{
    match e {
        AmountError::NotANumber => Some(Notice::InvalidAmount.text()),
        AmountError::TooLarge => None,
    }
}

/// What the payment service answered when asked to create a charge.
#[derive(Debug)]
pub enum ChargeAnswer {
    /// The request failed; the error's text.
    Failed(String),
    /// The answer held no charge data.
    NoData,
    /// The charge came back without an invoice.
    NoInvoice,
    /// The charge came back with an invoice.
    Invoice,
}

/// What to do after the answer to a charge request.
#[derive(Debug)]
pub enum ChargeStep {
    /// Send this reply, then stop.
    Reply(String),
    /// Stop without a reply.
    Stop,
    /// Show the invoice message, then wait for the payment.
    ShowInvoice,
}

/// The step after the payment service answered a charge request: a failure
/// is reported with its text, a charge without an invoice gets the notice,
/// an answer without data ends the command silently, and an invoice is
/// shown.
pub fn after_charge(answer: &ChargeAnswer) -> (r: ChargeStep)
    ensures
        answer matches ChargeAnswer::Failed(e) ==> (r matches ChargeStep::Reply(m)
            && m@ == "Failed to create charge: "@ + e@),
        answer is NoData ==> r is Stop,
        answer is NoInvoice ==> (r matches ChargeStep::Reply(m)
            && m@ == spec_notice_text(Notice::MissingInvoice)
            && m@ == "Failed to get invoice data."@),
        answer is Invoice <==> r is ShowInvoice,
{
    match answer {
        ChargeAnswer::Failed(e) => {
            let mut m = "Failed to create charge: ".to_string();
            m.append(e.as_str());
            ChargeStep::Reply(m)
        },
        ChargeAnswer::NoData => ChargeStep::Stop,
        ChargeAnswer::NoInvoice => ChargeStep::Reply(Notice::MissingInvoice.text()),
        ChargeAnswer::Invoice => ChargeStep::ShowInvoice,
    }
}

/// What one look at a charge found.
#[derive(Debug)]
pub enum PollEvent {
    /// The payment service could not be asked.
    FetchFailed,
    /// The service answered without charge data.
    NoData,
    /// The charge has this status.
    Status(String),
}

/// What to do after one look at a charge.
#[derive(Debug)]
pub enum PollAction {
    /// The payment is complete: deliver the product, then stop.
    Deliver,
    /// Send this reply, then stop.
    Reply(String),
    /// Stop without a reply.
    Stop,
    /// Wait a second and look again.
    Wait,
}

/// The look found the payment completed.
pub open spec fn is_completed(e: PollEvent) -> bool {
    e matches PollEvent::Status(s) && s@ == "completed"@
}

/// The look ends the wait: the service could not be asked, or the payment is
/// completed, expired or failed.
pub open spec fn ends_wait(e: PollEvent) -> bool {
    ||| e is FetchFailed
    ||| e matches PollEvent::Status(s) && (s@ == "completed"@ || s@ == "expired"@ || s@ == "error"@)
}

/// How many looks the polling loop takes when the service answers
/// `events[0]`, `events[1]`, ...: up to and including the first answer that
/// ends the wait, or all of them where none does.
pub open spec fn looks_taken(events: Seq<PollEvent>) -> nat
    decreases events.len(),
{
    if events.len() == 0 {
        0
    } else if ends_wait(events[0]) {
        1
    } else {
        1 + looks_taken(events.drop_first())
    }
}

/// How many of the first `n` answers report a completed payment.
pub open spec fn completions(events: Seq<PollEvent>, n: nat) -> nat
    decreases n,
{
    if n == 0 {
        0
    } else {
        completions(events, (n - 1) as nat) + if is_completed(events[n - 1]) { 1nat } else { 0nat }
    }
}

proof fn lemma_completions_shift(events: Seq<PollEvent>, n: nat)
    requires
        events.len() > 0,
        n + 1 <= events.len(),
    ensures
        completions(events, n + 1) == completions(events.drop_first(), n)
            + if is_completed(events[0]) { 1nat } else { 0nat },
    decreases n,
{
    let rest = events.drop_first();
    if n > 0 {
        lemma_completions_shift(events, (n - 1) as nat);
        assert(rest[n - 1] == events[n as int]);
        assert(completions(events, n + 1) == completions(events, n)
            + if is_completed(events[n as int]) { 1nat } else { 0nat });
        assert(completions(rest, n) == completions(rest, (n - 1) as nat)
            + if is_completed(rest[n - 1]) { 1nat } else { 0nat });
    } else {
        assert(completions(events, 0) == 0);
        assert(completions(rest, 0) == 0);
        assert(completions(events, 1) == completions(events, 0)
            + if is_completed(events[0]) { 1nat } else { 0nat });
    }
}

/// Polling delivers at most once and stops at the first final answer: every
/// look but the last waits, and of the looks taken only the last can find the
/// payment completed; so the product is delivered once, right after the
/// first answer that ends the wait, exactly when that answer is "completed".
pub proof fn lemma_poll_delivers_at_most_once(events: Seq<PollEvent>)
    ensures
        looks_taken(events) <= events.len(),
        forall|i: int| 0 <= i < looks_taken(events) - 1 ==> !ends_wait(#[trigger] events[i]),
        looks_taken(events) < events.len() ==> ends_wait(events[looks_taken(events) - 1]),
        completions(events, looks_taken(events)) <= 1,
        completions(events, looks_taken(events)) == 1 <==> (looks_taken(events) > 0
            && is_completed(events[looks_taken(events) - 1])),
    decreases events.len(),
{
    if events.len() > 0 {
        let n = looks_taken(events);
        if ends_wait(events[0]) {
            assert(n == 1);
            assert(completions(events, 0) == 0);
        } else {
            let rest = events.drop_first();
            lemma_poll_delivers_at_most_once(rest);
            let m = looks_taken(rest);
            assert(n == m + 1);
            assert(!is_completed(events[0]));
            lemma_completions_shift(events, m);
            assert forall|i: int| 0 <= i < n - 1 implies !ends_wait(#[trigger] events[i]) by {
                if i > 0 {
                    assert(events[i] == rest[i - 1]);
                }
            }
            if m > 0 {
                assert(events[n - 1] == rest[m - 1]);
            }
        }
    }
}

/// The step after looking at a charge: a completed payment is delivered,
/// an expired or failed one is reported, a failed look ends the wait, and
/// anything else waits for the next look.
pub fn next_poll_action(event: &PollEvent) -> (r: PollAction)
    ensures
        r is Deliver <==> is_completed(*event),
        r is Wait <==> !ends_wait(*event),
        event is FetchFailed <==> r is Stop,
        event is NoData ==> r is Wait,
        event matches PollEvent::Status(s) ==> {
            &&& s@ == "expired"@ ==> (r matches PollAction::Reply(m) && m@ == "payment expired"@)
            &&& s@ == "error"@ ==> (r matches PollAction::Reply(m) && m@ == "payment error"@)
            &&& (s@ != "completed"@ && s@ != "expired"@ && s@ != "error"@) ==> r is Wait
        },
{
    proof {
        reveal_strlit("completed");
        reveal_strlit("expired");
        reveal_strlit("error");
        assert("completed"@.len() == 9);
        assert("expired"@.len() == 7);
        assert("error"@.len() == 5);
    }
    match event {
        PollEvent::FetchFailed => PollAction::Stop,
        PollEvent::NoData => PollAction::Wait,
        PollEvent::Status(s) => {
            if str_eq(s.as_str(), "completed") {
                PollAction::Deliver
            } else if str_eq(s.as_str(), "expired") {
                PollAction::Reply("payment expired".to_string())
            } else if str_eq(s.as_str(), "error") {
                PollAction::Reply("payment error".to_string())
            } else {
                PollAction::Wait
            }
        },
    }
}

} // verus!
