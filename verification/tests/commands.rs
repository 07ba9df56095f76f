use zbd_discord_bot::commands::{
    after_charge, amount_error_reply, display_name, invoice_message, next_poll_action, ChargeAnswer,
    ChargeStep, Notice, PollAction, PollEvent,
};
use zbd_discord_bot::product::AmountError;
use zbd_discord_bot::json::request_text;
use zbd_discord_bot::product::Product;

const PNG_SIGNATURE: [u8; 8] = [0x89, b'P', b'N', b'G', 0x0D, 0x0A, 0x1A, 0x0A];

#[test]
fn display_name_defaults_to_user() {
    assert_eq!(display_name(Some("Bob")), "Bob");
    assert_eq!(display_name(None), "User");
}

#[test]
fn request_text_of_a_plain_invoice_is_the_invoice() {
    assert_eq!(request_text("lnbc10u1pjxyz"), "lnbc10u1pjxyz");
    assert_eq!(request_text(""), "");
}

#[test]
fn request_text_keeps_inner_escapes() {
    assert_eq!(request_text("a\"b"), "a\\\"b");
    assert_eq!(request_text("x\ny"), "x\\ny");
}

#[test]
fn blood_invoice_message() {
    let p = Product::Blood { amount: "5".to_string() };
    let m = invoice_message(&p, "Alice", "lnbc50n1test").unwrap();
    assert_eq!(m.title, "Blood Invoice");
    assert_eq!(m.description, "\"Alice\", please pay 5 sats to the following invoice to give 5 blood.");
    assert_eq!(m.fields.len(), 3);
    assert_eq!(m.fields[0].name, "Amount");
    assert_eq!(m.fields[0].value, "5");
    assert!(!m.fields[0].inline);
    assert_eq!(m.fields[1].name, "Expires in");
    assert_eq!(m.fields[1].value, "40 seconds");
    assert_eq!(m.fields[2].name, "Invoice: ");
    assert_eq!(m.fields[2].value, "lnbc50n1test");
    assert_eq!(m.attachment_name, "qr.png");
    assert_eq!(&m.qr_png[..8], &PNG_SIGNATURE);
    let expected = qrcode_generator::to_png_to_vec("lnbc50n1test", qrcode_generator::QrCodeEcc::Low, 1024).unwrap();
    assert_eq!(m.qr_png, expected);
}

#[test]
fn unmute_invoice_message() {
    let m = invoice_message(&Product::Unmute, "Bob", "lnbc1").unwrap();
    assert_eq!(m.description, "\"Bob\", please pay 1000 sats to the following invoice to unmute Bob.");
    assert_eq!(m.fields[0].value, "1000");
    assert_eq!(m.fields[2].value, "lnbc1");
}

#[test]
fn invoice_message_quotes_names_as_debug_does() {
    let p = Product::Blood { amount: "1".to_string() };
    let m = invoice_message(&p, "A\"B", "lnbc1").unwrap();
    assert_eq!(m.description, format!("{:?}, please pay 1 sats to the following invoice to give 1 blood.", "A\"B"));
}

#[test]
fn notices() {
    assert_eq!(Notice::InvalidAmount.text(), "Please enter a valid number for the amount.");
    assert_eq!(Notice::MissingInvoice.text(), "Failed to get invoice data.");
}

#[test]
fn poll_completed_delivers() {
    assert!(matches!(next_poll_action(&PollEvent::Status("completed".to_string())), PollAction::Deliver));
}

#[test]
fn poll_expired_and_error_reply() {
    match next_poll_action(&PollEvent::Status("expired".to_string())) {
        PollAction::Reply(m) => assert_eq!(m, "payment expired"),
        _ => panic!(),
    }
    match next_poll_action(&PollEvent::Status("error".to_string())) {
        PollAction::Reply(m) => assert_eq!(m, "payment error"),
        _ => panic!(),
    }
}

#[test]
fn poll_other_statuses_wait() {
    for s in ["pending", "Completed", "", "processing"] {
        assert!(matches!(next_poll_action(&PollEvent::Status(s.to_string())), PollAction::Wait));
    }
    assert!(matches!(next_poll_action(&PollEvent::NoData), PollAction::Wait));
}

#[test]
fn poll_fetch_failure_stops() {
    assert!(matches!(next_poll_action(&PollEvent::FetchFailed), PollAction::Stop));
}

#[test]
fn invoice_message_for_a_buyer_without_name() {
    let p = Product::Blood { amount: "5".to_string() };
    let m = invoice_message(&p, display_name(None), "lnbc1").unwrap();
    assert_eq!(m.description, "\"User\", please pay 5 sats to the following invoice to give 5 blood.");
}

#[test]
fn invoice_message_fails_when_no_qr_code_fits() {
    let long = "x".repeat(8000);
    assert!(qrcode_generator::to_png_to_vec(long.as_str(), qrcode_generator::QrCodeEcc::Low, 1024).is_err());
    assert!(invoice_message(&Product::Unmute, "Bob", &long).is_err());
}

#[test]
fn amount_error_replies() {
    assert_eq!(amount_error_reply(AmountError::NotANumber).unwrap(), "Please enter a valid number for the amount.");
    assert!(amount_error_reply(AmountError::TooLarge).is_none());
}

#[test]
fn charge_answers() {
    match after_charge(&ChargeAnswer::Failed("boom".to_string())) {
        ChargeStep::Reply(m) => assert_eq!(m, "Failed to create charge: boom"),
        _ => panic!(),
    }
    match after_charge(&ChargeAnswer::NoInvoice) {
        ChargeStep::Reply(m) => assert_eq!(m, "Failed to get invoice data."),
        _ => panic!(),
    }
    assert!(matches!(after_charge(&ChargeAnswer::NoData), ChargeStep::Stop));
    assert!(matches!(after_charge(&ChargeAnswer::Invoice), ChargeStep::ShowInvoice));
}

fn run_polling(answers: Vec<PollEvent>) -> (usize, usize) {
    let mut looks = 0;
    let mut deliveries = 0;
    for event in answers.iter() {
        looks += 1;
        match next_poll_action(event) {
            PollAction::Deliver => {
                deliveries += 1;
                break;
            }
            PollAction::Wait => {}
            _ => break,
        }
    }
    (looks, deliveries)
}

#[test]
fn polling_delivers_at_most_once_and_stops_at_first_final_answer() {
    let status = |s: &str| PollEvent::Status(s.to_string());
    assert_eq!(
        run_polling(vec![status("pending"), PollEvent::NoData, status("completed"), status("completed")]),
        (3, 1)
    );
    assert_eq!(run_polling(vec![status("pending"), status("expired"), status("completed")]), (2, 0));
    assert_eq!(run_polling(vec![PollEvent::FetchFailed, status("completed")]), (1, 0));
    assert_eq!(run_polling(vec![status("error"), status("completed")]), (1, 0));
    assert_eq!(run_polling(vec![status("pending"), status("pending")]), (2, 0));
}
