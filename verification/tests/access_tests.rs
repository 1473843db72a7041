use bfinancial_rs::response::{Card, Pix, Response};
use bfinancial_rs::status::Status;

fn sample_pix() -> Pix {
    Pix {
        status: Status::Pending,
        payment_id: "pix-77".to_string(),
        qr_code: "aGVsbG8=".to_string(),
        literal: "00020126pix".to_string(),
    }
}

fn sample_card() -> Card {
    Card {
        status: Status::Approved,
        payment_id: "card-12".to_string(),
        total_amount: 172_932,
        increase: 500,
    }
}

#[test]
fn pix_round_trips_through_access() {
    let payload = sample_pix();
    let response = Response::Pix(payload.clone());
    assert_eq!(response.access::<Pix>(), Some(&payload));
    assert_eq!(response.access::<Card>(), None);
    assert_eq!(response.access::<String>(), None);
}

#[test]
fn card_round_trips_through_access() {
    let payload = sample_card();
    let response = Response::Card(payload.clone());
    assert_eq!(response.access::<Card>(), Some(&payload));
    assert_eq!(response.access::<Pix>(), None);
    assert_eq!(response.access::<String>(), None);
}

#[test]
fn checkout_round_trips_through_access() {
    let url = "https://pay.example/checkout/9".to_string();
    let response = Response::Checkout(url.clone());
    assert_eq!(response.access::<String>(), Some(&url));
    assert_eq!(response.access::<Pix>(), None);
    assert_eq!(response.access::<Card>(), None);
}
