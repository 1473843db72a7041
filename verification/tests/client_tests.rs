use bfinancial_rs::payment::{CardCreate, Checkout, PaymentCreate, PaymentReceived, PixCreate};
use bfinancial_rs::product::{
    Affiliation, Authorization, CatalogedProduct, CustomProduct, Product, ProductType,
};
use bfinancial_rs::{Client, Payments};

#[test]
fn login_derives_the_bearer_header() {
    let client = Client::login("admin");
    assert_eq!(client.auth, "admin".to_string());
    assert_eq!(client.payments.auth, "Bearer admin".to_string());
    assert_eq!(client.payments.api, String::new());
}

#[test]
fn transport_handle_keeps_the_header_it_was_given() {
    let payments = Payments::call("Bearer k".to_string());
    assert_eq!(payments.auth, "Bearer k".to_string());
    assert_eq!(payments.api, String::new());
}

#[test]
fn cert_keeps_the_certificate() {
    let authorization = Authorization::cert("certificate-17");
    assert_eq!(
        authorization,
        Authorization {
            certificate: "certificate-17".to_string(),
        }
    );
}

#[test]
fn checkout_request_holds_its_products() {
    let request = PaymentCreate::Checkout(Checkout {
        amount: 172_932,
        title: "Test checkout".to_string(),
        thumbnail: "https://img.example/a.jpg".to_string(),
        description: "Two items".to_string(),
        single_use: true,
        products: vec![
            Product::Custom(CustomProduct {
                price: 20_000,
                thumbnail: "https://img.example/b.jpg".to_string(),
                name: "Product A".to_string(),
                description: "First".to_string(),
            }),
            Product::Cataloged(CatalogedProduct {
                product_id: "catalog-3".to_string(),
                affiliation: Affiliation::Yes(ProductType::Private(Authorization::cert("k"))),
            }),
        ],
    });
    match request {
        PaymentCreate::Checkout(checkout) => {
            assert_eq!(checkout.products.len(), 2);
            assert_eq!(checkout.amount, 172_932);
        }
        _ => panic!("wrong variant"),
    }
}

#[test]
fn request_shapes_hold_their_fields() {
    let pix = PixCreate {
        amount: 1_000,
        payer_email: "payer@example.com".to_string(),
        payer_cpf: "00000000000".to_string(),
    };
    assert_eq!(pix.amount, 1_000);
    let card = CardCreate {
        amount: 2_500,
        number: "4000000000000000".to_string(),
        cvv: "123".to_string(),
        payer_email: "payer@example.com".to_string(),
        payer_name: "Payer".to_string(),
        payer_cpf: "00000000000".to_string(),
        expiration_year: 2030,
        expiration_month: 12,
    };
    assert_eq!(card.expiration_month, 12);
    let received = PaymentReceived { payment_id: 17 };
    assert_eq!(received.payment_id, 17);
}
