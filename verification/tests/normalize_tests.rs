use hemnet::models::{Dec, HousingForm, Label, SaleCard};
use hemnet::normalize::{listings_to_csv_rows, parse_area, parse_money, parse_percent_change};

fn dec(negative: bool, mantissa: u64, scale: usize) -> Dec {
    Dec { negative, mantissa, scale }
}

#[test]
fn money_with_separators_and_currency() {
    assert_eq!(parse_money("1\u{a0}250\u{a0}000 kr"), Some(1250000));
}

#[test]
fn money_missing_sentinel_is_absent() {
    assert_eq!(parse_money("Pris saknas"), None);
}

#[test]
fn money_monthly_fee_suffix() {
    assert_eq!(parse_money("12 500 kr/m\u{e5}n"), Some(12500));
}

#[test]
fn money_already_normalized_is_kept() {
    assert_eq!(parse_money("1250000"), Some(1250000));
}

#[test]
fn money_empty_and_garbage_are_absent() {
    assert_eq!(parse_money(""), None);
    assert_eq!(parse_money("ej angivet"), None);
}

#[test]
fn money_never_defaults_to_zero() {
    assert_ne!(parse_money("oklart"), Some(0));
}

#[test]
fn money_huge_value_is_absent() {
    assert_eq!(parse_money("99999999999999999999999 kr"), None);
}

#[test]
fn area_with_unit_and_comma() {
    assert_eq!(parse_area("72,5 m\u{b2}"), Some(dec(false, 725, 1)));
}

#[test]
fn area_already_normalized_is_kept() {
    assert_eq!(parse_area("72.5"), Some(dec(false, 725, 1)));
}

#[test]
fn area_whole_number() {
    assert_eq!(parse_area("60 m\u{b2}"), Some(dec(false, 60, 0)));
}

#[test]
fn area_empty_is_absent() {
    assert_eq!(parse_area(""), None);
}

#[test]
fn percent_no_change_sentinel_is_exact_zero() {
    assert_eq!(parse_percent_change("\u{b1}0 %"), dec(false, 0, 0));
}

#[test]
fn percent_positive_change() {
    assert_eq!(parse_percent_change("+4,2 %"), dec(false, 42, 1));
}

#[test]
fn percent_garbage_falls_back_to_zero() {
    assert_eq!(parse_percent_change("garbage"), dec(false, 0, 0));
}

#[test]
fn percent_negative_change() {
    assert_eq!(parse_percent_change("-3,5 %"), dec(true, 35, 1));
}

fn sample_sale() -> SaleCard {
    SaleCard {
        id: "SaleCard:abc".to_string(),
        listing_id: "1234567".to_string(),
        slug: "fin-lagenhet-i-centrum".to_string(),
        street_address: "Storgatan 1".to_string(),
        sold_at: "2024-11-02".to_string(),
        sold_at_label: "S\u{e5}ld 2 november 2024".to_string(),
        asking_price: "1\u{a0}250\u{a0}000 kr".to_string(),
        final_price: "1\u{a0}400\u{a0}000 kr".to_string(),
        living_area: "72,5 m\u{b2}".to_string(),
        location_description: "Stenstaden, Sundsvalls kommun".to_string(),
        fee: Some("3\u{a0}200 kr/m\u{e5}n".to_string()),
        square_meter_price: "19\u{a0}310 kr/m\u{b2}".to_string(),
        housing_form: HousingForm { symbol: "bostadsratt".to_string() },
        rooms: Some("3 rum".to_string()),
        price_change: Some("+12,0 %".to_string()),
        broker_agency_name: "M\u{e4}klarhuset".to_string(),
        broker_name: Some("Kim Andersson".to_string()),
        labels: vec![
            Label { text: Some("Ny".to_string()), category: "NEW".to_string() },
            Label { text: None, category: "HIDDEN".to_string() },
            Label { text: Some("Budgivning".to_string()), category: "BIDDING".to_string() },
        ],
    }
}

#[test]
fn row_normalizes_every_field() {
    let row = sample_sale().to_csv_row(Some("Stenstaden"));
    assert_eq!(row.id, "SaleCard:abc");
    assert_eq!(row.listing_id, "1234567");
    assert_eq!(row.street_address, "Storgatan 1");
    assert_eq!(row.sold_at, "2024-11-02");
    assert_eq!(row.asking_price, Some(1250000));
    assert_eq!(row.final_price, Some(1400000));
    assert_eq!(row.living_area, Some(dec(false, 725, 1)));
    assert_eq!(row.location, Some("Stenstaden".to_string()));
    assert_eq!(row.fee, Some(3200));
    assert_eq!(row.square_meter_price, Some(19310));
    assert_eq!(row.rooms, "3 rum");
    assert_eq!(row.price_change, Some(dec(false, 120, 1)));
    assert_eq!(row.broker_agency_name, "M\u{e4}klarhuset");
    assert_eq!(row.broker_name, Some("Kim Andersson".to_string()));
    assert_eq!(row.labels, "NEW:Ny;BIDDING:Budgivning");
    assert_eq!(row.url, "https://www.hemnet.se/salda/fin-lagenhet-i-centrum");
}

#[test]
fn row_without_optional_fields() {
    let mut sale = sample_sale();
    sale.fee = None;
    sale.rooms = None;
    sale.price_change = None;
    sale.broker_name = None;
    sale.labels = vec![];
    let row = sale.to_csv_row(None);
    assert_eq!(row.fee, None);
    assert_eq!(row.rooms, "");
    assert_eq!(row.price_change, None);
    assert_eq!(row.broker_name, None);
    assert_eq!(row.location, None);
    assert_eq!(row.labels, "");
}

#[test]
fn rows_keep_order_and_location() {
    let mut second = sample_sale();
    second.listing_id = "7654321".to_string();
    let rows = listings_to_csv_rows(vec![sample_sale(), second], "Haga");
    assert_eq!(rows.len(), 2);
    assert_eq!(rows[0].listing_id, "1234567");
    assert_eq!(rows[1].listing_id, "7654321");
    assert_eq!(rows[0].location, Some("Haga".to_string()));
    assert_eq!(rows[1].location, Some("Haga".to_string()));
}
