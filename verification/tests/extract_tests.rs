use hemnet::extract::{decode_label, decode_sale_card, extract_listing_cards, extract_sale_cards};
use hemnet::models::FetchError;

fn sale_entry(listing_id: &str) -> String {
    let mut s = String::new();
    s.push_str(&format!("{{\"id\":\"SaleCard:{lid}\",\"listingId\":\"{lid}\",", lid = listing_id));
    s.push_str(&format!(
        "\"slug\":\"lagenhet-{lid}\",\"streetAddress\":\"Storgatan {lid}\",",
        lid = listing_id
    ));
    s.push_str("\"soldAt\":\"2024-11-02\",\"soldAtLabel\":\"S\u{e5}ld\",");
    s.push_str("\"askingPrice\":\"1\u{a0}000\u{a0}000 kr\",\"finalPrice\":\"1\u{a0}100\u{a0}000 kr\",");
    s.push_str("\"livingArea\":\"55 m\u{b2}\",\"locationDescription\":\"Haga\",");
    s.push_str("\"fee\":\"2\u{a0}900 kr/m\u{e5}n\",\"squareMeterPrice\":\"20\u{a0}000 kr/m\u{b2}\",");
    s.push_str("\"housingForm\":{\"symbol\":\"bostadsratt\"},\"rooms\":\"2 rum\",");
    s.push_str("\"priceChange\":\"+10,0 %\",\"brokerAgencyName\":\"Byr\u{e5}n\",");
    s.push_str("\"brokerName\":null,");
    s.push_str("\"labels\":[{\"text\":\"Ny\",\"category\":\"NEW\"}]}");
    s
}

fn page_doc(entries: &[(String, String)]) -> String {
    let mut body = String::new();
    for (i, (key, value)) in entries.iter().enumerate() {
        if i > 0 {
            body.push(',');
        }
        body.push_str(&format!("\"{}\":{}", key, value));
    }
    format!("{{\"pageProps\":{{\"__APOLLO_STATE__\":{{{}}}}}}}", body)
}

#[test]
fn sale_page_yields_decoded_records() {
    let doc = page_doc(&[
        ("ROOT_QUERY".to_string(), "{}".to_string()),
        ("SaleCard:11".to_string(), sale_entry("11")),
        ("SaleCard:22".to_string(), sale_entry("22")),
    ]);
    let cards = extract_sale_cards(&doc).unwrap();
    assert_eq!(cards.len(), 2);
    assert_eq!(cards[0].listing_id, "11");
    assert_eq!(cards[1].listing_id, "22");
    assert_eq!(cards[0].street_address, "Storgatan 11");
    assert_eq!(cards[0].fee, Some("2\u{a0}900 kr/m\u{e5}n".to_string()));
    assert_eq!(cards[0].broker_name, None);
    assert_eq!(cards[0].labels.len(), 1);
    assert_eq!(cards[0].labels[0].category, "NEW");
    assert_eq!(cards[0].housing_form.symbol, "bostadsratt");
}

#[test]
fn no_matching_prefix_yields_empty_without_error() {
    let doc = page_doc(&[
        ("ROOT_QUERY".to_string(), "{}".to_string()),
        ("ListingCard:5".to_string(), "{\"stray\":true}".to_string()),
    ]);
    let cards = extract_sale_cards(&doc).unwrap();
    assert_eq!(cards.len(), 0);
}

#[test]
fn undecodable_entry_is_skipped_not_fatal() {
    let doc = page_doc(&[
        ("SaleCard:bad".to_string(), "{\"id\":\"SaleCard:bad\"}".to_string()),
        ("SaleCard:33".to_string(), sale_entry("33")),
    ]);
    let cards = extract_sale_cards(&doc).unwrap();
    assert_eq!(cards.len(), 1);
    assert_eq!(cards[0].listing_id, "33");
}

#[test]
fn non_json_text_is_a_malformed_document() {
    let err = extract_sale_cards("not json at all").unwrap_err();
    assert!(matches!(err, FetchError::MalformedDocument));
}

#[test]
fn document_without_snapshot_is_missing_snapshot() {
    let err = extract_sale_cards("{\"pageProps\":{}}").unwrap_err();
    assert!(matches!(err, FetchError::MissingSnapshot));
    let err = extract_sale_cards("{}").unwrap_err();
    assert!(matches!(err, FetchError::MissingSnapshot));
}

#[test]
fn listing_page_decodes_its_own_prefix() {
    let mut listing = String::new();
    listing.push_str("{\"id\":\"9\",\"activePackage\":null,\"askingPrice\":\"2\u{a0}000\u{a0}000 kr\",");
    listing.push_str("\"brokerAgencyLogo\":null,\"brokerAgencyName\":\"Byr\u{e5}n\",");
    listing.push_str("\"description\":\"Fin l\u{e4}genhet\",\"fee\":\"3\u{a0}000 kr/m\u{e5}n\",");
    listing.push_str("\"floor\":\"2\",\"housingForm\":{\"symbol\":\"bostadsratt\"},");
    listing.push_str("\"labels\":[],\"landArea\":null,");
    listing.push_str("\"livingAndSupplementalAreas\":\"61 m\u{b2}\",\"locationDescription\":\"Haga\",");
    listing.push_str("\"projectId\":null,\"publishedAt\":\"2024-10-01\",\"recordType\":\"listing\",");
    listing.push_str("\"rooms\":\"2 rum\",\"slug\":\"fin-lagenhet\",");
    listing.push_str("\"squareMeterPrice\":\"32\u{a0}787 kr/m\u{b2}\",\"streetAddress\":\"Viktoriagatan 3\"}");
    let doc = page_doc(&[
        ("ListingCard:9".to_string(), listing.clone()),
        ("SaleCard:11".to_string(), sale_entry("11")),
    ]);
    let cards = extract_listing_cards(&doc).unwrap();
    assert_eq!(cards.len(), 1);
    assert_eq!(cards[0].id, "9");
    assert_eq!(cards[0].street_address, "Viktoriagatan 3");
    assert_eq!(cards[0].floor, Some("2".to_string()));
    assert_eq!(cards[0].land_area, None);
}

#[test]
fn label_decoding_accepts_absent_text() {
    let with_text: serde_json::Value =
        serde_json::from_str("{\"text\":\"Ny\",\"category\":\"NEW\"}").unwrap();
    let label = decode_label(&with_text).unwrap();
    assert_eq!(label.text, Some("Ny".to_string()));
    assert_eq!(label.category, "NEW");

    let no_text: serde_json::Value = serde_json::from_str("{\"category\":\"HIDDEN\"}").unwrap();
    let label = decode_label(&no_text).unwrap();
    assert_eq!(label.text, None);

    let no_category: serde_json::Value = serde_json::from_str("{\"text\":\"x\"}").unwrap();
    assert!(decode_label(&no_category).is_none());
}

#[test]
fn decode_requires_string_fields() {
    let numeric_slug: serde_json::Value = serde_json::from_str(
        &sale_entry("44").replace("\"lagenhet-44\"", "17"),
    )
    .unwrap();
    assert!(decode_sale_card(&numeric_slug).is_none());
}
