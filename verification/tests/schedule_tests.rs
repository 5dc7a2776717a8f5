use hemnet::models::{CsvRow, Dec, FetchError};
use hemnet::schedule::merge_results;

fn row(id: &str, location: &str) -> CsvRow {
    CsvRow {
        id: id.to_string(),
        listing_id: id.to_string(),
        street_address: "Storgatan 1".to_string(),
        sold_at: "2024-11-02".to_string(),
        sold_at_label: "S\u{e5}ld".to_string(),
        asking_price: Some(1_000_000),
        final_price: Some(1_100_000),
        living_area: Some(Dec { negative: false, mantissa: 55, scale: 0 }),
        location: Some(location.to_string()),
        location_description: "Sundsvall".to_string(),
        fee: None,
        square_meter_price: Some(20_000),
        rooms: "2 rum".to_string(),
        price_change: None,
        broker_agency_name: "Byr\u{e5}n".to_string(),
        broker_name: None,
        labels: String::new(),
        url: format!("https://www.hemnet.se/salda/{}", id),
    }
}

#[test]
fn failed_location_does_not_cost_others_their_rows() {
    let haga = vec![row("1", "Haga"), row("2", "Haga")];
    let granlo = vec![row("3", "Granlo")];
    let merged = merge_results(vec![
        Ok(haga),
        Err(FetchError::Transport("connection reset".to_string())),
        Ok(granlo),
    ]);
    assert_eq!(merged.len(), 3);
    assert_eq!(merged[0].id, "1");
    assert_eq!(merged[1].id, "2");
    assert_eq!(merged[2].id, "3");
    assert_eq!(merged[2].location, Some("Granlo".to_string()));
}

#[test]
fn all_failures_merge_to_nothing() {
    let merged = merge_results(vec![
        Err(FetchError::MalformedDocument),
        Err(FetchError::MissingSnapshot),
    ]);
    assert_eq!(merged.len(), 0);
}

#[test]
fn within_location_row_order_is_kept() {
    let rows = vec![row("a", "Haga"), row("b", "Haga"), row("c", "Haga")];
    let merged = merge_results(vec![Ok(rows)]);
    let ids: Vec<&str> = merged.iter().map(|r| r.id.as_str()).collect();
    assert_eq!(ids, vec!["a", "b", "c"]);
}
