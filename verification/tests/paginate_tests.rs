use hemnet::models::{HousingForm, Listing, SaleCard};
use hemnet::paginate::Pagination;

fn sale(listing_id: &str) -> SaleCard {
    SaleCard {
        id: format!("SaleCard:{}", listing_id),
        listing_id: listing_id.to_string(),
        slug: format!("objekt-{}", listing_id),
        street_address: "Storgatan 1".to_string(),
        sold_at: "2024-11-02".to_string(),
        sold_at_label: "S\u{e5}ld".to_string(),
        asking_price: "1\u{a0}000\u{a0}000 kr".to_string(),
        final_price: "1\u{a0}100\u{a0}000 kr".to_string(),
        living_area: "55 m\u{b2}".to_string(),
        location_description: "Haga".to_string(),
        fee: None,
        square_meter_price: "20\u{a0}000 kr/m\u{b2}".to_string(),
        housing_form: HousingForm { symbol: "bostadsratt".to_string() },
        rooms: None,
        price_change: None,
        broker_agency_name: "Byr\u{e5}n".to_string(),
        broker_name: None,
        labels: vec![],
    }
}

#[test]
fn accumulation_never_holds_duplicate_keys() {
    let mut run: Pagination<SaleCard> = Pagination::new(1, None);
    run.absorb_page(vec![sale("a"), sale("b")]);
    run.absorb_page(vec![sale("b"), sale("c"), sale("a")]);
    let keys: Vec<&String> = run.records.iter().map(|r| r.id()).collect();
    assert_eq!(keys.len(), 3);
    for i in 0..keys.len() {
        for j in (i + 1)..keys.len() {
            assert_ne!(keys[i], keys[j]);
        }
    }
    assert_eq!(run.records[0].listing_id, "a");
    assert_eq!(run.records[1].listing_id, "b");
    assert_eq!(run.records[2].listing_id, "c");
}

#[test]
fn within_page_duplicates_are_dropped_too() {
    let mut run: Pagination<SaleCard> = Pagination::new(1, None);
    run.absorb_page(vec![sale("x"), sale("x")]);
    assert_eq!(run.records.len(), 1);
}

#[test]
fn fully_duplicate_page_terminates_the_run() {
    let mut run: Pagination<SaleCard> = Pagination::new(1, None);
    run.absorb_page(vec![sale("a"), sale("b")]);
    assert_eq!(run.next_fetch(), Some(2));
    run.absorb_page(vec![sale("a"), sale("b")]);
    assert_eq!(run.next_fetch(), None);
    assert_eq!(run.records.len(), 2);
}

#[test]
fn empty_page_terminates_the_run() {
    let mut run: Pagination<SaleCard> = Pagination::new(1, None);
    run.absorb_page(vec![sale("a")]);
    run.absorb_page(vec![]);
    assert_eq!(run.next_fetch(), None);
    assert_eq!(run.records.len(), 1);
}

#[test]
fn page_cap_allows_exactly_that_many_fetches() {
    let mut run: Pagination<SaleCard> = Pagination::new(1, Some(3));
    let mut fetches: u32 = 0;
    let mut next_id: u32 = 0;
    while let Some(page) = run.next_fetch() {
        fetches += 1;
        assert_eq!(page, fetches);
        assert!(fetches <= 3, "a fetch beyond the cap was issued");
        next_id += 1;
        run.absorb_page(vec![sale(&next_id.to_string())]);
    }
    assert_eq!(fetches, 3);
    assert_eq!(run.next_fetch(), None);
    assert_eq!(run.records.len(), 3);
}

#[test]
fn start_page_is_offered_first() {
    let run: Pagination<SaleCard> = Pagination::new(7, None);
    assert_eq!(run.next_fetch(), Some(7));
}
