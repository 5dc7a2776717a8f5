//! The snapshot extractor: recovers typed listing records from the flat,
//! prefix-keyed object-graph snapshot embedded in one page document.
//!
//! The document is JSON handled by serde_json; every call into it stands
//! behind a trusted item whose contract speaks over named, uninterpreted
//! views of the document's content. The decoding of each record from those
//! views is verified code.

use vstd::prelude::*;

use crate::models::{
    FetchError, HousingForm, Label, LabelModel, ListingCard, ListingModel, SaleCard, SaleModel,
    opt_view,
};
use crate::text::{match_at, matches_at, chars_of};

verus! {

// ---------------------------------------------------------------------------
// The trusted view of serde_json
// ---------------------------------------------------------------------------

#[verifier::external_type_specification]
#[verifier::external_body]
pub struct ExValue(serde_json::Value);

/// The document a text parses to, if it is JSON.
pub uninterp spec fn json_of_text(s: Seq<char>) -> Option<serde_json::Value>;

/// The member of an object value under a key; none when the value is no
/// object or has no such member.
pub uninterp spec fn json_member(v: serde_json::Value, key: Seq<char>) -> Option<
    serde_json::Value,
>;

/// The characters of a string value; none when the value is no string.
pub uninterp spec fn json_str(v: serde_json::Value) -> Option<Seq<char>>;

/// Whether the value is JSON null.
pub uninterp spec fn json_null(v: serde_json::Value) -> bool;

/// The items of an array value, in order; none when the value is no array.
pub uninterp spec fn json_items(v: serde_json::Value) -> Option<Seq<serde_json::Value>>;

/// The members of an object value as key-value pairs, in the order the
/// object hands them out; none when the value is no object.
pub uninterp spec fn json_entries(v: serde_json::Value) -> Option<
    Seq<(Seq<char>, serde_json::Value)>,
>;

/// The pairs of owned entries, seen as key characters and values.
pub open spec fn entries_view(es: Seq<(String, serde_json::Value)>) -> Seq<
    (Seq<char>, serde_json::Value),
> {
    es.map_values(|e: (String, serde_json::Value)| (e.0@, e.1))
}

/// Relies on serde_json::from_str::<Value>: one JSON text parses to one
/// document, a function of the text alone; a non-JSON text parses to none.
#[verifier::external_body]
fn json_parse(text: &str) -> (r: Option<serde_json::Value>)
    ensures
        r == json_of_text(text@),
{
    serde_json::from_str(text).ok()
}

/// Relies on serde_json::Value::get: the member of an object under a
/// string key, a function of the value and the key alone.
#[verifier::external_body]
fn json_get<'a>(v: &'a serde_json::Value, key: &str) -> (r: Option<&'a serde_json::Value>)
    ensures
        match r {
            Some(f) => json_member(*v, key@) == Some(*f),
            None => json_member(*v, key@) is None,
        },
{
    v.get(key)
}

/// Relies on serde_json::Value::as_str (and str::to_owned to copy it out):
/// the characters of a string value, a function of the value alone.
#[verifier::external_body]
fn json_as_string(v: &serde_json::Value) -> (r: Option<String>)
    ensures
        match r {
            Some(s) => json_str(*v) == Some(s@),
            None => json_str(*v) is None,
        },
{
    v.as_str().map(str::to_owned)
}

/// Relies on serde_json::Value::is_null.
#[verifier::external_body]
fn json_is_null(v: &serde_json::Value) -> (r: bool)
    ensures
        r == json_null(*v),
{
    v.is_null()
}

/// Relies on serde_json::Value::as_array (cloned to own the items): the
/// items of an array value in order, a function of the value alone.
#[verifier::external_body]
fn json_as_items(v: &serde_json::Value) -> (r: Option<Vec<serde_json::Value>>)
    ensures
        match r {
            Some(items) => json_items(*v) == Some(items@),
            None => json_items(*v) is None,
        },
{
    v.as_array().cloned()
}

/// Relies on serde_json::Value::as_object (entries cloned pairwise): the
/// members of an object value as pairs, in the object's own fixed
/// (key-sorted) order, a function of the value alone.
#[verifier::external_body]
fn json_object_entries(v: &serde_json::Value) -> (r: Option<Vec<(String, serde_json::Value)>>)
    ensures
        match r {
            Some(es) => json_entries(*v) == Some(entries_view(es@)),
            None => json_entries(*v) is None,
        },
{
    v.as_object().map(|m| m.iter().map(|(k, x)| (k.clone(), x.clone())).collect())
}

// ---------------------------------------------------------------------------
// Field access over the named views
// ---------------------------------------------------------------------------

/// The characters of a required string member.
pub open spec fn req_str(v: serde_json::Value, key: Seq<char>) -> Option<Seq<char>> {
    match json_member(v, key) {
        Some(f) => json_str(f),
        None => None,
    }
}

/// An optional string member: an absent or null member is an accepted
/// absence, a present non-string member a decode failure.
pub open spec fn opt_str(v: serde_json::Value, key: Seq<char>) -> Option<Option<Seq<char>>> {
    match json_member(v, key) {
        None => Some(None),
        Some(f) => if json_null(f) {
            Some(None)
        } else {
            match json_str(f) {
                Some(s) => Some(Some(s)),
                None => None,
            }
        },
    }
}

fn get_req_str(v: &serde_json::Value, key: &str) -> (r: Option<String>)
    ensures
        match r {
            Some(s) => req_str(*v, key@) == Some(s@),
            None => req_str(*v, key@) is None,
        },
{
    match json_get(v, key) {
        Some(f) => json_as_string(f),
        None => None,
    }
}

fn get_opt_str(v: &serde_json::Value, key: &str) -> (r: Option<Option<String>>)
    ensures
        match r {
            Some(o) => opt_str(*v, key@) == Some(opt_view(o)),
            None => opt_str(*v, key@) is None,
        },
{
    match json_get(v, key) {
        None => Some(None),
        Some(f) => {
            if json_is_null(f) {
                Some(None)
            } else {
                match json_as_string(f) {
                    Some(s) => Some(Some(s)),
                    None => None,
                }
            }
        },
    }
}

// ---------------------------------------------------------------------------
// Label decoding
// ---------------------------------------------------------------------------

/// The label a value decodes to: an optional text and a required category.
pub open spec fn label_model_of(v: serde_json::Value) -> Option<LabelModel> {
    match opt_str(v, "text"@) {
        None => None,
        Some(t) => match req_str(v, "category"@) {
            Some(c) => Some(LabelModel { text: t, category: c }),
            None => None,
        },
    }
}

/// The labels an item sequence decodes to; one failure fails the list.
pub open spec fn label_models_of(items: Seq<serde_json::Value>) -> Option<Seq<LabelModel>>
    decreases items.len(),
{
    if items.len() == 0 {
        Some(Seq::empty())
    } else {
        match label_models_of(items.drop_last()) {
            None => None,
            Some(init) => match label_model_of(items.last()) {
                None => None,
                Some(l) => Some(init.push(l)),
            },
        }
    }
}

/// The label list under the required `labels` member of a record.
pub open spec fn labels_field_of(v: serde_json::Value) -> Option<Seq<LabelModel>> {
    match json_member(v, "labels"@) {
        None => None,
        Some(f) => match json_items(f) {
            None => None,
            Some(items) => label_models_of(items),
        },
    }
}

proof fn lemma_label_models_prefix_none(items: Seq<serde_json::Value>, k: int)
    requires
        0 <= k <= items.len(),
        label_models_of(items.subrange(0, k)) is None,
    ensures
        label_models_of(items) is None,
    decreases items.len() - k,
{
    if k < items.len() {
        assert(items.subrange(0, k + 1).drop_last() =~= items.subrange(0, k));
        lemma_label_models_prefix_none(items, k + 1);
    } else {
        assert(items.subrange(0, k) =~= items);
    }
}

/// Decodes one label entry.
pub fn decode_label(v: &serde_json::Value) -> (r: Option<Label>)
    ensures
        match r {
            Some(l) => label_model_of(*v) == Some(l@),
            None => label_model_of(*v) is None,
        },
{
    let text = match get_opt_str(v, "text") {
        Some(t) => t,
        None => {
            return None;
        },
    };
    let category = match get_req_str(v, "category") {
        Some(c) => c,
        None => {
            return None;
        },
    };
    Some(Label { text, category })
}

fn get_labels(v: &serde_json::Value) -> (r: Option<Vec<Label>>)
    ensures
        match r {
            Some(ls) => labels_field_of(*v) == Some(ls@.map_values(|l: Label| l@)),
            None => labels_field_of(*v) is None,
        },
{
    let arr = match json_get(v, "labels") {
        Some(f) => match json_as_items(f) {
            Some(a) => a,
            None => {
                return None;
            },
        },
        None => {
            return None;
        },
    };
    let mut out: Vec<Label> = Vec::new();
    let mut i: usize = 0;
    while i < arr.len()
        invariant
            i <= arr@.len(),
            json_member(*v, "labels"@) is Some,
            json_items(json_member(*v, "labels"@)->0) == Some(arr@),
            label_models_of(arr@.subrange(0, i as int)) == Some(
                out@.map_values(|l: Label| l@),
            ),
        decreases arr@.len() - i,
    {
        proof {
            assert(arr@.subrange(0, i + 1).drop_last() =~= arr@.subrange(0, i as int));
            assert(arr@.subrange(0, i + 1).last() == arr@[i as int]);
        }
        match decode_label(&arr[i]) {
            Some(l) => {
                out.push(l);
                proof {
                    assert(out@.map_values(|l: Label| l@) =~= out@.drop_last().map_values(
                        |l: Label| l@,
                    ).push(out@.last()@));
                }
            },
            None => {
                proof {
                    lemma_label_models_prefix_none(arr@, i + 1);
                }
                return None;
            },
        }
        i = i + 1;
    }
    proof {
        assert(arr@.subrange(0, i as int) =~= arr@);
    }
    Some(out)
}

// ---------------------------------------------------------------------------
// Record decoding
// ---------------------------------------------------------------------------

/// The housing-form symbol nested under a record.
pub open spec fn housing_form_of(v: serde_json::Value) -> Option<Seq<char>> {
    match json_member(v, "housingForm"@) {
        Some(h) => req_str(h, "symbol"@),
        None => None,
    }
}

fn get_housing_form(v: &serde_json::Value) -> (r: Option<String>)
    ensures
        match r {
            Some(s) => housing_form_of(*v) == Some(s@),
            None => housing_form_of(*v) is None,
        },
{
    match json_get(v, "housingForm") {
        Some(h) => get_req_str(h, "symbol"),
        None => None,
    }
}

/// The sold-listing record a snapshot value decodes to, if every required
/// member is present with the right shape.
pub open spec fn sale_model_of(v: serde_json::Value) -> Option<SaleModel> {
    if req_str(v, "id"@) is None || req_str(v, "listingId"@) is None || req_str(v, "slug"@) is None
        || req_str(v, "streetAddress"@) is None || req_str(v, "soldAt"@) is None || req_str(
        v,
        "soldAtLabel"@,
    ) is None || req_str(v, "askingPrice"@) is None || req_str(v, "finalPrice"@) is None
        || req_str(v, "livingArea"@) is None || req_str(v, "locationDescription"@) is None
        || opt_str(v, "fee"@) is None || req_str(v, "squareMeterPrice"@) is None || housing_form_of(
        v,
    ) is None || opt_str(v, "rooms"@) is None || opt_str(v, "priceChange"@) is None || req_str(
        v,
        "brokerAgencyName"@,
    ) is None || opt_str(v, "brokerName"@) is None || labels_field_of(v) is None {
        None
    } else {
        Some(
            SaleModel {
                id: req_str(v, "id"@)->0,
                listing_id: req_str(v, "listingId"@)->0,
                slug: req_str(v, "slug"@)->0,
                street_address: req_str(v, "streetAddress"@)->0,
                sold_at: req_str(v, "soldAt"@)->0,
                sold_at_label: req_str(v, "soldAtLabel"@)->0,
                asking_price: req_str(v, "askingPrice"@)->0,
                final_price: req_str(v, "finalPrice"@)->0,
                living_area: req_str(v, "livingArea"@)->0,
                location_description: req_str(v, "locationDescription"@)->0,
                fee: opt_str(v, "fee"@)->0,
                square_meter_price: req_str(v, "squareMeterPrice"@)->0,
                housing_form: housing_form_of(v)->0,
                rooms: opt_str(v, "rooms"@)->0,
                price_change: opt_str(v, "priceChange"@)->0,
                broker_agency_name: req_str(v, "brokerAgencyName"@)->0,
                broker_name: opt_str(v, "brokerName"@)->0,
                labels: labels_field_of(v)->0,
            },
        )
    }
}

/// Decodes one sold-listing record from its snapshot value.
pub fn decode_sale_card(v: &serde_json::Value) -> (r: Option<SaleCard>)
    ensures
        match r {
            Some(c) => sale_model_of(*v) == Some(c@),
            None => sale_model_of(*v) is None,
        },
{
    let id = match get_req_str(v, "id") {
        Some(x) => x,
        None => {
            return None;
        },
    };
    let listing_id = match get_req_str(v, "listingId") {
        Some(x) => x,
        None => {
            return None;
        },
    };
    let slug = match get_req_str(v, "slug") {
        Some(x) => x,
        None => {
            return None;
        },
    };
    let street_address = match get_req_str(v, "streetAddress") {
        Some(x) => x,
        None => {
            return None;
        },
    };
    let sold_at = match get_req_str(v, "soldAt") {
        Some(x) => x,
        None => {
            return None;
        },
    };
    let sold_at_label = match get_req_str(v, "soldAtLabel") {
        Some(x) => x,
        None => {
            return None;
        },
    };
    let asking_price = match get_req_str(v, "askingPrice") {
        Some(x) => x,
        None => {
            return None;
        },
    };
    let final_price = match get_req_str(v, "finalPrice") {
        Some(x) => x,
        None => {
            return None;
        },
    };
    let living_area = match get_req_str(v, "livingArea") {
        Some(x) => x,
        None => {
            return None;
        },
    };
    let location_description = match get_req_str(v, "locationDescription") {
        Some(x) => x,
        None => {
            return None;
        },
    };
    let fee = match get_opt_str(v, "fee") {
        Some(x) => x,
        None => {
            return None;
        },
    };
    let square_meter_price = match get_req_str(v, "squareMeterPrice") {
        Some(x) => x,
        None => {
            return None;
        },
    };
    let housing_symbol = match get_housing_form(v) {
        Some(x) => x,
        None => {
            return None;
        },
    };
    let rooms = match get_opt_str(v, "rooms") {
        Some(x) => x,
        None => {
            return None;
        },
    };
    let price_change = match get_opt_str(v, "priceChange") {
        Some(x) => x,
        None => {
            return None;
        },
    };
    let broker_agency_name = match get_req_str(v, "brokerAgencyName") {
        Some(x) => x,
        None => {
            return None;
        },
    };
    let broker_name = match get_opt_str(v, "brokerName") {
        Some(x) => x,
        None => {
            return None;
        },
    };
    let labels = match get_labels(v) {
        Some(x) => x,
        None => {
            return None;
        },
    };
    Some(
        SaleCard {
            id,
            listing_id,
            slug,
            street_address,
            sold_at,
            sold_at_label,
            asking_price,
            final_price,
            living_area,
            location_description,
            fee,
            square_meter_price,
            housing_form: HousingForm { symbol: housing_symbol },
            rooms,
            price_change,
            broker_agency_name,
            broker_name,
            labels,
        },
    )
}

/// The active-listing record a snapshot value decodes to.
pub open spec fn listing_model_of(v: serde_json::Value) -> Option<ListingModel> {
    if req_str(v, "id"@) is None || opt_str(v, "activePackage"@) is None || opt_str(
        v,
        "askingPrice"@,
    ) is None || opt_str(v, "brokerAgencyLogo"@) is None || opt_str(v, "brokerAgencyName"@) is None
        || req_str(v, "description"@) is None || opt_str(v, "fee"@) is None || opt_str(
        v,
        "floor"@,
    ) is None || housing_form_of(v) is None || labels_field_of(v) is None || opt_str(
        v,
        "landArea"@,
    ) is None || req_str(v, "livingAndSupplementalAreas"@) is None || req_str(
        v,
        "locationDescription"@,
    ) is None || opt_str(v, "projectId"@) is None || req_str(v, "publishedAt"@) is None || req_str(
        v,
        "recordType"@,
    ) is None || opt_str(v, "rooms"@) is None || req_str(v, "slug"@) is None || opt_str(
        v,
        "squareMeterPrice"@,
    ) is None || req_str(v, "streetAddress"@) is None {
        None
    } else {
        Some(
            ListingModel {
                id: req_str(v, "id"@)->0,
                active_package: opt_str(v, "activePackage"@)->0,
                asking_price: opt_str(v, "askingPrice"@)->0,
                broker_agency_logo: opt_str(v, "brokerAgencyLogo"@)->0,
                broker_agency_name: opt_str(v, "brokerAgencyName"@)->0,
                description: req_str(v, "description"@)->0,
                fee: opt_str(v, "fee"@)->0,
                floor: opt_str(v, "floor"@)->0,
                housing_form: housing_form_of(v)->0,
                labels: labels_field_of(v)->0,
                land_area: opt_str(v, "landArea"@)->0,
                living_and_supplemental_areas: req_str(v, "livingAndSupplementalAreas"@)->0,
                location_description: req_str(v, "locationDescription"@)->0,
                project_id: opt_str(v, "projectId"@)->0,
                published_at: req_str(v, "publishedAt"@)->0,
                record_type: req_str(v, "recordType"@)->0,
                rooms: opt_str(v, "rooms"@)->0,
                slug: req_str(v, "slug"@)->0,
                square_meter_price: opt_str(v, "squareMeterPrice"@)->0,
                street_address: req_str(v, "streetAddress"@)->0,
            },
        )
    }
}

/// Decodes one active-listing record from its snapshot value.
pub fn decode_listing_card(v: &serde_json::Value) -> (r: Option<ListingCard>)
    ensures
        match r {
            Some(c) => listing_model_of(*v) == Some(c@),
            None => listing_model_of(*v) is None,
        },
{
    let id = match get_req_str(v, "id") {
        Some(x) => x,
        None => {
            return None;
        },
    };
    let active_package = match get_opt_str(v, "activePackage") {
        Some(x) => x,
        None => {
            return None;
        },
    };
    let asking_price = match get_opt_str(v, "askingPrice") {
        Some(x) => x,
        None => {
            return None;
        },
    };
    let broker_agency_logo = match get_opt_str(v, "brokerAgencyLogo") {
        Some(x) => x,
        None => {
            return None;
        },
    };
    let broker_agency_name = match get_opt_str(v, "brokerAgencyName") {
        Some(x) => x,
        None => {
            return None;
        },
    };
    let description = match get_req_str(v, "description") {
        Some(x) => x,
        None => {
            return None;
        },
    };
    let fee = match get_opt_str(v, "fee") {
        Some(x) => x,
        None => {
            return None;
        },
    };
    let floor = match get_opt_str(v, "floor") {
        Some(x) => x,
        None => {
            return None;
        },
    };
    let housing_symbol = match get_housing_form(v) {
        Some(x) => x,
        None => {
            return None;
        },
    };
    let labels = match get_labels(v) {
        Some(x) => x,
        None => {
            return None;
        },
    };
    let land_area = match get_opt_str(v, "landArea") {
        Some(x) => x,
        None => {
            return None;
        },
    };
    let living_and_supplemental_areas = match get_req_str(v, "livingAndSupplementalAreas") {
        Some(x) => x,
        None => {
            return None;
        },
    };
    let location_description = match get_req_str(v, "locationDescription") {
        Some(x) => x,
        None => {
            return None;
        },
    };
    let project_id = match get_opt_str(v, "projectId") {
        Some(x) => x,
        None => {
            return None;
        },
    };
    let published_at = match get_req_str(v, "publishedAt") {
        Some(x) => x,
        None => {
            return None;
        },
    };
    let record_type = match get_req_str(v, "recordType") {
        Some(x) => x,
        None => {
            return None;
        },
    };
    let rooms = match get_opt_str(v, "rooms") {
        Some(x) => x,
        None => {
            return None;
        },
    };
    let slug = match get_req_str(v, "slug") {
        Some(x) => x,
        None => {
            return None;
        },
    };
    let square_meter_price = match get_opt_str(v, "squareMeterPrice") {
        Some(x) => x,
        None => {
            return None;
        },
    };
    let street_address = match get_req_str(v, "streetAddress") {
        Some(x) => x,
        None => {
            return None;
        },
    };
    Some(
        ListingCard {
            id,
            active_package,
            asking_price,
            broker_agency_logo,
            broker_agency_name,
            description,
            fee,
            floor,
            housing_form: HousingForm { symbol: housing_symbol },
            labels,
            land_area,
            living_and_supplemental_areas,
            location_description,
            project_id,
            published_at,
            record_type,
            rooms,
            slug,
            square_meter_price,
            street_address,
        },
    )
}

// ---------------------------------------------------------------------------
// Snapshot extraction
// ---------------------------------------------------------------------------

/// The key marker of sold-listing snapshot entries.
pub open spec fn sale_prefix() -> Seq<char> {
    "SaleCard:"@
}

/// The key marker of active-listing snapshot entries.
pub open spec fn listing_prefix() -> Seq<char> {
    "ListingCard:"@
}

/// The sold-listing records of a snapshot's entries, in entry order:
/// one record per entry whose key opens with the sold-listing marker and
/// whose value decodes; entries that fail to decode are skipped.
pub open spec fn sale_records_of(entries: Seq<(Seq<char>, serde_json::Value)>) -> Seq<SaleModel>
    decreases entries.len(),
{
    if entries.len() == 0 {
        Seq::empty()
    } else {
        let init = sale_records_of(entries.drop_last());
        let e = entries.last();
        if matches_at(e.0, sale_prefix(), 0) {
            match sale_model_of(e.1) {
                Some(m) => init.push(m),
                None => init,
            }
        } else {
            init
        }
    }
}

/// The active-listing records of a snapshot's entries, as
/// `sale_records_of` but for the active-listing marker.
pub open spec fn listing_records_of(entries: Seq<(Seq<char>, serde_json::Value)>) -> Seq<
    ListingModel,
>
    decreases entries.len(),
{
    if entries.len() == 0 {
        Seq::empty()
    } else {
        let init = listing_records_of(entries.drop_last());
        let e = entries.last();
        if matches_at(e.0, listing_prefix(), 0) {
            match listing_model_of(e.1) {
                Some(m) => init.push(m),
                None => init,
            }
        } else {
            init
        }
    }
}

/// A snapshot whose keys nowhere open with the sold-listing marker yields
/// no sold-listing record at all.
pub proof fn lemma_sale_extraction_empty(entries: Seq<(Seq<char>, serde_json::Value)>)
    requires
        forall|i: int|
            0 <= i < entries.len() ==> !matches_at((#[trigger] entries[i]).0, sale_prefix(), 0),
    ensures
        sale_records_of(entries).len() == 0,
    decreases entries.len(),
{
    if entries.len() > 0 {
        lemma_sale_extraction_empty(entries.drop_last());
    }
}

/// A snapshot whose keys nowhere open with the active-listing marker
/// yields no active-listing record at all.
pub proof fn lemma_listing_extraction_empty(entries: Seq<(Seq<char>, serde_json::Value)>)
    requires
        forall|i: int|
            0 <= i < entries.len() ==> !matches_at(
                (#[trigger] entries[i]).0,
                listing_prefix(),
                0,
            ),
    ensures
        listing_records_of(entries).len() == 0,
    decreases entries.len(),
{
    if entries.len() > 0 {
        lemma_listing_extraction_empty(entries.drop_last());
    }
}

/// Collects the sold-listing records among a snapshot's entries, in
/// entry order, skipping entries that fail to decode.
pub fn sale_cards_from_entries(entries: &Vec<(String, serde_json::Value)>) -> (r: Vec<SaleCard>)
    ensures
        r@.map_values(|c: SaleCard| c@) == sale_records_of(entries_view(entries@)),
{
    let ghost ev = entries_view(entries@);
    let prefix = chars_of("SaleCard:");
    let mut out: Vec<SaleCard> = Vec::new();
    let mut i: usize = 0;
    while i < entries.len()
        invariant
            i <= entries@.len(),
            ev == entries_view(entries@),
            prefix@ == sale_prefix(),
            out@.map_values(|c: SaleCard| c@) == sale_records_of(ev.subrange(0, i as int)),
        decreases entries@.len() - i,
    {
        proof {
            assert(ev.subrange(0, i + 1).drop_last() =~= ev.subrange(0, i as int));
            assert(ev.subrange(0, i + 1).last() == ev[i as int]);
            assert(ev[i as int] == (entries@[i as int].0@, entries@[i as int].1));
        }
        let key_chars = chars_of(entries[i].0.as_str());
        if match_at(&key_chars, &prefix, 0) {
            match decode_sale_card(&entries[i].1) {
                Some(c) => {
                    out.push(c);
                    proof {
                        assert(out@.map_values(|c: SaleCard| c@) =~= out@.drop_last().map_values(
                            |c: SaleCard| c@,
                        ).push(out@.last()@));
                    }
                },
                None => {
                },
            }
        }
        i = i + 1;
    }
    proof {
        assert(ev.subrange(0, i as int) =~= ev);
    }
    out
}

/// Collects the active-listing records among a snapshot's entries, in
/// entry order, skipping entries that fail to decode.
pub fn listing_cards_from_entries(entries: &Vec<(String, serde_json::Value)>) -> (r: Vec<
    ListingCard,
>)
    ensures
        r@.map_values(|c: ListingCard| c@) == listing_records_of(entries_view(entries@)),
{
    let ghost ev = entries_view(entries@);
    let prefix = chars_of("ListingCard:");
    let mut out: Vec<ListingCard> = Vec::new();
    let mut i: usize = 0;
    while i < entries.len()
        invariant
            i <= entries@.len(),
            ev == entries_view(entries@),
            prefix@ == listing_prefix(),
            out@.map_values(|c: ListingCard| c@) == listing_records_of(ev.subrange(0, i as int)),
        decreases entries@.len() - i,
    {
        proof {
            assert(ev.subrange(0, i + 1).drop_last() =~= ev.subrange(0, i as int));
            assert(ev.subrange(0, i + 1).last() == ev[i as int]);
            assert(ev[i as int] == (entries@[i as int].0@, entries@[i as int].1));
        }
        let key_chars = chars_of(entries[i].0.as_str());
        if match_at(&key_chars, &prefix, 0) {
            match decode_listing_card(&entries[i].1) {
                Some(c) => {
                    out.push(c);
                    proof {
                        assert(out@.map_values(|c: ListingCard| c@)
                            =~= out@.drop_last().map_values(|c: ListingCard| c@).push(
                            out@.last()@,
                        ));
                    }
                },
                None => {
                },
            }
        }
        i = i + 1;
    }
    proof {
        assert(ev.subrange(0, i as int) =~= ev);
    }
    out
}

// ---------------------------------------------------------------------------
// The page document
// ---------------------------------------------------------------------------

/// The keyed snapshot embedded in one page document, reached through the
/// page-props wrapper; none when either level is missing or no object.
pub open spec fn snapshot_entries_of(doc: serde_json::Value) -> Option<
    Seq<(Seq<char>, serde_json::Value)>,
> {
    match json_member(doc, "pageProps"@) {
        None => None,
        Some(pp) => match json_member(pp, "__APOLLO_STATE__"@) {
            None => None,
            Some(ap) => json_entries(ap),
        },
    }
}

fn document_entries(doc: &serde_json::Value) -> (r: Option<Vec<(String, serde_json::Value)>>)
    ensures
        match r {
            Some(es) => snapshot_entries_of(*doc) == Some(entries_view(es@)),
            None => snapshot_entries_of(*doc) is None,
        },
{
    match json_get(doc, "pageProps") {
        Some(pp) => match json_get(pp, "__APOLLO_STATE__") {
            Some(ap) => json_object_entries(ap),
            None => None,
        },
        None => None,
    }
}

/// What extracting a sold-listing page from its raw text must yield: the
/// parse failure and the missing-snapshot failure each mapped to their
/// error, and otherwise exactly the decoded records of the snapshot.
pub open spec fn sale_page_spec(text: Seq<char>, r: Result<Vec<SaleCard>, FetchError>) -> bool {
    match json_of_text(text) {
        None => r matches Err(FetchError::MalformedDocument),
        Some(doc) => match snapshot_entries_of(doc) {
            None => r matches Err(FetchError::MissingSnapshot),
            Some(es) => r matches Ok(cards) && cards@.map_values(|c: SaleCard| c@)
                == sale_records_of(es),
        },
    }
}

/// As `sale_page_spec`, for an active-listing page.
pub open spec fn listing_page_spec(
    text: Seq<char>,
    r: Result<Vec<ListingCard>, FetchError>,
) -> bool {
    match json_of_text(text) {
        None => r matches Err(FetchError::MalformedDocument),
        Some(doc) => match snapshot_entries_of(doc) {
            None => r matches Err(FetchError::MissingSnapshot),
            Some(es) => r matches Ok(cards) && cards@.map_values(|c: ListingCard| c@)
                == listing_records_of(es),
        },
    }
}

/// Extracts the sold-listing records from one raw page text.
pub fn extract_sale_cards(text: &str) -> (r: Result<Vec<SaleCard>, FetchError>)
    ensures
        sale_page_spec(text@, r),
{
    let doc = match json_parse(text) {
        Some(d) => d,
        None => {
            return Err(FetchError::MalformedDocument);
        },
    };
    let entries = match document_entries(&doc) {
        Some(es) => es,
        None => {
            return Err(FetchError::MissingSnapshot);
        },
    };
    Ok(sale_cards_from_entries(&entries))
}

/// Extracts the active-listing records from one raw page text.
pub fn extract_listing_cards(text: &str) -> (r: Result<Vec<ListingCard>, FetchError>)
    ensures
        listing_page_spec(text@, r),
{
    let doc = match json_parse(text) {
        Some(d) => d,
        None => {
            return Err(FetchError::MalformedDocument);
        },
    };
    let entries = match document_entries(&doc) {
        Some(es) => es,
        None => {
            return Err(FetchError::MissingSnapshot);
        },
    };
    Ok(listing_cards_from_entries(&entries))
}

} // verus!
