//! The record types the pipeline works on: the two typed listing records
//! recovered from a page snapshot, their sub-entities, the flat persisted
//! row, and the exact decimal values the normalizer produces.

use vstd::prelude::*;

verus! {

/// A decimal number in exact form: the denoted value is
/// `mantissa / 10^scale`, negated when `negative` is set.
#[derive(Clone, Copy, Debug, PartialEq, Eq, Structural)]
pub struct Dec {
    pub negative: bool,
    pub mantissa: u64,
    pub scale: usize,
}

/// The decimal zero in its canonical form.
pub open spec fn dec_zero() -> Dec {
    Dec { negative: false, mantissa: 0, scale: 0 }
}

impl Dec {
    /// The canonical zero value.
    pub fn zero() -> (r: Dec)
        ensures
            r == dec_zero(),
    {
        Dec { negative: false, mantissa: 0, scale: 0 }
    }
}

/// The view of an optional owned string: the optional character sequence.
pub open spec fn opt_view(o: Option<String>) -> Option<Seq<char>> {
    match o {
        Some(s) => Some(s@),
        None => None,
    }
}

/// The housing-form marker carried by both record kinds.
#[derive(Clone, Debug)]
pub struct HousingForm {
    pub symbol: String,
}

impl View for HousingForm {
    type V = Seq<char>;

    open spec fn view(&self) -> Seq<char> {
        self.symbol@
    }
}

/// A marketing label attached to a record; only labels with a text are
/// folded into the persisted label summary.
#[derive(Clone, Debug)]
pub struct Label {
    pub text: Option<String>,
    pub category: String,
}

/// The mathematical content of a `Label`.
pub ghost struct LabelModel {
    pub text: Option<Seq<char>>,
    pub category: Seq<char>,
}

impl View for Label {
    type V = LabelModel;

    open spec fn view(&self) -> LabelModel {
        LabelModel { text: opt_view(self.text), category: self.category@ }
    }
}

/// An active listing as decoded from a snapshot entry with the
/// active-listing key prefix. Its identity key is `id`.
#[derive(Clone, Debug)]
pub struct ListingCard {
    pub id: String,
    pub active_package: Option<String>,
    pub asking_price: Option<String>,
    pub broker_agency_logo: Option<String>,
    pub broker_agency_name: Option<String>,
    pub description: String,
    pub fee: Option<String>,
    pub floor: Option<String>,
    pub housing_form: HousingForm,
    pub labels: Vec<Label>,
    pub land_area: Option<String>,
    pub living_and_supplemental_areas: String,
    pub location_description: String,
    pub project_id: Option<String>,
    pub published_at: String,
    pub record_type: String,
    pub rooms: Option<String>,
    pub slug: String,
    pub square_meter_price: Option<String>,
    pub street_address: String,
}

/// The mathematical content of a `ListingCard`.
pub ghost struct ListingModel {
    pub id: Seq<char>,
    pub active_package: Option<Seq<char>>,
    pub asking_price: Option<Seq<char>>,
    pub broker_agency_logo: Option<Seq<char>>,
    pub broker_agency_name: Option<Seq<char>>,
    pub description: Seq<char>,
    pub fee: Option<Seq<char>>,
    pub floor: Option<Seq<char>>,
    pub housing_form: Seq<char>,
    pub labels: Seq<LabelModel>,
    pub land_area: Option<Seq<char>>,
    pub living_and_supplemental_areas: Seq<char>,
    pub location_description: Seq<char>,
    pub project_id: Option<Seq<char>>,
    pub published_at: Seq<char>,
    pub record_type: Seq<char>,
    pub rooms: Option<Seq<char>>,
    pub slug: Seq<char>,
    pub square_meter_price: Option<Seq<char>>,
    pub street_address: Seq<char>,
}

impl View for ListingCard {
    type V = ListingModel;

    open spec fn view(&self) -> ListingModel {
        ListingModel {
            id: self.id@,
            active_package: opt_view(self.active_package),
            asking_price: opt_view(self.asking_price),
            broker_agency_logo: opt_view(self.broker_agency_logo),
            broker_agency_name: opt_view(self.broker_agency_name),
            description: self.description@,
            fee: opt_view(self.fee),
            floor: opt_view(self.floor),
            housing_form: self.housing_form@,
            labels: self.labels@.map_values(|l: Label| l@),
            land_area: opt_view(self.land_area),
            living_and_supplemental_areas: self.living_and_supplemental_areas@,
            location_description: self.location_description@,
            project_id: opt_view(self.project_id),
            published_at: self.published_at@,
            record_type: self.record_type@,
            rooms: opt_view(self.rooms),
            slug: self.slug@,
            square_meter_price: opt_view(self.square_meter_price),
            street_address: self.street_address@,
        }
    }
}

/// A sold listing as decoded from a snapshot entry with the sold-listing
/// key prefix. Its identity key is `listing_id`.
#[derive(Clone, Debug)]
pub struct SaleCard {
    pub id: String,
    pub listing_id: String,
    pub slug: String,
    pub street_address: String,
    pub sold_at: String,
    pub sold_at_label: String,
    pub asking_price: String,
    pub final_price: String,
    pub living_area: String,
    pub location_description: String,
    pub fee: Option<String>,
    pub square_meter_price: String,
    pub housing_form: HousingForm,
    pub rooms: Option<String>,
    pub price_change: Option<String>,
    pub broker_agency_name: String,
    pub broker_name: Option<String>,
    pub labels: Vec<Label>,
}

/// The mathematical content of a `SaleCard`.
pub ghost struct SaleModel {
    pub id: Seq<char>,
    pub listing_id: Seq<char>,
    pub slug: Seq<char>,
    pub street_address: Seq<char>,
    pub sold_at: Seq<char>,
    pub sold_at_label: Seq<char>,
    pub asking_price: Seq<char>,
    pub final_price: Seq<char>,
    pub living_area: Seq<char>,
    pub location_description: Seq<char>,
    pub fee: Option<Seq<char>>,
    pub square_meter_price: Seq<char>,
    pub housing_form: Seq<char>,
    pub rooms: Option<Seq<char>>,
    pub price_change: Option<Seq<char>>,
    pub broker_agency_name: Seq<char>,
    pub broker_name: Option<Seq<char>>,
    pub labels: Seq<LabelModel>,
}

impl View for SaleCard {
    type V = SaleModel;

    open spec fn view(&self) -> SaleModel {
        SaleModel {
            id: self.id@,
            listing_id: self.listing_id@,
            slug: self.slug@,
            street_address: self.street_address@,
            sold_at: self.sold_at@,
            sold_at_label: self.sold_at_label@,
            asking_price: self.asking_price@,
            final_price: self.final_price@,
            living_area: self.living_area@,
            location_description: self.location_description@,
            fee: opt_view(self.fee),
            square_meter_price: self.square_meter_price@,
            housing_form: self.housing_form@,
            rooms: opt_view(self.rooms),
            price_change: opt_view(self.price_change),
            broker_agency_name: self.broker_agency_name@,
            broker_name: opt_view(self.broker_name),
            labels: self.labels@.map_values(|l: Label| l@),
        }
    }
}

/// A record that takes part in a pagination run: it exposes the identity
/// key that deduplication goes by.
pub trait Listing: Sized {
    /// The identity key, as a character sequence.
    spec fn key(&self) -> Seq<char>;

    /// The identity key, for the running dedup check.
    fn id(&self) -> (r: &String)
        ensures
            r@ == self.key(),
    ;
}

impl Listing for ListingCard {
    open spec fn key(&self) -> Seq<char> {
        self.id@
    }

    fn id(&self) -> (r: &String) {
        &self.id
    }
}

impl Listing for SaleCard {
    open spec fn key(&self) -> Seq<char> {
        self.listing_id@
    }

    fn id(&self) -> (r: &String) {
        &self.listing_id
    }
}

/// Why a page could not be turned into records. Record-level decode
/// failures are not here: they only exclude the one record.
#[derive(Clone, Debug)]
pub enum FetchError {
    /// The transport failed before a document was in hand; the payload
    /// describes the failure.
    Transport(String),
    /// The response was not a JSON document.
    MalformedDocument,
    /// The document holds no keyed snapshot object where one belongs.
    MissingSnapshot,
}

/// The flat, persistence-ready projection of one sold listing.
#[derive(Clone, Debug)]
pub struct CsvRow {
    pub id: String,
    pub listing_id: String,
    pub street_address: String,
    pub sold_at: String,
    pub sold_at_label: String,
    pub asking_price: Option<i64>,
    pub final_price: Option<i64>,
    pub living_area: Option<Dec>,
    pub location: Option<String>,
    pub location_description: String,
    pub fee: Option<i64>,
    pub square_meter_price: Option<i64>,
    pub rooms: String,
    pub price_change: Option<Dec>,
    pub broker_agency_name: String,
    pub broker_name: Option<String>,
    pub labels: String,
    pub url: String,
}

} // verus!
