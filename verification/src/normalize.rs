//! The field normalizer: total conversions from locale-formatted string
//! fields (prices with thousands separators and currency suffixes, areas
//! with unit suffixes and comma decimals, percentage deltas with a
//! no-change sentinel) to typed values with explicit missing-data
//! semantics, and the projection of a sold listing to its flat row.

use vstd::prelude::*;
use vstd::string::StringExecFns;

use crate::models::{CsvRow, Dec, Label, LabelModel, SaleCard, SaleModel, dec_zero, opt_view};
use crate::text::{
    chars_of, contains_pat, contains_seq, dec_token_opt, drop_chars, int_token_opt,
    parse_dec_token, parse_int_token, remove_all, remove_pat, replace_char, strip_two, swap_char,
};

verus! {

// ---------------------------------------------------------------------------
// Money
// ---------------------------------------------------------------------------

/// A money string after cleaning: the currency and monthly-fee suffixes
/// removed, then every space and no-break space removed.
pub open spec fn money_cleaned(s: Seq<char>) -> Seq<char> {
    strip_two(remove_all(remove_all(s, "kr"@), "/m\u{e5}n"@), ' ', '\u{a0}')
}

/// The integer a money string denotes: none when the string carries the
/// missing-data sentinel, fails to clean to an integer token, or exceeds
/// `i64`.
pub open spec fn money_of(s: Seq<char>) -> Option<i64> {
    if contains_seq(s, "saknas"@) {
        None
    } else {
        int_token_opt(money_cleaned(s))
    }
}

/// `parse_money` on an already character-split string.
pub(crate) fn money_from_chars(cs: &Vec<char>) -> (r: Option<i64>)
    ensures
        r == money_of(cs@),
{
    let sentinel = chars_of("saknas");
    proof {
        reveal_strlit("saknas");
    }
    if contains_pat(cs, &sentinel) {
        return None;
    }
    let kr = chars_of("kr");
    let man = chars_of("/m\u{e5}n");
    proof {
        reveal_strlit("kr");
        reveal_strlit("/m\u{e5}n");
    }
    let step1 = remove_pat(cs, &kr);
    let step2 = remove_pat(&step1, &man);
    let cleaned = drop_chars(&step2, ' ', '\u{a0}');
    parse_int_token(&cleaned)
}

/// Converts a price string to an integer amount. The missing-data
/// sentinel, a malformed remainder, and an amount beyond `i64` all yield
/// `None`, never a default.
pub fn parse_money(s: &str) -> (r: Option<i64>)
    ensures
        r == money_of(s@),
{
    let cs = chars_of(s);
    money_from_chars(&cs)
}

// ---------------------------------------------------------------------------
// Area
// ---------------------------------------------------------------------------

/// An area string after cleaning: the unit suffix removed, the comma
/// decimal separator replaced by a dot, then every space and no-break
/// space removed.
pub open spec fn area_cleaned(s: Seq<char>) -> Seq<char> {
    strip_two(swap_char(remove_all(s, "m\u{b2}"@), ',', '.'), ' ', '\u{a0}')
}

/// The decimal an area string denotes; none when cleaning leaves no
/// decimal token.
pub open spec fn area_of(s: Seq<char>) -> Option<Dec> {
    dec_token_opt(area_cleaned(s))
}

/// Converts a living-area string to an exact decimal; `None` on any
/// malformed input.
pub fn parse_area(s: &str) -> (r: Option<Dec>)
    ensures
        r == area_of(s@),
{
    let cs = chars_of(s);
    let unit = chars_of("m\u{b2}");
    proof {
        reveal_strlit("m\u{b2}");
    }
    let step1 = remove_pat(&cs, &unit);
    let step2 = replace_char(&step1, ',', '.');
    let cleaned = drop_chars(&step2, ' ', '\u{a0}');
    parse_dec_token(&cleaned)
}

// ---------------------------------------------------------------------------
// Percentage change
// ---------------------------------------------------------------------------

/// A percentage string after cleaning: every percent sign removed, the
/// comma decimal separator replaced by a dot, then every space and
/// no-break space removed.
pub open spec fn percent_cleaned(s: Seq<char>) -> Seq<char> {
    strip_two(swap_char(strip_two(s, '%', '%'), ',', '.'), ' ', '\u{a0}')
}

/// The decimal a percentage-change string denotes: exactly zero for the
/// dedicated no-change sentinel, and zero again as the documented lossy
/// fallback when cleaning leaves no decimal token.
pub open spec fn percent_of(s: Seq<char>) -> Dec {
    if contains_seq(s, "\u{b1}0"@) {
        dec_zero()
    } else {
        match dec_token_opt(percent_cleaned(s)) {
            Some(d) => d,
            None => dec_zero(),
        }
    }
}

/// `parse_percent_change` on an already character-split string.
pub(crate) fn percent_from_chars(cs: &Vec<char>) -> (r: Dec)
    ensures
        r == percent_of(cs@),
{
    let sentinel = chars_of("\u{b1}0");
    proof {
        reveal_strlit("\u{b1}0");
    }
    if contains_pat(cs, &sentinel) {
        return Dec::zero();
    }
    let step1 = drop_chars(cs, '%', '%');
    let step2 = replace_char(&step1, ',', '.');
    let cleaned = drop_chars(&step2, ' ', '\u{a0}');
    match parse_dec_token(&cleaned) {
        Some(d) => d,
        None => Dec::zero(),
    }
}

/// Converts a percentage-change string to an exact decimal. This function
/// is total: the no-change sentinel maps to exactly zero, and so does any
/// unparseable input.
pub fn parse_percent_change(s: &str) -> (r: Dec)
    ensures
        r == percent_of(s@),
{
    let cs = chars_of(s);
    percent_from_chars(&cs)
}

// ---------------------------------------------------------------------------
// Labels
// ---------------------------------------------------------------------------

/// The summary piece a label contributes: `category:text` for a label
/// with a text, nothing otherwise.
pub open spec fn label_piece(l: LabelModel) -> Option<Seq<char>> {
    match l.text {
        Some(t) => Some(l.category + ":"@ + t),
        None => None,
    }
}

/// The summary pieces of a label sequence, in order.
pub open spec fn pieces_of(ls: Seq<LabelModel>) -> Seq<Seq<char>>
    decreases ls.len(),
{
    if ls.len() == 0 {
        Seq::empty()
    } else {
        pieces_of(ls.drop_last()) + match label_piece(ls.last()) {
            Some(p) => seq![p],
            None => Seq::empty(),
        }
    }
}

/// `ps` joined with a `;` between neighbours.
pub open spec fn join_semi(ps: Seq<Seq<char>>) -> Seq<char>
    decreases ps.len(),
{
    if ps.len() == 0 {
        Seq::empty()
    } else if ps.len() == 1 {
        ps[0]
    } else {
        join_semi(ps.drop_last()) + ";"@ + ps.last()
    }
}

/// The delimited label summary of a label sequence.
pub open spec fn labels_folded(ls: Seq<LabelModel>) -> Seq<char> {
    join_semi(pieces_of(ls))
}

/// Folds the labels that carry a text into one `category:text` list
/// delimited by `;`, in source order.
pub fn fold_labels(labels: &Vec<Label>) -> (r: String)
    ensures
        r@ == labels_folded(labels@.map_values(|l: Label| l@)),
{
    let ghost models = labels@.map_values(|l: Label| l@);
    let mut out = String::new();
    let mut any = false;
    let mut i: usize = 0;
    while i < labels.len()
        invariant
            i <= labels@.len(),
            models == labels@.map_values(|l: Label| l@),
            any == (pieces_of(models.subrange(0, i as int)).len() > 0),
            out@ == join_semi(pieces_of(models.subrange(0, i as int))),
        decreases labels@.len() - i,
    {
        let ghost pre = models.subrange(0, i as int);
        let ghost cur = models.subrange(0, i + 1);
        proof {
            assert(cur.drop_last() =~= pre);
            assert(cur.last() == models[i as int]);
        }
        match &labels[i].text {
            Some(t) => {
                let ghost piece = labels[i as int]@.category + ":"@ + t@;
                if any {
                    out.append(";");
                }
                out.append(labels[i].category.as_str());
                out.append(":");
                out.append(t.as_str());
                any = true;
                proof {
                    let ps = pieces_of(pre);
                    assert(pieces_of(cur) =~= ps.push(piece));
                    assert(ps.push(piece).drop_last() =~= ps);
                    assert(ps.push(piece).last() == piece);
                    if ps.len() == 0 {
                        assert(join_semi(ps.push(piece)) == piece);
                        assert(out@ =~= piece);
                    } else {
                        assert(join_semi(ps.push(piece)) == join_semi(ps) + ";"@ + piece);
                        assert(out@ =~= join_semi(ps) + ";"@ + piece);
                    }
                }
            },
            None => {
                proof {
                    assert(pieces_of(cur) =~= pieces_of(pre));
                }
            },
        }
        i = i + 1;
    }
    proof {
        assert(models.subrange(0, i as int) =~= models);
    }
    out
}

// ---------------------------------------------------------------------------
// Row projection
// ---------------------------------------------------------------------------

/// The view of an optional borrowed string.
pub open spec fn opt_ref_view(o: Option<&str>) -> Option<Seq<char>> {
    match o {
        Some(s) => Some(s@),
        None => None,
    }
}

/// `r` is the flat row of the sold listing `c`, carrying `loc` as the
/// injected location label.
pub open spec fn is_row_of(r: CsvRow, c: SaleModel, loc: Option<Seq<char>>) -> bool {
    &&& r.id@ == c.id
    &&& r.listing_id@ == c.listing_id
    &&& r.street_address@ == c.street_address
    &&& r.sold_at@ == c.sold_at
    &&& r.sold_at_label@ == c.sold_at_label
    &&& r.asking_price == money_of(c.asking_price)
    &&& r.final_price == money_of(c.final_price)
    &&& r.living_area == area_of(c.living_area)
    &&& opt_view(r.location) == loc
    &&& r.location_description@ == c.location_description
    &&& r.fee == match c.fee {
        Some(f) => money_of(f),
        None => None,
    }
    &&& r.square_meter_price == money_of(remove_all(c.square_meter_price, "kr/m\u{b2}"@))
    &&& r.rooms@ == match c.rooms {
        Some(x) => x,
        None => Seq::<char>::empty(),
    }
    &&& r.price_change == match c.price_change {
        Some(p) => Some(percent_of(p)),
        None => None,
    }
    &&& r.broker_agency_name@ == c.broker_agency_name
    &&& opt_view(r.broker_name) == c.broker_name
    &&& r.labels@ == labels_folded(c.labels)
    &&& r.url@ == "https://www.hemnet.se/salda/"@ + c.slug
}

impl SaleCard {
    /// Projects this sold listing to its flat, persistence-ready row,
    /// normalizing every numeric field and folding the labels. Total:
    /// malformed fields become explicit absent values, never errors.
    pub fn to_csv_row(&self, location: Option<&str>) -> (r: CsvRow)
        ensures
            is_row_of(r, self@, opt_ref_view(location)),
    {
        let asking_price = parse_money(self.asking_price.as_str());
        let final_price = parse_money(self.final_price.as_str());
        let living_area = parse_area(self.living_area.as_str());
        let fee = match &self.fee {
            Some(f) => parse_money(f.as_str()),
            None => None,
        };
        let smp_chars = chars_of(self.square_meter_price.as_str());
        let smp_unit = chars_of("kr/m\u{b2}");
        proof {
            reveal_strlit("kr/m\u{b2}");
        }
        let smp_stripped = remove_pat(&smp_chars, &smp_unit);
        let square_meter_price = money_from_chars(&smp_stripped);
        let price_change = match &self.price_change {
            Some(p) => Some(parse_percent_change(p.as_str())),
            None => None,
        };
        let rooms = match &self.rooms {
            Some(x) => x.clone(),
            None => String::new(),
        };
        let labels = fold_labels(&self.labels);
        let url = String::from_str("https://www.hemnet.se/salda/").concat(self.slug.as_str());
        let location = match location {
            Some(l) => Some(String::from_str(l)),
            None => None,
        };
        CsvRow {
            id: self.id.clone(),
            listing_id: self.listing_id.clone(),
            street_address: self.street_address.clone(),
            sold_at: self.sold_at.clone(),
            sold_at_label: self.sold_at_label.clone(),
            asking_price,
            final_price,
            living_area,
            location,
            location_description: self.location_description.clone(),
            fee,
            square_meter_price,
            rooms,
            price_change,
            broker_agency_name: self.broker_agency_name.clone(),
            broker_name: self.broker_name.clone(),
            labels,
            url,
        }
    }
}

/// Projects every sold listing of one location run to its flat row,
/// injecting the location's display name; order is kept.
pub fn listings_to_csv_rows(listings: Vec<SaleCard>, location: &str) -> (r: Vec<CsvRow>)
    ensures
        r@.len() == listings@.len(),
        forall|i: int|
            0 <= i < listings@.len() ==> is_row_of(
                #[trigger] r@[i],
                listings@[i]@,
                Some(location@),
            ),
{
    let mut out: Vec<CsvRow> = Vec::new();
    let mut i: usize = 0;
    while i < listings.len()
        invariant
            i <= listings@.len(),
            out@.len() == i,
            forall|k: int|
                0 <= k < i ==> is_row_of(#[trigger] out@[k], listings@[k]@, Some(location@)),
        decreases listings@.len() - i,
    {
        let row = listings[i].to_csv_row(Some(location));
        out.push(row);
        i = i + 1;
    }
    out
}

} // verus!
