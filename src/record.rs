use vstd::prelude::*;

verus! {

/// Diagnostic carried by the single record of a run whose top-level page
/// could not be fetched.
pub open spec fn scraping_error_message() -> Seq<char> {
    seq!['S', 'c', 'r', 'a', 'p', 'i', 'n', 'g', ' ', 'E', 'r', 'r', 'o', 'r']
}

/// Diagnostic carried by the single record of a run whose top-level table
/// holds no rows.
pub open spec fn no_data_message() -> Seq<char> {
    seq![
        'N', 'o', ' ', 'o', 'u', 't', 'a', 'g', 'e', ' ', 'd', 'a', 't', 'a', ' ', 'f', 'o', 'u',
        'n', 'd', '.',
    ]
}

/// One output record: a leaf location with its enclosing region and
/// sub-region, or a diagnostic record with every location field absent.
#[derive(Debug, Clone)]
pub struct OutageRecord {
    pub outage_update: String,
    pub county: Option<String>,
    pub county_total: Option<String>,
    pub county_out: Option<String>,
    pub muni: Option<String>,
    pub muni_total: Option<String>,
    pub muni_out: Option<String>,
    pub street: Option<String>,
    pub street_out: Option<String>,
    pub street_restoration: Option<String>,
    pub message: String,
}

/// The mathematical value of an [`OutageRecord`]: every text as a sequence of
/// characters.
pub ghost struct RecordView {
    pub outage_update: Seq<char>,
    pub county: Option<Seq<char>>,
    pub county_total: Option<Seq<char>>,
    pub county_out: Option<Seq<char>>,
    pub muni: Option<Seq<char>>,
    pub muni_total: Option<Seq<char>>,
    pub muni_out: Option<Seq<char>>,
    pub street: Option<Seq<char>>,
    pub street_out: Option<Seq<char>>,
    pub street_restoration: Option<Seq<char>>,
    pub message: Seq<char>,
}

impl View for OutageRecord {
    type V = RecordView;

    open spec fn view(&self) -> RecordView {
        RecordView {
            outage_update: self.outage_update@,
            county: self.county.deep_view(),
            county_total: self.county_total.deep_view(),
            county_out: self.county_out.deep_view(),
            muni: self.muni.deep_view(),
            muni_total: self.muni_total.deep_view(),
            muni_out: self.muni_out.deep_view(),
            street: self.street.deep_view(),
            street_out: self.street_out.deep_view(),
            street_restoration: self.street_restoration.deep_view(),
            message: self.message@,
        }
    }
}

/// A record that names no location: every location field is absent.
pub open spec fn diagnostic_view(update: Seq<char>, message: Seq<char>) -> RecordView {
    RecordView {
        outage_update: update,
        county: None,
        county_total: None,
        county_out: None,
        muni: None,
        muni_total: None,
        muni_out: None,
        street: None,
        street_out: None,
        street_restoration: None,
        message,
    }
}

/// True when every location field of the record is absent.
pub open spec fn location_absent(r: RecordView) -> bool {
    &&& r.county is None
    &&& r.county_total is None
    &&& r.county_out is None
    &&& r.muni is None
    &&& r.muni_total is None
    &&& r.muni_out is None
    &&& r.street is None
    &&& r.street_out is None
    &&& r.street_restoration is None
}

/// The views of a sequence of records, in order.
pub open spec fn record_views(s: Seq<OutageRecord>) -> Seq<RecordView> {
    s.map_values(|r: OutageRecord| r@)
}

fn diagnostic(update: String, message: String) -> (r: OutageRecord)
    ensures
        r@ == diagnostic_view(update@, message@),
{
    OutageRecord {
        outage_update: update,
        county: None,
        county_total: None,
        county_out: None,
        muni: None,
        muni_total: None,
        muni_out: None,
        street: None,
        street_out: None,
        street_restoration: None,
        message,
    }
}

/// The record of a run whose top-level page could not be fetched, stamped
/// with the time given (the current time, as text).
pub fn error_record(now: String) -> (r: OutageRecord)
    ensures
        r@ == diagnostic_view(now@, scraping_error_message()),
        location_absent(r@),
{
    let message = String::from_str("Scraping Error");
    proof {
        reveal_strlit("Scraping Error");
        assert(message@ =~= scraping_error_message());
    }
    diagnostic(now, message)
}

/// The record of a run whose top-level table holds no rows, stamped with the
/// portal's update text.
pub fn empty_record(update: String) -> (r: OutageRecord)
    ensures
        r@ == diagnostic_view(update@, no_data_message()),
        location_absent(r@),
{
    let message = String::from_str("No outage data found.");
    proof {
        reveal_strlit("No outage data found.");
        assert(message@ =~= no_data_message());
    }
    diagnostic(update, message)
}

} // verus!
