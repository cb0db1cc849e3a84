use vstd::prelude::*;

use crate::extract::{
    attr_values_of, html_nodes, html_nodes_attr, inner_html_of, selector_valid, unwrap_all,
    all_present, Document, ScrapeError,
};

verus! {

/// The line holding the portal's update time.
pub const TIMESTAMP_SELECTOR: &'static str = "body > p[align='right']";

/// The link in the first column of a table row.
pub const TD_1_A: &'static str = "td:nth-child(1) > a";

/// The first column of a table row.
pub const TD_1: &'static str = "td:nth-child(1)";

/// The second column of a table row.
pub const TD_2: &'static str = "td:nth-child(2)";

/// The third column of a table row.
pub const TD_3: &'static str = "td:nth-child(3)";

/// The fourth column of a table row.
pub const TD_4: &'static str = "td:nth-child(4)";

/// The attribute of a row's link that names the page one level down.
pub const HREF: &'static str = "href";

/// A row of a region or sub-region table: its name, the relative link to the
/// page one level down, and its customer counts.
#[derive(Debug, Clone)]
pub struct RegionRow {
    pub name: String,
    pub href: String,
    pub total: String,
    pub out: String,
}

/// A row of a leaf table: the location, its affected-customer count and the
/// estimated restoration text.
#[derive(Debug, Clone)]
pub struct LeafRow {
    pub name: String,
    pub out: String,
    pub restoration: String,
}

/// The mathematical value of a [`RegionRow`].
pub ghost struct RegionRowView {
    pub name: Seq<char>,
    pub href: Seq<char>,
    pub total: Seq<char>,
    pub out: Seq<char>,
}

/// The mathematical value of a [`LeafRow`].
pub ghost struct LeafRowView {
    pub name: Seq<char>,
    pub out: Seq<char>,
    pub restoration: Seq<char>,
}

impl View for RegionRow {
    type V = RegionRowView;

    open spec fn view(&self) -> RegionRowView {
        RegionRowView { name: self.name@, href: self.href@, total: self.total@, out: self.out@ }
    }
}

impl View for LeafRow {
    type V = LeafRowView;

    open spec fn view(&self) -> LeafRowView {
        LeafRowView { name: self.name@, out: self.out@, restoration: self.restoration@ }
    }
}

/// The smaller of two integers.
pub open spec fn min2(a: int, b: int) -> int {
    if a <= b {
        a
    } else {
        b
    }
}

/// Four columns joined position by position; the row count is the length of
/// the shortest column, and the entries beyond it are dropped.
pub open spec fn zip_region_spec(
    names: Seq<Seq<char>>,
    hrefs: Seq<Seq<char>>,
    totals: Seq<Seq<char>>,
    outs: Seq<Seq<char>>,
) -> Seq<RegionRowView> {
    Seq::new(
        min2(min2(names.len() as int, hrefs.len() as int), min2(totals.len() as int, outs.len() as int)) as nat,
        |i: int| RegionRowView { name: names[i], href: hrefs[i], total: totals[i], out: outs[i] },
    )
}

/// Three columns joined position by position; the row count is the length of
/// the shortest column.
pub open spec fn zip_leaf_spec(
    names: Seq<Seq<char>>,
    outs: Seq<Seq<char>>,
    restorations: Seq<Seq<char>>,
) -> Seq<LeafRowView> {
    Seq::new(
        min2(min2(names.len() as int, outs.len() as int), restorations.len() as int) as nat,
        |i: int| LeafRowView { name: names[i], out: outs[i], restoration: restorations[i] },
    )
}

/// The views of a sequence of region rows, in order.
pub open spec fn region_views(s: Seq<RegionRow>) -> Seq<RegionRowView> {
    s.map_values(|r: RegionRow| r@)
}

/// The views of a sequence of leaf rows, in order.
pub open spec fn leaf_views(s: Seq<LeafRow>) -> Seq<LeafRowView> {
    s.map_values(|r: LeafRow| r@)
}

/// Four columns of unequal lengths make as many region rows as the shortest
/// of them holds, row `i` taking entry `i` of each column; the entries beyond
/// are dropped.
pub proof fn law_region_rows_shortest_column(
    names: Seq<Seq<char>>,
    hrefs: Seq<Seq<char>>,
    totals: Seq<Seq<char>>,
    outs: Seq<Seq<char>>,
)
    ensures
        zip_region_spec(names, hrefs, totals, outs).len() == min2(
            min2(names.len() as int, hrefs.len() as int),
            min2(totals.len() as int, outs.len() as int),
        ),
        forall|i: int|
            0 <= i < zip_region_spec(names, hrefs, totals, outs).len() ==> #[trigger] zip_region_spec(
                names,
                hrefs,
                totals,
                outs,
            )[i] == (RegionRowView { name: names[i], href: hrefs[i], total: totals[i], out: outs[i] }),
{
}

/// Three columns of unequal lengths make as many leaf rows as the shortest of
/// them holds, row `i` taking entry `i` of each column.
pub proof fn law_leaf_rows_shortest_column(
    names: Seq<Seq<char>>,
    outs: Seq<Seq<char>>,
    restorations: Seq<Seq<char>>,
)
    ensures
        zip_leaf_spec(names, outs, restorations).len() == min2(
            min2(names.len() as int, outs.len() as int),
            restorations.len() as int,
        ),
        forall|i: int|
            0 <= i < zip_leaf_spec(names, outs, restorations).len() ==> #[trigger] zip_leaf_spec(
                names,
                outs,
                restorations,
            )[i] == (LeafRowView { name: names[i], out: outs[i], restoration: restorations[i] }),
{
}

/// Joins the four parallel columns of a region table into rows.
pub fn zip_region_rows(
    names: &Vec<String>,
    hrefs: &Vec<String>,
    totals: &Vec<String>,
    outs: &Vec<String>,
) -> (r: Vec<RegionRow>)
    ensures
        region_views(r@) == zip_region_spec(
            names.deep_view(),
            hrefs.deep_view(),
            totals.deep_view(),
            outs.deep_view(),
        ),
{
    let mut n = names.len();
    if hrefs.len() < n {
        n = hrefs.len();
    }
    if totals.len() < n {
        n = totals.len();
    }
    if outs.len() < n {
        n = outs.len();
    }
    let ghost want = zip_region_spec(
        names.deep_view(),
        hrefs.deep_view(),
        totals.deep_view(),
        outs.deep_view(),
    );
    let mut rows: Vec<RegionRow> = Vec::new();
    let mut i: usize = 0;
    while i < n
        invariant
            n == want.len(),
            n <= names.len() && n <= hrefs.len() && n <= totals.len() && n <= outs.len(),
            want == zip_region_spec(
                names.deep_view(),
                hrefs.deep_view(),
                totals.deep_view(),
                outs.deep_view(),
            ),
            i <= n,
            region_views(rows@) == want.take(i as int),
        decreases n - i,
    {
        let row = RegionRow {
            name: names[i].clone(),
            href: hrefs[i].clone(),
            total: totals[i].clone(),
            out: outs[i].clone(),
        };
        proof {
            assert(names.deep_view()[i as int] == names@[i as int]@);
            assert(hrefs.deep_view()[i as int] == hrefs@[i as int]@);
            assert(totals.deep_view()[i as int] == totals@[i as int]@);
            assert(outs.deep_view()[i as int] == outs@[i as int]@);
        }
        assert(row@ == want[i as int]);
        let ghost before = rows@;
        rows.push(row);
        proof {
            assert(rows@ =~= before.push(row));
            assert(region_views(rows@) =~= region_views(before).push(want[i as int]));
            assert(want.take(i as int + 1) =~= want.take(i as int).push(want[i as int]));
        }
        i = i + 1;
    }
    proof {
        assert(want.take(n as int) =~= want);
    }
    rows
}

/// Joins the three parallel columns of a leaf table into rows.
pub fn zip_leaf_rows(names: &Vec<String>, outs: &Vec<String>, restorations: &Vec<String>) -> (r:
    Vec<LeafRow>)
    ensures
        leaf_views(r@) == zip_leaf_spec(
            names.deep_view(),
            outs.deep_view(),
            restorations.deep_view(),
        ),
{
    let mut n = names.len();
    if outs.len() < n {
        n = outs.len();
    }
    if restorations.len() < n {
        n = restorations.len();
    }
    let ghost want = zip_leaf_spec(names.deep_view(), outs.deep_view(), restorations.deep_view());
    let mut rows: Vec<LeafRow> = Vec::new();
    let mut i: usize = 0;
    while i < n
        invariant
            n == want.len(),
            n <= names.len() && n <= outs.len() && n <= restorations.len(),
            want == zip_leaf_spec(names.deep_view(), outs.deep_view(), restorations.deep_view()),
            i <= n,
            leaf_views(rows@) == want.take(i as int),
        decreases n - i,
    {
        let row = LeafRow {
            name: names[i].clone(),
            out: outs[i].clone(),
            restoration: restorations[i].clone(),
        };
        proof {
            assert(names.deep_view()[i as int] == names@[i as int]@);
            assert(outs.deep_view()[i as int] == outs@[i as int]@);
            assert(restorations.deep_view()[i as int] == restorations@[i as int]@);
        }
        assert(row@ == want[i as int]);
        let ghost before = rows@;
        rows.push(row);
        proof {
            assert(rows@ =~= before.push(row));
            assert(leaf_views(rows@) =~= leaf_views(before).push(want[i as int]));
            assert(want.take(i as int + 1) =~= want.take(i as int).push(want[i as int]));
        }
        i = i + 1;
    }
    proof {
        assert(want.take(n as int) =~= want);
    }
    rows
}

/// The prefix the portal puts before its update time.
pub open spec fn update_prefix() -> Seq<char> {
    seq!['U', 'p', 'd', 'a', 't', 'e', ':', ' ']
}

/// The update text with a leading "Update: " removed, where present.
pub open spec fn strip_update_spec(s: Seq<char>) -> Seq<char> {
    if s.len() >= 8 && s.take(8) == update_prefix() {
        s.skip(8)
    } else {
        s
    }
}

/// Removes a leading "Update: " from the portal's timestamp line.
pub fn strip_update_prefix(s: &str) -> (r: String)
    ensures
        r@ == strip_update_spec(s@),
{
    let prefix = "Update: ";
    proof {
        reveal_strlit("Update: ");
        assert(prefix@ =~= update_prefix());
    }
    let n = s.unicode_len();
    if n < 8 {
        return s.to_string();
    }
    let mut i: usize = 0;
    while i < 8
        invariant
            n == s@.len(),
            8 <= n,
            prefix@ == update_prefix(),
            i <= 8,
            forall|j: int| 0 <= j < i ==> s@[j] == update_prefix()[j],
        decreases 8 - i,
    {
        if s.get_char(i) != prefix.get_char(i) {
            proof {
                assert(s@.take(8)[i as int] != update_prefix()[i as int]);
            }
            return s.to_string();
        }
        i = i + 1;
    }
    proof {
        assert(s@.take(8) =~= update_prefix());
    }
    s.substring_char(8, n).to_string()
}

/// A column of the page: the inner HTML of every match of `selector`.
pub open spec fn column_spec(html: Seq<char>, selector: Seq<char>) -> Result<
    Seq<Seq<char>>,
    ScrapeError,
> {
    if selector_valid(selector) {
        Ok(inner_html_of(html, selector))
    } else {
        Err(ScrapeError::InvalidSelector)
    }
}

/// A column of attribute values: every match of `selector` must carry `attr`.
pub open spec fn attr_column_spec(html: Seq<char>, selector: Seq<char>, attr: Seq<char>) -> Result<
    Seq<Seq<char>>,
    ScrapeError,
> {
    if !selector_valid(selector) {
        Err(ScrapeError::InvalidSelector)
    } else if !all_present(attr_values_of(html, selector, attr)) {
        Err(ScrapeError::MissingAttribute)
    } else {
        Ok(unwrap_all(attr_values_of(html, selector, attr)))
    }
}

/// The rows of a region or sub-region table, read from its four columns in
/// the order name, link, total, out; the first failing column decides the
/// error.
pub open spec fn region_rows_spec(html: Seq<char>) -> Result<Seq<RegionRowView>, ScrapeError> {
    match column_spec(html, TD_1_A@) {
        Err(e) => Err(e),
        Ok(names) => region_rows_after_names(html, names),
    }
}

/// The rows of a region table once its name column has been read.
pub open spec fn region_rows_after_names(html: Seq<char>, names: Seq<Seq<char>>) -> Result<
    Seq<RegionRowView>,
    ScrapeError,
> {
    match attr_column_spec(html, TD_1_A@, HREF@) {
        Err(e) => Err(e),
        Ok(hrefs) => match column_spec(html, TD_2@) {
            Err(e) => Err(e),
            Ok(totals) => match column_spec(html, TD_3@) {
                Err(e) => Err(e),
                Ok(outs) => Ok(zip_region_spec(names, hrefs, totals, outs)),
            },
        },
    }
}

/// The rows of a leaf table, read from its first, third and fourth columns.
pub open spec fn leaf_rows_spec(html: Seq<char>) -> Result<Seq<LeafRowView>, ScrapeError> {
    match column_spec(html, TD_1@) {
        Err(e) => Err(e),
        Ok(names) => match column_spec(html, TD_3@) {
            Err(e) => Err(e),
            Ok(outs) => match column_spec(html, TD_4@) {
                Err(e) => Err(e),
                Ok(restorations) => Ok(zip_leaf_spec(names, outs, restorations)),
            },
        },
    }
}

fn column(doc: &Document, selector: &str) -> (r: Result<Vec<String>, ScrapeError>)
    ensures
        r matches Ok(v) ==> column_spec(doc.source(), selector@) == Ok::<
            Seq<Seq<char>>,
            ScrapeError,
        >(v.deep_view()),
        r matches Err(e) ==> column_spec(doc.source(), selector@) == Err::<
            Seq<Seq<char>>,
            ScrapeError,
        >(e),
{
    html_nodes(doc, selector)
}

fn attr_column(doc: &Document, selector: &str, attr: &str) -> (r: Result<
    Vec<String>,
    ScrapeError,
>)
    ensures
        r matches Ok(v) ==> attr_column_spec(doc.source(), selector@, attr@) == Ok::<
            Seq<Seq<char>>,
            ScrapeError,
        >(v.deep_view()),
        r matches Err(e) ==> attr_column_spec(doc.source(), selector@, attr@) == Err::<
            Seq<Seq<char>>,
            ScrapeError,
        >(e),
{
    html_nodes_attr(doc, selector, attr)
}

fn region_rows_from(doc: &Document, names: &Vec<String>) -> (r: Result<
    Vec<RegionRow>,
    ScrapeError,
>)
    ensures
        r matches Ok(v) ==> region_rows_after_names(doc.source(), names.deep_view()) == Ok::<
            Seq<RegionRowView>,
            ScrapeError,
        >(region_views(v@)),
        r matches Err(e) ==> region_rows_after_names(doc.source(), names.deep_view()) == Err::<
            Seq<RegionRowView>,
            ScrapeError,
        >(e),
{
    let hrefs = attr_column(doc, TD_1_A, HREF)?;
    let totals = column(doc, TD_2)?;
    let outs = column(doc, TD_3)?;
    Ok(zip_region_rows(names, &hrefs, &totals, &outs))
}

/// Reads the rows of a region or sub-region page.
pub fn region_rows(doc: &Document) -> (r: Result<Vec<RegionRow>, ScrapeError>)
    ensures
        r matches Ok(v) ==> region_rows_spec(doc.source()) == Ok::<
            Seq<RegionRowView>,
            ScrapeError,
        >(region_views(v@)),
        r matches Err(e) ==> region_rows_spec(doc.source()) == Err::<
            Seq<RegionRowView>,
            ScrapeError,
        >(e),
{
    let names = column(doc, TD_1_A)?;
    region_rows_from(doc, &names)
}

/// Reads the rows of a leaf page.
pub fn leaf_rows(doc: &Document) -> (r: Result<Vec<LeafRow>, ScrapeError>)
    ensures
        r matches Ok(v) ==> leaf_rows_spec(doc.source()) == Ok::<Seq<LeafRowView>, ScrapeError>(
            leaf_views(v@),
        ),
        r matches Err(e) ==> leaf_rows_spec(doc.source()) == Err::<
            Seq<LeafRowView>,
            ScrapeError,
        >(e),
{
    let names = column(doc, TD_1)?;
    let outs = column(doc, TD_3)?;
    let restorations = column(doc, TD_4)?;
    Ok(zip_leaf_rows(&names, &outs, &restorations))
}

/// What the top-level page holds: the portal's update text, and either no
/// region at all or the rows of its region table.
#[derive(Debug, Clone)]
pub enum TopPage {
    Empty { update: String },
    Regions { update: String, rows: Vec<RegionRow> },
}

/// The mathematical value of a [`TopPage`].
pub ghost enum TopPageView {
    Empty { update: Seq<char> },
    Regions { update: Seq<char>, rows: Seq<RegionRowView> },
}

impl View for TopPage {
    type V = TopPageView;

    open spec fn view(&self) -> TopPageView {
        match self {
            TopPage::Empty { update } => TopPageView::Empty { update: update@ },
            TopPage::Regions { update, rows } => TopPageView::Regions {
                update: update@,
                rows: region_views(rows@),
            },
        }
    }
}

/// The top-level page: its first timestamp line (which must exist) with the
/// "Update: " prefix removed; no region when the region-name column is empty,
/// else the rows of the region table.
pub open spec fn top_page_spec(html: Seq<char>) -> Result<TopPageView, ScrapeError> {
    match column_spec(html, TIMESTAMP_SELECTOR@) {
        Err(e) => Err(e),
        Ok(stamps) => if stamps.len() == 0 {
            Err(ScrapeError::MissingNode)
        } else {
            let update = strip_update_spec(stamps[0]);
            match column_spec(html, TD_1_A@) {
                Err(e) => Err(e),
                Ok(names) => if names.len() == 0 {
                    Ok(TopPageView::Empty { update })
                } else {
                    match region_rows_after_names(html, names) {
                        Err(e) => Err(e),
                        Ok(rows) => Ok(TopPageView::Regions { update, rows }),
                    }
                },
            }
        },
    }
}

/// Reads the top-level page.
pub fn top_page(doc: &Document) -> (r: Result<TopPage, ScrapeError>)
    ensures
        r matches Ok(p) ==> top_page_spec(doc.source()) == Ok::<TopPageView, ScrapeError>(p@),
        r matches Err(e) ==> top_page_spec(doc.source()) == Err::<TopPageView, ScrapeError>(e),
{
    let stamps = column(doc, TIMESTAMP_SELECTOR)?;
    if stamps.len() == 0 {
        return Err(ScrapeError::MissingNode);
    }
    proof {
        assert(stamps.deep_view()[0] == stamps@[0]@);
    }
    let update = strip_update_prefix(stamps[0].as_str());
    let names = column(doc, TD_1_A)?;
    if names.len() == 0 {
        return Ok(TopPage::Empty { update });
    }
    let rows = region_rows_from(doc, &names)?;
    Ok(TopPage::Regions { update, rows })
}

} // verus!
