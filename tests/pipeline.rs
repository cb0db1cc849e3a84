use mepower::{
    assemble, empty_record, error_record, html_nodes, html_nodes_attr, leaf_rows, page_url,
    region_rows, strip_update_prefix, top_page, top_url, zip_leaf_rows, zip_region_rows,
    Document, LeafRow, OutageRecord, RegionBranch, RegionRow, ScrapeError, SubRegionBranch,
    TopPage, WalkOutcome,
};

const TOP: &str = "<html><body><p align='right'>Update: Oct 11, 2022 12:40 AM</p>\
<table><tr><th>County</th><th>Total</th><th>Out</th></tr>\
<tr><td><a href=\"york.html\">YORK</a></td><td>100</td><td>5</td></tr></table></body></html>";

const REGION: &str = "<html><body><p align='right'>Update: Oct 11, 2022 12:40 AM</p>\
<table><tr><td><a href=\"kittery.html\">KITTERY</a></td><td>20</td><td>5</td></tr></table></body></html>";

const LEAF: &str = "<html><body><table>\
<tr><td>MAIN ST</td><td>x</td><td>5</td><td>11:00 PM</td></tr></table></body></html>";

const EMPTY_TOP: &str = "<html><body><p align='right'>Update: Oct 11, 2022 12:40 AM</p>\
<table><tr><th>County</th></tr></table></body></html>";

fn s(v: &str) -> String {
    v.to_string()
}

fn strings(v: &[&str]) -> Vec<String> {
    v.iter().map(|x| x.to_string()).collect()
}

fn region(name: &str, href: &str, total: &str, out: &str) -> RegionRow {
    RegionRow { name: s(name), href: s(href), total: s(total), out: s(out) }
}

fn leaf(name: &str, out: &str, restoration: &str) -> LeafRow {
    LeafRow { name: s(name), out: s(out), restoration: s(restoration) }
}

fn assert_diagnostic(r: &OutageRecord) {
    assert!(r.county.is_none() && r.county_total.is_none() && r.county_out.is_none());
    assert!(r.muni.is_none() && r.muni_total.is_none() && r.muni_out.is_none());
    assert!(r.street.is_none() && r.street_out.is_none() && r.street_restoration.is_none());
}

#[test]
fn end_to_end_york_kittery_main_st() {
    let top = match top_page(&Document::parse(TOP)).unwrap() {
        TopPage::Regions { update, rows } => (update, rows),
        TopPage::Empty { .. } => panic!("expected regions"),
    };
    assert_eq!(top.0, "Oct 11, 2022 12:40 AM");
    assert_eq!(top.1.len(), 1);
    assert_eq!(top.1[0].href, "york.html");
    assert_eq!(page_url("https://portal.test/Reports", &top.1[0].href), "https://portal.test/Reports/york.html");

    let subs = region_rows(&Document::parse(REGION)).unwrap();
    assert_eq!(subs.len(), 1);
    assert_eq!(subs[0].href, "kittery.html");
    let leaves = leaf_rows(&Document::parse(LEAF)).unwrap();
    assert_eq!(leaves.len(), 1);

    let outcome = WalkOutcome::Populated {
        update: top.0.clone(),
        regions: vec![RegionBranch {
            row: top.1[0].clone(),
            subs: vec![SubRegionBranch { row: subs[0].clone(), leaves }],
        }],
    };
    let records = assemble(&outcome);
    assert_eq!(records.len(), 1);
    let r = &records[0];
    assert_eq!(r.outage_update, "Oct 11, 2022 12:40 AM");
    assert_eq!(r.county.as_deref(), Some("York"));
    assert_eq!(r.county_total.as_deref(), Some("100"));
    assert_eq!(r.county_out.as_deref(), Some("5"));
    assert_eq!(r.muni.as_deref(), Some("Kittery"));
    assert_eq!(r.muni_total.as_deref(), Some("20"));
    assert_eq!(r.muni_out.as_deref(), Some("5"));
    assert_eq!(r.street.as_deref(), Some("Main St"));
    assert_eq!(r.street_out.as_deref(), Some("5"));
    assert_eq!(r.street_restoration.as_deref(), Some("11:00 PM"));
    assert_eq!(r.message, "");
}

#[test]
fn empty_top_page_gives_one_no_data_record() {
    let update = match top_page(&Document::parse(EMPTY_TOP)).unwrap() {
        TopPage::Empty { update } => update,
        TopPage::Regions { .. } => panic!("expected no regions"),
    };
    let records = assemble(&WalkOutcome::Empty { update });
    assert_eq!(records.len(), 1);
    assert_eq!(records[0].message, "No outage data found.");
    assert_eq!(records[0].outage_update, "Oct 11, 2022 12:40 AM");
    assert_diagnostic(&records[0]);
}

#[test]
fn unreachable_top_page_gives_one_error_record() {
    let records = assemble(&WalkOutcome::Unreachable { now: s("Oct 19, 2026 10:00:00") });
    assert_eq!(records.len(), 1);
    assert_eq!(records[0].message, "Scraping Error");
    assert_eq!(records[0].outage_update, "Oct 19, 2026 10:00:00");
    assert_diagnostic(&records[0]);
}

#[test]
fn diagnostic_records() {
    let e = error_record(s("now"));
    assert_eq!(e.message, "Scraping Error");
    assert_diagnostic(&e);
    let n = empty_record(s("then"));
    assert_eq!(n.message, "No outage data found.");
    assert_eq!(n.outage_update, "then");
    assert_diagnostic(&n);
}

#[test]
fn record_count_and_order_two_by_two_by_two() {
    let mut regions = Vec::new();
    for i in 0..2 {
        let mut subs = Vec::new();
        for j in 0..2 {
            let leaves = (0..2).map(|k| leaf(&format!("st {}{}{}", i, j, k), "1", "soon")).collect();
            subs.push(SubRegionBranch { row: region(&format!("m{}{}", i, j), "m.html", "2", "1"), leaves });
        }
        regions.push(RegionBranch { row: region(&format!("c{}", i), "c.html", "3", "1"), subs });
    }
    let records = assemble(&WalkOutcome::Populated { update: s("t"), regions });
    assert_eq!(records.len(), 8);
    let mut n = 0;
    for i in 0..2 {
        for j in 0..2 {
            for k in 0..2 {
                let r = &records[n];
                assert_eq!(r.county.as_deref(), Some(format!("C{}", i).as_str()));
                assert_eq!(r.muni.as_deref(), Some(format!("M{}{}", i, j).as_str()));
                assert_eq!(r.street.as_deref(), Some(format!("St {}{}{}", i, j, k).as_str()));
                assert_eq!(r.message, "");
                n += 1;
            }
        }
    }
}

#[test]
fn populated_walk_without_regions_gives_no_records() {
    let records = assemble(&WalkOutcome::Populated { update: s("t"), regions: Vec::new() });
    assert!(records.is_empty());
}

#[test]
fn zip_region_rows_truncates_to_shortest_column() {
    let rows = zip_region_rows(
        &strings(&["A", "B", "C"]),
        &strings(&["a.html", "b.html"]),
        &strings(&["10", "20", "30", "40"]),
        &strings(&["1", "2", "3"]),
    );
    assert_eq!(rows.len(), 2);
    assert_eq!(rows[1].name, "B");
    assert_eq!(rows[1].href, "b.html");
    assert_eq!(rows[1].total, "20");
    assert_eq!(rows[1].out, "2");
}

#[test]
fn zip_leaf_rows_truncates_to_shortest_column() {
    let rows = zip_leaf_rows(&strings(&["X", "Y"]), &strings(&["1", "2", "3"]), &strings(&["r"]));
    assert_eq!(rows.len(), 1);
    assert_eq!(rows[0].name, "X");
    assert_eq!(rows[0].out, "1");
    assert_eq!(rows[0].restoration, "r");
}

#[test]
fn unequal_columns_on_a_page_truncate() {
    let page = "<html><body><table>\
<tr><td><a href=\"a.html\">A</a></td><td>10</td><td>1</td></tr>\
<tr><td><a href=\"b.html\">B</a></td><td>20</td></tr></table></body></html>";
    let rows = region_rows(&Document::parse(page)).unwrap();
    assert_eq!(rows.len(), 1);
    assert_eq!(rows[0].name, "A");
}

#[test]
fn strip_update_prefix_cases() {
    assert_eq!(strip_update_prefix("Update: Oct 11"), "Oct 11");
    assert_eq!(strip_update_prefix("Oct 11"), "Oct 11");
    assert_eq!(strip_update_prefix("Upd"), "Upd");
    assert_eq!(strip_update_prefix(""), "");
}

#[test]
fn urls_join_base_and_link() {
    assert_eq!(top_url("https://portal.test/Reports"), "https://portal.test/Reports/CMP.html");
    assert_eq!(page_url("b", "x.html"), "b/x.html");
}

#[test]
fn html_nodes_reads_cells_in_order() {
    let doc = Document::parse(TOP);
    assert_eq!(html_nodes(&doc, "td:nth-child(2)").unwrap(), vec![s("100")]);
    assert_eq!(html_nodes(&doc, "td:nth-child(1) > a").unwrap(), vec![s("YORK")]);
    assert_eq!(html_nodes(&doc, "body > p[align='right']").unwrap(), vec![s("Update: Oct 11, 2022 12:40 AM")]);
}

#[test]
fn html_nodes_rejects_invalid_selector() {
    let doc = Document::parse(TOP);
    assert_eq!(html_nodes(&doc, "td:[[").unwrap_err(), ScrapeError::InvalidSelector);
    assert_eq!(html_nodes_attr(&doc, "td:[[", "href").unwrap_err(), ScrapeError::InvalidSelector);
}

#[test]
fn html_nodes_attr_reads_links_and_reports_missing() {
    let doc = Document::parse(TOP);
    assert_eq!(html_nodes_attr(&doc, "td:nth-child(1) > a", "href").unwrap(), vec![s("york.html")]);
    assert_eq!(html_nodes_attr(&doc, "td:nth-child(2)", "href").unwrap_err(), ScrapeError::MissingAttribute);
}

#[test]
fn top_page_without_timestamp_is_missing_node() {
    let page = "<html><body><table><tr><td>A</td></tr></table></body></html>";
    assert_eq!(top_page(&Document::parse(page)).unwrap_err(), ScrapeError::MissingNode);
}

#[test]
fn title_casing_is_idempotent() {
    for text in ["YORK", "MAIN ST", "kittery point", "Cape Elizabeth", "OLD ORCHARD BEACH"] {
        let once = titlecase::titlecase(text);
        assert_eq!(titlecase::titlecase(&once), once);
    }
}
