use mepower::{Action, Event, ScrapeError, Stage, Walker};

const BASE: &str = "https://portal.test/Reports";

const TOP: &str = "<html><body><p align='right'>Update: Oct 11, 2022 12:40 AM</p>\
<table><tr><td><a href=\"york.html\">YORK</a></td><td>100</td><td>5</td></tr></table></body></html>";

const REGION: &str = "<html><body><table>\
<tr><td><a href=\"kittery.html\">KITTERY</a></td><td>20</td><td>5</td></tr></table></body></html>";

const LEAF: &str = "<html><body><table>\
<tr><td>MAIN ST</td><td>x</td><td>5</td><td>11:00 PM</td></tr></table></body></html>";

const EMPTY_TOP: &str = "<html><body><p align='right'>Update: Oct 11, 2022 12:40 AM</p>\
<table></table></body></html>";

fn fetch_url(a: Action) -> String {
    match a {
        Action::Fetch(url) => url,
        other => panic!("expected a fetch, got {:?}", other),
    }
}

#[test]
fn walker_end_to_end() {
    let (mut w, url) = Walker::start(BASE);
    assert_eq!(url, "https://portal.test/Reports/CMP.html");
    assert_eq!(w.stage(), Stage::Top);
    let url = fetch_url(w.step(Event::Page(TOP.to_string())));
    assert_eq!(url, "https://portal.test/Reports/york.html");
    assert_eq!(w.stage(), Stage::Region);
    let url = fetch_url(w.step(Event::Page(REGION.to_string())));
    assert_eq!(url, "https://portal.test/Reports/kittery.html");
    assert_eq!(w.stage(), Stage::Leaf);
    let records = match w.step(Event::Page(LEAF.to_string())) {
        Action::Finish(recs) => recs,
        other => panic!("expected records, got {:?}", other),
    };
    assert_eq!(w.stage(), Stage::Finished);
    assert_eq!(records.len(), 1);
    let r = &records[0];
    assert_eq!(r.outage_update, "Oct 11, 2022 12:40 AM");
    assert_eq!(r.county.as_deref(), Some("York"));
    assert_eq!(r.county_total.as_deref(), Some("100"));
    assert_eq!(r.county_out.as_deref(), Some("5"));
    assert_eq!(r.muni.as_deref(), Some("Kittery"));
    assert_eq!(r.muni_total.as_deref(), Some("20"));
    assert_eq!(r.muni_out.as_deref(), Some("5"));
    assert_eq!(r.street.as_deref(), Some("Main St"));
    assert_eq!(r.street_out.as_deref(), Some("5"));
    assert_eq!(r.street_restoration.as_deref(), Some("11:00 PM"));
    assert_eq!(r.message, "");
}

#[test]
fn walker_two_regions_two_subs_each() {
    let top = "<html><body><p align='right'>Update: T</p><table>\
<tr><td><a href=\"a.html\">A</a></td><td>1</td><td>1</td></tr>\
<tr><td><a href=\"b.html\">B</a></td><td>2</td><td>2</td></tr></table></body></html>";
    let region = "<html><body><table>\
<tr><td><a href=\"x.html\">X</a></td><td>1</td><td>1</td></tr>\
<tr><td><a href=\"y.html\">Y</a></td><td>1</td><td>1</td></tr></table></body></html>";
    let leaf = "<html><body><table><tr><td>ELM ST</td><td></td><td>1</td><td>soon</td></tr></table></body></html>";
    let (mut w, _) = Walker::start("b");
    let mut urls = Vec::new();
    urls.push(fetch_url(w.step(Event::Page(top.to_string()))));
    urls.push(fetch_url(w.step(Event::Page(region.to_string()))));
    urls.push(fetch_url(w.step(Event::Page(leaf.to_string()))));
    urls.push(fetch_url(w.step(Event::Page(leaf.to_string()))));
    urls.push(fetch_url(w.step(Event::Page(region.to_string()))));
    urls.push(fetch_url(w.step(Event::Page(leaf.to_string()))));
    assert_eq!(urls, vec!["b/a.html", "b/x.html", "b/y.html", "b/b.html", "b/x.html", "b/y.html"]);
    let records = match w.step(Event::Page(leaf.to_string())) {
        Action::Finish(recs) => recs,
        other => panic!("expected records, got {:?}", other),
    };
    assert_eq!(records.len(), 4);
    let order: Vec<(String, String)> = records
        .iter()
        .map(|r| (r.county.clone().unwrap(), r.muni.clone().unwrap()))
        .collect();
    assert_eq!(
        order,
        vec![
            ("A".to_string(), "X".to_string()),
            ("A".to_string(), "Y".to_string()),
            ("B".to_string(), "X".to_string()),
            ("B".to_string(), "Y".to_string()),
        ]
    );
    assert!(records.iter().all(|r| r.message.is_empty() && r.street.as_deref() == Some("Elm St")));
}

#[test]
fn walker_empty_top_page() {
    let (mut w, _) = Walker::start(BASE);
    match w.step(Event::Page(EMPTY_TOP.to_string())) {
        Action::Finish(recs) => {
            assert_eq!(recs.len(), 1);
            assert_eq!(recs[0].message, "No outage data found.");
            assert_eq!(recs[0].outage_update, "Oct 11, 2022 12:40 AM");
            assert!(recs[0].county.is_none() && recs[0].street.is_none());
        },
        other => panic!("expected one record, got {:?}", other),
    }
    assert_eq!(w.stage(), Stage::Finished);
}

#[test]
fn walker_unreachable_top_page() {
    let (mut w, _) = Walker::start(BASE);
    match w.step(Event::Unreachable("Oct 19, 2026 10:00:00".to_string())) {
        Action::Finish(recs) => {
            assert_eq!(recs.len(), 1);
            assert_eq!(recs[0].message, "Scraping Error");
            assert_eq!(recs[0].outage_update, "Oct 19, 2026 10:00:00");
            assert!(recs[0].county.is_none() && recs[0].street_restoration.is_none());
        },
        other => panic!("expected one record, got {:?}", other),
    }
}

#[test]
fn walker_unreachable_region_page_aborts() {
    let (mut w, _) = Walker::start(BASE);
    fetch_url(w.step(Event::Page(TOP.to_string())));
    match w.step(Event::Unreachable("now".to_string())) {
        Action::Abort(e) => assert_eq!(e, ScrapeError::Unreachable),
        other => panic!("expected abort, got {:?}", other),
    }
    assert_eq!(w.stage(), Stage::Finished);
}

#[test]
fn walker_region_without_sub_regions_moves_on() {
    let (mut w, _) = Walker::start(BASE);
    fetch_url(w.step(Event::Page(TOP.to_string())));
    match w.step(Event::Page("<html><body><table></table></body></html>".to_string())) {
        Action::Finish(recs) => assert!(recs.is_empty()),
        other => panic!("expected no records, got {:?}", other),
    }
}

#[test]
fn walker_top_page_without_timestamp_aborts() {
    let (mut w, _) = Walker::start(BASE);
    match w.step(Event::Page("<html><body></body></html>".to_string())) {
        Action::Abort(e) => assert_eq!(e, ScrapeError::MissingNode),
        other => panic!("expected abort, got {:?}", other),
    }
}
