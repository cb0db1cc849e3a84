//! Flattens a three-level outage report (region, sub-region, leaf location)
//! into one record per leaf location.
//!
//! Fetching pages and printing JSON happen outside this library; here live the
//! page extraction, the row joining and the record assembly, each with a
//! contract.

pub mod extract;
pub mod record;
pub mod report;
pub mod table;
pub mod walk;

pub use extract::{html_nodes, html_nodes_attr, Document, ScrapeError};
pub use record::{empty_record, error_record, OutageRecord};
pub use report::{assemble, page_url, top_url, RegionBranch, SubRegionBranch, WalkOutcome};
pub use table::{
    leaf_rows, region_rows, strip_update_prefix, top_page, zip_leaf_rows, zip_region_rows,
    LeafRow, RegionRow, TopPage,
};
pub use walk::{Action, Event, Stage, Walker};
