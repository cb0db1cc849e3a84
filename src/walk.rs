use vstd::prelude::*;

use crate::extract::{Document, ScrapeError};
use crate::record::{
    diagnostic_view, empty_record, error_record, no_data_message, record_views,
    scraping_error_message, OutageRecord,
};
use crate::report::{page_url, top_url, walk_records, walk_records_spec, RegionBranch, SubRegionBranch};
use crate::table::{
    leaf_rows, leaf_rows_spec, leaf_views, region_rows, region_rows_spec, region_views,
    top_page, top_page_spec, RegionRow, TopPage, TopPageView,
};

verus! {

/// Which page the walk waits for.
#[derive(Debug, Clone, Copy, PartialEq, Eq, Structural)]
pub enum Stage {
    Top,
    Region,
    Leaf,
    Finished,
}

/// What came back from fetching the page the walk asked for.
#[derive(Debug, Clone)]
pub enum Event {
    /// The page's text.
    Page(String),
    /// The page could not be fetched; carries the current time as text.
    Unreachable(String),
}

/// What the walk asks for next.
#[derive(Debug, Clone)]
pub enum Action {
    /// Fetch this URL and hand back what came of it.
    Fetch(String),
    /// The walk is over; these are its records.
    Finish(Vec<OutageRecord>),
    /// The walk cannot go on.
    Abort(ScrapeError),
}

/// The hierarchy walk: fetches the top-level page, then each region's page,
/// then each sub-region's page, in table order, and joins what they hold.
pub struct Walker {
    base: String,
    stage: Stage,
    update: String,
    regions: Vec<RegionRow>,
    subs: Vec<RegionRow>,
    current: Vec<SubRegionBranch>,
    done: Vec<RegionBranch>,
}

impl Walker {
    /// The portal base that every URL is joined to.
    pub closed spec fn base(&self) -> Seq<char> {
        self.base@
    }

    /// Which page the walk waits for.
    pub closed spec fn stage_of(&self) -> Stage {
        self.stage
    }

    /// The portal's update text, once the top-level page has been read.
    pub closed spec fn update(&self) -> Seq<char> {
        self.update@
    }

    /// The rows of the top-level table.
    pub closed spec fn regions(&self) -> Seq<RegionRow> {
        self.regions@
    }

    /// The sub-region rows of the region being walked.
    pub closed spec fn subs(&self) -> Seq<RegionRow> {
        self.subs@
    }

    /// The sub-regions of the region being walked that are complete.
    pub closed spec fn current(&self) -> Seq<SubRegionBranch> {
        self.current@
    }

    /// The regions that are complete.
    pub closed spec fn done(&self) -> Seq<RegionBranch> {
        self.done@
    }

    /// Rows of completed branches match the table rows they came from, and
    /// the row the walk waits for exists.
    pub closed spec fn wf(&self) -> bool {
        &&& self.done@.len() <= self.regions@.len()
        &&& self.stage == Stage::Region ==> self.done@.len() < self.regions@.len()
            && self.current@.len() == 0
        &&& self.stage == Stage::Leaf ==> self.done@.len() < self.regions@.len()
            && self.current@.len() < self.subs@.len()
        &&& forall|i: int|
            0 <= i < self.done@.len() ==> (#[trigger] self.done@[i]).row@ == self.regions@[i]@
        &&& forall|j: int|
            0 <= j < self.current@.len() ==> (#[trigger] self.current@[j]).row@ == self.subs@[j]@
    }

    /// The URL of the page the walk waits for.
    pub open spec fn pending_url(&self) -> Seq<char> {
        if self.stage_of() == Stage::Region {
            self.base() + seq!['/'] + self.regions()[self.done().len() as int].href@
        } else {
            self.base() + seq!['/'] + self.subs()[self.current().len() as int].href@
        }
    }

    /// After a region is complete: the next region's page, or the records of
    /// the whole walk once no region is left.
    pub open spec fn next_region_action(&self, r: Action) -> bool {
        if self.done().len() < self.regions().len() {
            &&& self.stage_of() == Stage::Region
            &&& r matches Action::Fetch(url) && url@ == self.pending_url()
        } else {
            &&& self.stage_of() == Stage::Finished
            &&& r matches Action::Finish(recs) && record_views(recs@) == walk_records_spec(
                self.update(),
                self.done(),
            )
        }
    }

    /// A walk of the portal under `base`, with the URL of its top-level page.
    pub fn start(base: &str) -> (r: (Walker, String))
        ensures
            r.0.wf(),
            r.0.base() == base@,
            r.0.stage_of() == Stage::Top,
            r.1@ == base@ + seq!['/', 'C', 'M', 'P', '.', 'h', 't', 'm', 'l'],
    {
        let w = Walker {
            base: base.to_string(),
            stage: Stage::Top,
            update: String::new(),
            regions: Vec::new(),
            subs: Vec::new(),
            current: Vec::new(),
            done: Vec::new(),
        };
        (w, top_url(base))
    }

    /// Which page the walk waits for.
    pub fn stage(&self) -> (r: Stage)
        ensures
            r == self.stage_of(),
    {
        self.stage
    }
}

fn copy_row(r: &RegionRow) -> (c: RegionRow)
    ensures
        c@ == r@,
{
    RegionRow {
        name: r.name.clone(),
        href: r.href.clone(),
        total: r.total.clone(),
        out: r.out.clone(),
    }
}

impl Walker {
    closed spec fn rows_match(&self) -> bool {
        &&& self.done@.len() <= self.regions@.len()
        &&& forall|i: int|
            0 <= i < self.done@.len() ==> (#[trigger] self.done@[i]).row@ == self.regions@[i]@
        &&& forall|j: int|
            0 <= j < self.current@.len() ==> (#[trigger] self.current@[j]).row@ == self.subs@[j]@
    }

    fn next_region(&mut self) -> (r: Action)
        requires
            old(self).rows_match(),
            old(self).current@.len() == 0,
        ensures
            final(self).wf(),
            final(self).base == old(self).base,
            final(self).update == old(self).update,
            final(self).regions == old(self).regions,
            final(self).subs == old(self).subs,
            final(self).current == old(self).current,
            final(self).done == old(self).done,
            final(self).next_region_action(r),
    {
        let i = self.done.len();
        if i < self.regions.len() {
            self.stage = Stage::Region;
            let url = page_url(self.base.as_str(), self.regions[i].href.as_str());
            Action::Fetch(url)
        } else {
            self.stage = Stage::Finished;
            Action::Finish(walk_records(&self.update, &self.done))
        }
    }

    fn close_region(&mut self) -> (r: Action)
        requires
            old(self).rows_match(),
            old(self).done@.len() < old(self).regions@.len(),
        ensures
            final(self).wf(),
            final(self).base == old(self).base,
            final(self).update == old(self).update,
            final(self).regions == old(self).regions,
            final(self).done@.len() == old(self).done@.len() + 1,
            final(self).done@.take(old(self).done@.len() as int) == old(self).done@,
            final(self).done@.last().row@ == old(self).regions@[old(self).done@.len() as int]@,
            final(self).done@.last().subs@ == old(self).current@,
            final(self).next_region_action(r),
    {
        let row = copy_row(&self.regions[self.done.len()]);
        let mut subs: Vec<SubRegionBranch> = Vec::new();
        std::mem::swap(&mut subs, &mut self.current);
        let ghost before = self.done@;
        self.done.push(RegionBranch { row, subs });
        proof {
            assert(self.done@.take(before.len() as int) =~= before);
        }
        self.next_region()
    }
}

/// The walk after the top-level page `text` arrived.
pub open spec fn top_step(pre: Walker, post: Walker, text: Seq<char>, r: Action) -> bool {
    match top_page_spec(text) {
        Err(e) => post.stage_of() == Stage::Finished && r == Action::Abort(e),
        Ok(TopPageView::Empty { update }) => {
            &&& post.stage_of() == Stage::Finished
            &&& r matches Action::Finish(recs) && record_views(recs@) == seq![
                diagnostic_view(update, no_data_message()),
            ]
        },
        Ok(TopPageView::Regions { update, rows }) => {
            &&& post.update() == update
            &&& region_views(post.regions()) == rows
            &&& post.done().len() == 0
            &&& post.next_region_action(r)
        },
    }
}

/// The walk after the page of the region it waited for arrived.
pub open spec fn region_step(pre: Walker, post: Walker, text: Seq<char>, r: Action) -> bool {
    let i = pre.done().len() as int;
    match region_rows_spec(text) {
        Err(e) => post.stage_of() == Stage::Finished && r == Action::Abort(e),
        Ok(rows) => {
            &&& post.update() == pre.update()
            &&& post.regions() == pre.regions()
            &&& if rows.len() == 0 {
                &&& post.done().len() == i + 1
                &&& post.done().take(i) == pre.done()
                &&& post.done()[i].row@ == pre.regions()[i]@
                &&& post.done()[i].subs@.len() == 0
                &&& post.next_region_action(r)
            } else {
                &&& post.stage_of() == Stage::Leaf
                &&& region_views(post.subs()) == rows
                &&& post.done() == pre.done()
                &&& post.current().len() == 0
                &&& r matches Action::Fetch(url) && url@ == post.pending_url()
            }
        },
    }
}

/// The walk after the page of the sub-region it waited for arrived.
pub open spec fn leaf_step(pre: Walker, post: Walker, text: Seq<char>, r: Action) -> bool {
    let i = pre.done().len() as int;
    let j = pre.current().len() as int;
    match leaf_rows_spec(text) {
        Err(e) => post.stage_of() == Stage::Finished && r == Action::Abort(e),
        Ok(leaves) => {
            &&& post.update() == pre.update()
            &&& post.regions() == pre.regions()
            &&& if j + 1 < pre.subs().len() {
                &&& post.stage_of() == Stage::Leaf
                &&& post.subs() == pre.subs()
                &&& post.done() == pre.done()
                &&& post.current().len() == j + 1
                &&& post.current().take(j) == pre.current()
                &&& post.current()[j].row@ == pre.subs()[j]@
                &&& leaf_views(post.current()[j].leaves@) == leaves
                &&& r matches Action::Fetch(url) && url@ == post.pending_url()
            } else {
                &&& post.done().len() == i + 1
                &&& post.done().take(i) == pre.done()
                &&& post.done()[i].row@ == pre.regions()[i]@
                &&& post.done()[i].subs@.len() == j + 1
                &&& post.done()[i].subs@.take(j) == pre.current()
                &&& post.done()[i].subs@[j].row@ == pre.subs()[j]@
                &&& leaf_views(post.done()[i].subs@[j].leaves@) == leaves
                &&& post.next_region_action(r)
            }
        },
    }
}

impl Walker {
    /// Advances the walk by what came of fetching the page it asked for.
    /// The top-level page being unreachable ends the walk with the single
    /// error record; a page below it being unreachable, or any page not
    /// reading as expected, aborts the walk.
    pub fn step(&mut self, event: Event) -> (r: Action)
        requires
            old(self).wf(),
            old(self).stage_of() != Stage::Finished,
        ensures
            final(self).wf(),
            final(self).base() == old(self).base(),
            match event {
                Event::Unreachable(now) => if old(self).stage_of() == Stage::Top {
                    &&& final(self).stage_of() == Stage::Finished
                    &&& r matches Action::Finish(recs) && record_views(recs@) == seq![
                        diagnostic_view(now@, scraping_error_message()),
                    ]
                } else {
                    final(self).stage_of() == Stage::Finished && r == Action::Abort(
                        ScrapeError::Unreachable,
                    )
                },
                Event::Page(text) => match old(self).stage_of() {
                    Stage::Top => top_step(*old(self), *final(self), text@, r),
                    Stage::Region => region_step(*old(self), *final(self), text@, r),
                    _ => leaf_step(*old(self), *final(self), text@, r),
                },
            },
    {
        match event {
            Event::Unreachable(now) => {
                if self.stage == Stage::Top {
                    self.stage = Stage::Finished;
                    let rec = error_record(now);
                    let recs = vec![rec];
                    assert(record_views(recs@) =~= seq![diagnostic_view(now@, scraping_error_message())]);
                    Action::Finish(recs)
                } else {
                    self.stage = Stage::Finished;
                    Action::Abort(ScrapeError::Unreachable)
                }
            },
            Event::Page(text) => {
                let doc = Document::parse(text.as_str());
                match self.stage {
                    Stage::Top => self.on_top_page(&doc),
                    Stage::Region => self.on_region_page(&doc),
                    _ => self.on_leaf_page(&doc),
                }
            },
        }
    }

    fn on_top_page(&mut self, doc: &Document) -> (r: Action)
        requires
            old(self).wf(),
            old(self).stage == Stage::Top,
        ensures
            final(self).wf(),
            final(self).base == old(self).base,
            top_step(*old(self), *final(self), doc.source(), r),
    {
        match top_page(doc) {
            Err(e) => {
                self.stage = Stage::Finished;
                Action::Abort(e)
            },
            Ok(TopPage::Empty { update }) => {
                self.stage = Stage::Finished;
                let rec = empty_record(update);
                let recs = vec![rec];
                assert(record_views(recs@) =~= seq![diagnostic_view(rec@.outage_update, no_data_message())]);
                Action::Finish(recs)
            },
            Ok(TopPage::Regions { update, rows }) => {
                self.update = update;
                self.regions = rows;
                self.subs = Vec::new();
                self.current = Vec::new();
                self.done = Vec::new();
                self.next_region()
            },
        }
    }

    fn on_region_page(&mut self, doc: &Document) -> (r: Action)
        requires
            old(self).wf(),
            old(self).stage == Stage::Region,
        ensures
            final(self).wf(),
            final(self).base == old(self).base,
            region_step(*old(self), *final(self), doc.source(), r),
    {
        match region_rows(doc) {
            Err(e) => {
                self.stage = Stage::Finished;
                Action::Abort(e)
            },
            Ok(rows) => {
                self.subs = rows;
                if self.subs.len() == 0 {
                    self.close_region()
                } else {
                    self.stage = Stage::Leaf;
                    let url = page_url(self.base.as_str(), self.subs[0].href.as_str());
                    Action::Fetch(url)
                }
            },
        }
    }

    fn on_leaf_page(&mut self, doc: &Document) -> (r: Action)
        requires
            old(self).wf(),
            old(self).stage == Stage::Leaf,
        ensures
            final(self).wf(),
            final(self).base == old(self).base,
            leaf_step(*old(self), *final(self), doc.source(), r),
    {
        match leaf_rows(doc) {
            Err(e) => {
                self.stage = Stage::Finished;
                Action::Abort(e)
            },
            Ok(leaves) => {
                let j = self.current.len();
                let row = copy_row(&self.subs[j]);
                let ghost before = self.current@;
                self.current.push(SubRegionBranch { row, leaves });
                proof {
                    assert(self.current@.take(j as int) =~= before);
                }
                if self.current.len() < self.subs.len() {
                    let url = page_url(self.base.as_str(), self.subs[j + 1].href.as_str());
                    Action::Fetch(url)
                } else {
                    self.close_region()
                }
            },
        }
    }
}

} // verus!
