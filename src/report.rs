use vstd::prelude::*;

use crate::record::{
    diagnostic_view, empty_record, error_record, location_absent, no_data_message,
    record_views, scraping_error_message, OutageRecord, RecordView,
};
use crate::table::{leaf_views, LeafRow, LeafRowView, RegionRow, RegionRowView};

verus! {

/// What title-casing makes of a text; it depends on the text alone.
pub uninterp spec fn title_of(s: Seq<char>) -> Seq<char>;

/// Relies on titlecase::titlecase: the title-cased form of the text.
#[verifier::external_body]
fn title_case(s: &str) -> (r: String)
    ensures
        r@ == title_of(s@),
{
    titlecase::titlecase(s)
}

/// A sub-region row with the leaf rows of its page.
#[derive(Debug, Clone)]
pub struct SubRegionBranch {
    pub row: RegionRow,
    pub leaves: Vec<LeafRow>,
}

/// A region row with the sub-regions of its page.
#[derive(Debug, Clone)]
pub struct RegionBranch {
    pub row: RegionRow,
    pub subs: Vec<SubRegionBranch>,
}

/// How a run went: the top-level page could not be fetched (stamped with the
/// current time), its table held no rows, or the whole hierarchy was read.
#[derive(Debug, Clone)]
pub enum WalkOutcome {
    Unreachable { now: String },
    Empty { update: String },
    Populated { update: String, regions: Vec<RegionBranch> },
}

/// The record of one leaf: names title-cased, counts and restoration text
/// copied, and an empty message.
pub open spec fn leaf_record_spec(
    update: Seq<char>,
    region: RegionRowView,
    sub: RegionRowView,
    leaf: LeafRowView,
) -> RecordView {
    RecordView {
        outage_update: update,
        county: Some(title_of(region.name)),
        county_total: Some(region.total),
        county_out: Some(region.out),
        muni: Some(title_of(sub.name)),
        muni_total: Some(sub.total),
        muni_out: Some(sub.out),
        street: Some(title_of(leaf.name)),
        street_out: Some(leaf.out),
        street_restoration: Some(leaf.restoration),
        message: Seq::empty(),
    }
}

/// The records of one sub-region, in leaf order.
pub open spec fn sub_records_spec(
    update: Seq<char>,
    region: RegionRowView,
    sub: SubRegionBranch,
) -> Seq<RecordView> {
    leaf_views(sub.leaves@).map_values(|l: LeafRowView| leaf_record_spec(update, region, sub.row@, l))
}

/// The records of one region, sub-region by sub-region.
pub open spec fn region_records_spec(update: Seq<char>, region: RegionBranch) -> Seq<RecordView> {
    region.subs@.map_values(|s: SubRegionBranch| sub_records_spec(update, region.row@, s)).flatten()
}

/// The records of a whole hierarchy, region by region.
pub open spec fn walk_records_spec(update: Seq<char>, regions: Seq<RegionBranch>) -> Seq<RecordView> {
    regions.map_values(|b: RegionBranch| region_records_spec(update, b)).flatten()
}

/// The records a run yields.
pub open spec fn assemble_spec(outcome: WalkOutcome) -> Seq<RecordView> {
    match outcome {
        WalkOutcome::Unreachable { now } => seq![diagnostic_view(now@, scraping_error_message())],
        WalkOutcome::Empty { update } => seq![diagnostic_view(update@, no_data_message())],
        WalkOutcome::Populated { update, regions } => walk_records_spec(update@, regions@),
    }
}

fn push_sub_records(
    out: &mut Vec<OutageRecord>,
    update: &String,
    region: &RegionRow,
    county: &String,
    sub: &SubRegionBranch,
)
    requires
        county@ == title_of(region.name@),
    ensures
        record_views(final(out)@) == record_views(old(out)@) + sub_records_spec(
            update@,
            region@,
            *sub,
        ),
{
    let ghost base = record_views(out@);
    let ghost want = sub_records_spec(update@, region@, *sub);
    let muni = title_case(sub.row.name.as_str());
    let mut k: usize = 0;
    while k < sub.leaves.len()
        invariant
            want == sub_records_spec(update@, region@, *sub),
            want.len() == sub.leaves@.len(),
            county@ == title_of(region.name@),
            muni@ == title_of(sub.row.name@),
            k <= sub.leaves.len(),
            record_views(out@) == base + want.take(k as int),
        decreases sub.leaves.len() - k,
    {
        let leaf = &sub.leaves[k];
        let rec = OutageRecord {
            outage_update: update.clone(),
            county: Some(county.clone()),
            county_total: Some(region.total.clone()),
            county_out: Some(region.out.clone()),
            muni: Some(muni.clone()),
            muni_total: Some(sub.row.total.clone()),
            muni_out: Some(sub.row.out.clone()),
            street: Some(title_case(leaf.name.as_str())),
            street_out: Some(leaf.out.clone()),
            street_restoration: Some(leaf.restoration.clone()),
            message: String::new(),
        };
        proof {
            assert(leaf_views(sub.leaves@)[k as int] == leaf@);
            assert(rec@ =~= want[k as int]);
        }
        let ghost before = out@;
        out.push(rec);
        proof {
            assert(out@ =~= before.push(rec));
            assert(record_views(out@) =~= record_views(before).push(rec@));
            assert(want.take(k as int + 1) =~= want.take(k as int).push(want[k as int]));
        }
        k = k + 1;
    }
    proof {
        assert(want.take(k as int) =~= want);
    }
}

fn push_region_records(out: &mut Vec<OutageRecord>, update: &String, region: &RegionBranch)
    ensures
        record_views(final(out)@) == record_views(old(out)@) + region_records_spec(
            update@,
            *region,
        ),
{
    let ghost base = record_views(out@);
    let ghost parts = region.subs@.map_values(
        |s: SubRegionBranch| sub_records_spec(update@, region.row@, s),
    );
    let county = title_case(region.row.name.as_str());
    let mut j: usize = 0;
    while j < region.subs.len()
        invariant
            parts == region.subs@.map_values(
                |s: SubRegionBranch| sub_records_spec(update@, region.row@, s),
            ),
            county@ == title_of(region.row.name@),
            j <= region.subs.len(),
            record_views(out@) == base + parts.take(j as int).flatten(),
        decreases region.subs.len() - j,
    {
        push_sub_records(out, update, &region.row, &county, &region.subs[j]);
        proof {
            assert(parts.take(j as int + 1) =~= parts.take(j as int).push(parts[j as int]));
            parts.take(j as int).lemma_flatten_push(parts[j as int]);
            assert(record_views(out@) =~= base + parts.take(j as int + 1).flatten());
        }
        j = j + 1;
    }
    proof {
        assert(parts.take(j as int) =~= parts);
    }
}

pub(crate) fn walk_records(update: &String, regions: &Vec<RegionBranch>) -> (r: Vec<OutageRecord>)
    ensures
        record_views(r@) == walk_records_spec(update@, regions@),
{
    let ghost parts = regions@.map_values(|b: RegionBranch| region_records_spec(update@, b));
    let mut out: Vec<OutageRecord> = Vec::new();
    let mut i: usize = 0;
    while i < regions.len()
        invariant
            parts == regions@.map_values(|b: RegionBranch| region_records_spec(update@, b)),
            i <= regions.len(),
            record_views(out@) == parts.take(i as int).flatten(),
        decreases regions.len() - i,
    {
        push_region_records(&mut out, update, &regions[i]);
        proof {
            assert(parts.take(i as int + 1) =~= parts.take(i as int).push(parts[i as int]));
            parts.take(i as int).lemma_flatten_push(parts[i as int]);
            assert(record_views(out@) =~= parts.take(i as int + 1).flatten());
        }
        i = i + 1;
    }
    proof {
        assert(parts.take(i as int) =~= parts);
    }
    out
}

/// The records of a run: one diagnostic record when the top-level page could
/// not be fetched or held no rows, else one record per leaf in region, then
/// sub-region, then leaf order.
pub fn assemble(outcome: &WalkOutcome) -> (r: Vec<OutageRecord>)
    ensures
        record_views(r@) == assemble_spec(*outcome),
{
    match outcome {
        WalkOutcome::Unreachable { now } => {
            let rec = error_record(now.clone());
            let out = vec![rec];
            assert(record_views(out@) =~= assemble_spec(*outcome));
            out
        },
        WalkOutcome::Empty { update } => {
            let rec = empty_record(update.clone());
            let out = vec![rec];
            assert(record_views(out@) =~= assemble_spec(*outcome));
            out
        },
        WalkOutcome::Populated { update, regions } => walk_records(update, regions),
    }
}

/// Joins a relative link to the portal base: `base/href`.
pub fn page_url(base: &str, href: &str) -> (r: String)
    ensures
        r@ == base@ + seq!['/'] + href@,
{
    let mut url = base.to_string();
    url.append("/");
    url.append(href);
    proof {
        reveal_strlit("/");
    }
    url
}

/// The top-level page under the portal base: `base/CMP.html`.
pub fn top_url(base: &str) -> (r: String)
    ensures
        r@ == base@ + seq!['/', 'C', 'M', 'P', '.', 'h', 't', 'm', 'l'],
{
    let r = page_url(base, "CMP.html");
    proof {
        reveal_strlit("CMP.html");
        assert(r@ =~= base@ + seq!['/', 'C', 'M', 'P', '.', 'h', 't', 'm', 'l']);
    }
    r
}

proof fn lemma_uniform_flatten<A>(s: Seq<Seq<A>>, n: nat)
    requires
        forall|i: int| 0 <= i < s.len() ==> (#[trigger] s[i]).len() == n,
    ensures
        s.flatten().len() == s.len() * n,
        forall|i: int, k: int|
            0 <= i < s.len() && 0 <= k < n ==> s.flatten()[i * n + k] == #[trigger] s[i][k],
    decreases s.len(),
{
    if s.len() > 0 {
        let init = s.drop_last();
        assert(s =~= init.push(s.last()));
        lemma_uniform_flatten(init, n);
        init.lemma_flatten_push(s.last());
        assert((init.len() + 1) * n == init.len() * n + n) by (nonlinear_arith);
        assert forall|i: int, k: int| 0 <= i < s.len() && 0 <= k < n implies s.flatten()[i * n
            + k] == #[trigger] s[i][k] by {
            if i < init.len() {
                assert(i * n + k < init.len() * n) by (nonlinear_arith)
                    requires
                        i < init.len(),
                        0 <= k < n,
                ;
                assert(s[i] == init[i]);
            } else {
                assert(i * n == init.len() * n);
            }
        }
    }
}

/// Each region with `s` sub-regions, each sub-region with `l` leaves: the
/// hierarchy yields exactly `regions.len() * s * l` records, each with an
/// empty message, the record of leaf `k` of sub-region `j` of region `i`
/// standing at position `(i * s + j) * l + k`.
pub proof fn law_records_by_region_sub_region_leaf(
    update: Seq<char>,
    regions: Seq<RegionBranch>,
    s: nat,
    l: nat,
)
    requires
        forall|i: int| 0 <= i < regions.len() ==> (#[trigger] regions[i]).subs@.len() == s,
        forall|i: int, j: int|
            0 <= i < regions.len() && 0 <= j < s ==> (#[trigger] regions[i].subs@[j]).leaves@.len()
                == l,
    ensures
        walk_records_spec(update, regions).len() == regions.len() * s * l,
        forall|i: int, j: int, k: int|
            0 <= i < regions.len() && 0 <= j < s && 0 <= k < l ==> walk_records_spec(
                update,
                regions,
            )[(i * s + j) * l + k] == leaf_record_spec(
                update,
                regions[i].row@,
                regions[i].subs@[j].row@,
                (#[trigger] regions[i].subs@[j].leaves@[k])@,
            ),
        forall|m: int|
            0 <= m < walk_records_spec(update, regions).len() ==> (#[trigger] walk_records_spec(
                update,
                regions,
            )[m]).message == Seq::<char>::empty(),
{
    let sl = s * l;
    let parts = regions.map_values(|b: RegionBranch| region_records_spec(update, b));
    assert forall|i: int| 0 <= i < regions.len() implies {
        &&& (#[trigger] parts[i]).len() == sl
        &&& forall|j: int, k: int|
            0 <= j < s && 0 <= k < l ==> parts[i][j * l + k] == (#[trigger] sub_records_spec(
                update,
                regions[i].row@,
                regions[i].subs@[j],
            )[k])
    } by {
        let b = regions[i];
        let subs = b.subs@.map_values(|t: SubRegionBranch| sub_records_spec(update, b.row@, t));
        assert forall|j: int| 0 <= j < subs.len() implies (#[trigger] subs[j]).len() == l by {
            assert(b.subs@[j].leaves@.len() == l);
        }
        lemma_uniform_flatten(subs, l);
        assert(parts[i] == subs.flatten());
        assert forall|j: int, k: int| 0 <= j < s && 0 <= k < l implies parts[i][j * l + k]
            == (#[trigger] sub_records_spec(update, regions[i].row@, regions[i].subs@[j])[k]) by {
            assert(subs[j][k] == parts[i][j * l + k]);
        }
    }
    assert forall|i: int| 0 <= i < parts.len() implies (#[trigger] parts[i]).len() == sl by {}
    lemma_uniform_flatten(parts, sl);
    assert(regions.len() * sl == regions.len() * s * l) by (nonlinear_arith)
        requires
            sl == s * l,
    ;
    let all = walk_records_spec(update, regions);
    assert forall|i: int, j: int, k: int|
        0 <= i < regions.len() && 0 <= j < s && 0 <= k < l implies all[(i * s + j) * l + k]
        == leaf_record_spec(
        update,
        regions[i].row@,
        regions[i].subs@[j].row@,
        (#[trigger] regions[i].subs@[j].leaves@[k])@,
    ) by {
        assert((i * s + j) * l + k == i * sl + (j * l + k)) by (nonlinear_arith)
            requires
                sl == s * l,
        ;
        assert(j * l + k < sl) by (nonlinear_arith)
            requires
                sl == s * l,
                0 <= j < s,
                0 <= k < l,
        ;
        assert(0 <= j * l + k) by (nonlinear_arith)
            requires
                0 <= j,
                0 <= k,
        ;
        assert(all[i * sl + (j * l + k)] == parts[i][j * l + k]);
        let t = regions[i].subs@[j];
        assert(leaf_views(t.leaves@)[k] == t.leaves@[k]@);
        assert(sub_records_spec(update, regions[i].row@, t)[k] == leaf_record_spec(
            update,
            regions[i].row@,
            t.row@,
            t.leaves@[k]@,
        ));
    }
    assert forall|m: int| 0 <= m < all.len() implies (#[trigger] all[m]).message
        == Seq::<char>::empty() by {
        let i = m / (sl as int);
        let r = m % (sl as int);
        let j = r / (l as int);
        let k = r % (l as int);
        assert(sl > 0) by (nonlinear_arith)
            requires
                m < regions.len() * sl,
                0 <= m,
        ;
        assert(0 <= i < regions.len() && 0 <= r < sl && m == i * sl + r) by (nonlinear_arith)
            requires
                sl > 0,
                0 <= m < regions.len() * sl,
                i == m / (sl as int),
                r == m % (sl as int),
        ;
        assert(l > 0 && 0 <= j < s && 0 <= k < l && r == j * l + k) by (nonlinear_arith)
            requires
                sl == s * l,
                sl > 0,
                0 <= r < sl,
                j == r / (l as int),
                k == r % (l as int),
        ;
        assert(all[i * sl + r] == parts[i][j * l + k]);
        let t = regions[i].subs@[j];
        assert(sub_records_spec(update, regions[i].row@, t)[k].message == Seq::<char>::empty());
    }
}

/// An unreachable top-level page yields exactly one record: stamped with the
/// time given, every location field absent, message "Scraping Error".
pub proof fn law_unreachable_single_record(outcome: WalkOutcome)
    requires
        outcome is Unreachable,
    ensures
        assemble_spec(outcome).len() == 1,
        assemble_spec(outcome)[0].outage_update == outcome->now@,
        assemble_spec(outcome)[0].message == scraping_error_message(),
        location_absent(assemble_spec(outcome)[0]),
{
}

/// A top-level table without rows yields exactly one record: stamped with the
/// portal's update text, every location field absent, message
/// "No outage data found.".
pub proof fn law_empty_single_record(outcome: WalkOutcome)
    requires
        outcome is Empty,
    ensures
        assemble_spec(outcome).len() == 1,
        assemble_spec(outcome)[0].outage_update == outcome->Empty_update@,
        assemble_spec(outcome)[0].message == no_data_message(),
        location_absent(assemble_spec(outcome)[0]),
{
}

} // verus!
