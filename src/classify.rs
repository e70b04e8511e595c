use vstd::prelude::*;

use crate::region::CropRegion;
use crate::text::{
    contains_text, has_substring, join_lines, join_with_space, line_views, lower_of, lowercase,
};

verus! {

/// The kind of mission a summary screen reports.
#[derive(Debug, Clone, Copy, PartialEq, Eq, Structural)]
pub enum MissionType {
    Bounty,
    SoulSurvival,
    Unknown,
}

impl MissionType {
    /// The name the record store keeps for this mission type.
    pub fn as_text(&self) -> (r: String)
        ensures
            r@ == mission_name(*self),
    {
        match self {
            MissionType::Bounty => String::from_str("bounty"),
            MissionType::SoulSurvival => String::from_str("soul_survival"),
            MissionType::Unknown => String::from_str("unknown"),
        }
    }
}

pub open spec fn mission_name(m: MissionType) -> Seq<char> {
    match m {
        MissionType::Bounty => "bounty"@,
        MissionType::SoulSurvival => "soul_survival"@,
        MissionType::Unknown => "unknown"@,
    }
}

/// The recognized lines of one region.
#[derive(Debug)]
pub struct RegionLines {
    pub region: CropRegion,
    pub lines: Vec<String>,
}

/// The recognized lines of one region joined into one text.
#[derive(Debug)]
pub struct RegionText {
    pub region: CropRegion,
    pub text: String,
}

/// What the classifier makes of one run's recognized text.
#[derive(Debug)]
pub struct ClassificationResult {
    pub summary_detected: bool,
    pub mission_type: MissionType,
    pub per_region_text: Vec<RegionText>,
}

/// Some line holds `phrase`.
pub open spec fn any_line_has(lines: Seq<Seq<char>>, phrase: Seq<char>) -> bool {
    exists|k: int| 0 <= k < lines.len() && has_substring(#[trigger] lines[k], phrase)
}

/// The decision on lines already folded to lower case: whether the banner
/// says "mission summary", and, only then, which mission the first stat slot
/// reports ("bounty collected" before "rifts closed").
pub open spec fn decision(banner: Seq<Seq<char>>, stat: Seq<Seq<char>>) -> (bool, MissionType) {
    if !any_line_has(banner, "mission summary"@) {
        (false, MissionType::Unknown)
    } else if any_line_has(stat, "bounty collected"@) {
        (true, MissionType::Bounty)
    } else if any_line_has(stat, "rifts closed"@) {
        (true, MissionType::SoulSurvival)
    } else {
        (true, MissionType::Unknown)
    }
}

pub open spec fn lowered(lines: Seq<Seq<char>>) -> Seq<Seq<char>> {
    lines.map_values(|t: Seq<char>| lower_of(t))
}

/// The lines recognized for `region`: those of its first entry, or none.
pub open spec fn lines_of(entries: Seq<RegionLines>, region: CropRegion) -> Seq<Seq<char>>
    decreases entries.len(),
{
    if entries.len() == 0 {
        Seq::<Seq<char>>::empty()
    } else if entries[0].region == region {
        line_views(entries[0].lines@)
    } else {
        lines_of(entries.drop_first(), region)
    }
}

/// The full classification of `entries`: the decision on the lower-cased
/// lines of the banner and of the first stat slot.
pub open spec fn classification(entries: Seq<RegionLines>) -> (bool, MissionType) {
    decision(
        lowered(lines_of(entries, CropRegion::MissionSummary)),
        lowered(lines_of(entries, CropRegion::SummaryFirst)),
    )
}

fn any_line_contains(lines: &Vec<String>, phrase: &str) -> (r: bool)
    ensures
        r == any_line_has(line_views(lines@), phrase@),
{
    let mut k: usize = 0;
    while k < lines.len()
        invariant
            k <= lines@.len(),
            forall|t: int| 0 <= t < k ==> !has_substring(#[trigger] line_views(lines@)[t], phrase@),
        decreases lines@.len() - k,
    {
        if contains_text(lines[k].as_str(), phrase) {
            assert(has_substring(line_views(lines@)[k as int], phrase@));
            return true;
        }
        k = k + 1;
    }
    false
}

/// Decides on lines already folded to lower case: `banner` from the mission
/// summary banner, `stat` from the first stat slot.
pub fn decide(banner: &Vec<String>, stat: &Vec<String>) -> (r: (bool, MissionType))
    ensures
        r == decision(line_views(banner@), line_views(stat@)),
{
    if !any_line_contains(banner, "mission summary") {
        (false, MissionType::Unknown)
    } else if any_line_contains(stat, "bounty collected") {
        (true, MissionType::Bounty)
    } else if any_line_contains(stat, "rifts closed") {
        (true, MissionType::SoulSurvival)
    } else {
        (true, MissionType::Unknown)
    }
}

/// Whether some banner line, folded to lower case, says "mission summary".
pub fn shows_summary(banner: &Vec<String>) -> (r: bool)
    ensures
        r == any_line_has(lowered(line_views(banner@)), "mission summary"@),
{
    let lowered_banner = lower_lines(banner);
    any_line_contains(&lowered_banner, "mission summary")
}

fn lower_lines(lines: &Vec<String>) -> (r: Vec<String>)
    ensures
        line_views(r@) == lowered(line_views(lines@)),
{
    let mut out: Vec<String> = Vec::new();
    let mut k: usize = 0;
    while k < lines.len()
        invariant
            k <= lines@.len(),
            out@.len() == k,
            line_views(out@) == lowered(line_views(lines@)).subrange(0, k as int),
        decreases lines@.len() - k,
    {
        let l = lowercase(lines[k].as_str());
        let ghost prev = out@;
        out.push(l);
        proof {
            assert forall|t: int| 0 <= t < k + 1 implies #[trigger] line_views(out@)[t] == lowered(
                line_views(lines@),
            )[t] by {
                if t < k {
                    assert(out@[t] == prev[t]);
                    assert(line_views(prev)[t] == lowered(line_views(lines@)).subrange(0, k as int)[t]);
                }
            }
            assert(line_views(out@) =~= lowered(line_views(lines@)).subrange(0, k + 1));
        }
        k = k + 1;
    }
    proof {
        assert(lowered(line_views(lines@)).subrange(0, lines@.len() as int) =~= lowered(line_views(lines@)));
    }
    out
}

fn find_lines(entries: &Vec<RegionLines>, region: CropRegion) -> (r: Option<usize>)
    ensures
        r matches Some(k) ==> k < entries@.len() && lines_of(entries@, region) == line_views(
            entries@[k as int].lines@,
        ),
        r is None ==> lines_of(entries@, region) == Seq::<Seq<char>>::empty(),
{
    let mut k: usize = 0;
    proof {
        assert(entries@.subrange(0, entries@.len() as int) =~= entries@);
    }
    while k < entries.len()
        invariant
            k <= entries@.len(),
            lines_of(entries@, region) == lines_of(entries@.subrange(k as int, entries@.len() as int), region),
        decreases entries@.len() - k,
    {
        let ghost rest = entries@.subrange(k as int, entries@.len() as int);
        if entries[k].region == region {
            return Some(k);
        }
        proof {
            assert(rest.drop_first() =~= entries@.subrange(k + 1, entries@.len() as int));
        }
        k = k + 1;
    }
    None
}

/// Classifies one run's recognized lines, case-insensitively: the banner must
/// mention "mission summary"; then the first stat slot decides the mission
/// type. Every region's lines are also joined with single spaces.
pub fn classify(per_region_lines: &Vec<RegionLines>) -> (r: ClassificationResult)
    ensures
        (r.summary_detected, r.mission_type) == classification(per_region_lines@),
        r.per_region_text@.len() == per_region_lines@.len(),
        forall|k: int| 0 <= k < per_region_lines@.len() ==> {
            &&& (#[trigger] r.per_region_text@[k]).region == per_region_lines@[k].region
            &&& r.per_region_text@[k].text@ == join_with_space(line_views(per_region_lines@[k].lines@))
        },
{
    let empty: Vec<String> = Vec::new();
    let banner = match find_lines(per_region_lines, CropRegion::MissionSummary) {
        Some(k) => lower_lines(&per_region_lines[k].lines),
        None => lower_lines(&empty),
    };
    let stat = match find_lines(per_region_lines, CropRegion::SummaryFirst) {
        Some(k) => lower_lines(&per_region_lines[k].lines),
        None => lower_lines(&empty),
    };
    proof {
        assert(line_views(empty@) =~= Seq::<Seq<char>>::empty());
    }
    let (summary_detected, mission_type) = decide(&banner, &stat);
    let mut per_region_text: Vec<RegionText> = Vec::new();
    let mut k: usize = 0;
    while k < per_region_lines.len()
        invariant
            k <= per_region_lines@.len(),
            per_region_text@.len() == k,
            forall|t: int| 0 <= t < k ==> {
                &&& (#[trigger] per_region_text@[t]).region == per_region_lines@[t].region
                &&& per_region_text@[t].text@ == join_with_space(line_views(per_region_lines@[t].lines@))
            },
        decreases per_region_lines@.len() - k,
    {
        let text = join_lines(&per_region_lines[k].lines);
        per_region_text.push(RegionText { region: per_region_lines[k].region, text });
        k = k + 1;
    }
    ClassificationResult { summary_detected, mission_type, per_region_text }
}

} // verus!
