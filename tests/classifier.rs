use mission_capture::classify::{classify, decide, shows_summary, MissionType, RegionLines};
use mission_capture::region::CropRegion;

fn lines(v: &[&str]) -> Vec<String> {
    v.iter().map(|s| s.to_string()).collect()
}

fn entries(banner: &[&str], stat: &[&str]) -> Vec<RegionLines> {
    vec![
        RegionLines { region: CropRegion::MissionSummary, lines: lines(banner) },
        RegionLines { region: CropRegion::SummaryFirst, lines: lines(stat) },
    ]
}

#[test]
fn bounty_is_detected() {
    let r = classify(&entries(&["Mission Summary"], &["Bounty Collected: 500"]));
    assert!(r.summary_detected);
    assert_eq!(r.mission_type, MissionType::Bounty);
}

#[test]
fn soul_survival_is_detected() {
    let r = classify(&entries(&["Mission Summary"], &["Rifts Closed: 3"]));
    assert!(r.summary_detected);
    assert_eq!(r.mission_type, MissionType::SoulSurvival);
}

#[test]
fn missing_banner_means_nothing_detected() {
    let r = classify(&entries(&["Loadout"], &["Bounty Collected: 500"]));
    assert!(!r.summary_detected);
    assert_eq!(r.mission_type, MissionType::Unknown);
}

#[test]
fn bounty_wins_over_rifts() {
    let r = classify(&entries(&["MISSION SUMMARY"], &["rifts closed: 2", "bounty collected"]));
    assert_eq!(r.mission_type, MissionType::Bounty);
}

#[test]
fn unknown_stat_text_gives_unknown_type() {
    let r = classify(&entries(&["Mission Summary"], &["Hunters Killed: 4"]));
    assert!(r.summary_detected);
    assert_eq!(r.mission_type, MissionType::Unknown);
}

#[test]
fn absent_regions_count_as_empty() {
    let r = classify(&vec![]);
    assert!(!r.summary_detected);
    assert_eq!(r.mission_type, MissionType::Unknown);
    assert!(r.per_region_text.is_empty());
}

#[test]
fn region_text_is_joined_with_spaces() {
    let mut e = entries(&["Mission", "Summary"], &["Bounty Collected: 500"]);
    e.push(RegionLines { region: CropRegion::SummaryUsername, lines: lines(&["hunter", "one"]) });
    let r = classify(&e);
    // the banner's lines are tested one by one, so a phrase split over two lines does not count
    assert!(!r.summary_detected);
    assert_eq!(r.per_region_text.len(), 3);
    assert_eq!(r.per_region_text[0].text, "Mission Summary");
    assert_eq!(r.per_region_text[2].region, CropRegion::SummaryUsername);
    assert_eq!(r.per_region_text[2].text, "hunter one");
}

#[test]
fn decide_works_on_lowered_lines() {
    assert_eq!(decide(&lines(&["mission summary"]), &lines(&["rifts closed: 3"])), (true, MissionType::SoulSurvival));
    assert_eq!(decide(&lines(&["Mission Summary"]), &lines(&["rifts closed: 3"])), (false, MissionType::Unknown));
}

#[test]
fn mission_type_names() {
    assert_eq!(MissionType::Bounty.as_text(), "bounty");
    assert_eq!(MissionType::SoulSurvival.as_text(), "soul_survival");
    assert_eq!(MissionType::Unknown.as_text(), "unknown");
}

#[test]
fn banner_gate_ignores_case() {
    assert!(shows_summary(&lines(&["MISSION SUMMARY"])));
    assert!(!shows_summary(&lines(&["Mission", "Summary"])));
    assert!(!shows_summary(&lines(&[])));
}
