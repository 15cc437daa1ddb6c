use post_pipeline::jsonbs::{new_trophy_case_by_trophy_names, Trophy, TrophyCase};
use post_pipeline::time::Timestamp;

#[test]
fn new_trophy_is_named_and_stamped() {
    let before = chrono::Utc::now().timestamp();
    let trophy = Trophy::new("first_post".to_string());
    let after = chrono::Utc::now().timestamp();
    assert_eq!(trophy.name, "first_post");
    let stamp = trophy.rewarded_at.expect("a new trophy is stamped");
    assert!(before <= stamp.secs && stamp.secs <= after);
    assert!(stamp.nanos < 2_000_000_000);
}

#[test]
fn trophy_case_by_names_keeps_names_and_order() {
    let names = vec!["a".to_string(), "b".to_string(), "a".to_string()];
    let case = new_trophy_case_by_trophy_names(names);
    let trophies = case.trophies.expect("the case is written");
    assert_eq!(trophies.len(), 3);
    assert_eq!(trophies[0].name, "a");
    assert_eq!(trophies[1].name, "b");
    assert_eq!(trophies[2].name, "a");
    assert!(trophies.iter().all(|t| t.rewarded_at.is_some()));
}

#[test]
fn trophy_case_by_no_names_is_written_and_empty() {
    let case = new_trophy_case_by_trophy_names(Vec::new());
    assert_eq!(case.trophies, Some(Vec::new()));
}

#[test]
fn append_to_an_unwritten_case_writes_it() {
    let mut case = TrophyCase { trophies: None };
    let trophy = Trophy { name: "x".to_string(), rewarded_at: None };
    case.append(trophy.clone());
    assert_eq!(case.trophies, Some(vec![trophy]));
}

#[test]
fn append_does_not_deduplicate() {
    let first = Trophy {
        name: "foo_award".to_string(),
        rewarded_at: Some(Timestamp { secs: 1_700_000_000, nanos: 1 }),
    };
    let second = Trophy {
        name: "foo_award".to_string(),
        rewarded_at: Some(Timestamp { secs: 1_700_000_100, nanos: 2 }),
    };
    let earlier = Trophy { name: "old".to_string(), rewarded_at: None };
    let mut case = TrophyCase { trophies: Some(vec![earlier.clone()]) };
    case.append(first.clone());
    case.append(second.clone());
    assert_eq!(case.trophies, Some(vec![earlier, first.clone(), second.clone()]));
    assert_eq!(first.name, second.name);
    assert_ne!(first.rewarded_at, second.rewarded_at);
}

#[test]
fn append_of_the_very_same_award_twice_keeps_both() {
    let trophy = Trophy { name: "same".to_string(), rewarded_at: None };
    let mut case = TrophyCase { trophies: Some(Vec::new()) };
    case.append(trophy.clone());
    case.append(trophy.clone());
    assert_eq!(case.trophies, Some(vec![trophy.clone(), trophy]));
}
