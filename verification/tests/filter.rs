use bevy_hookup_core::connection::connection_id::ConnectionId;
use bevy_hookup_core::filter::Filter;

fn ids(n: usize) -> Vec<ConnectionId> {
    let mut out: Vec<ConnectionId> = Vec::new();
    while out.len() < n {
        let candidate = ConnectionId::default();
        if !out.contains(&candidate) {
            out.push(candidate);
        }
    }
    out
}

#[test]
fn allow_all_allows_everything() {
    let all = ids(3);
    let filter = Filter::<ConnectionId>::allow_all();
    assert!(all.iter().all(|id| filter.is_allowed(id)));
    assert!(matches!(filter, Filter::Blacklist(ref items) if items.is_empty()));
}

#[test]
fn allow_none_allows_nothing() {
    let all = ids(3);
    let filter = Filter::<ConnectionId>::allow_none();
    assert!(all.iter().all(|id| !filter.is_allowed(id)));
    assert!(matches!(filter, Filter::Whitelist(ref items) if items.is_empty()));
}

#[test]
fn blacklist_and_whitelist_membership() {
    let all = ids(3);
    let black = Filter::Blacklist(vec![all[0]]);
    let white = Filter::Whitelist(vec![all[0], all[1]]);
    assert!(!black.is_allowed(&all[0]));
    assert!(black.is_allowed(&all[1]));
    assert!(white.is_allowed(&all[0]));
    assert!(white.is_allowed(&all[1]));
    assert!(!white.is_allowed(&all[2]));
}

#[test]
fn merge_two_blacklists_concatenates_and_collapses_neighbours() {
    let all = ids(3);
    let a = Filter::Blacklist(vec![all[0], all[1]]);
    let b = Filter::Blacklist(vec![all[1], all[2], all[2]]);
    let merged = a.merge(b);
    assert_eq!(merged, Filter::Blacklist(vec![all[0], all[1], all[2]]));
}

#[test]
fn merge_blacklists_keeps_separated_repeats() {
    let all = ids(2);
    let a = Filter::Blacklist(vec![all[0], all[1]]);
    let b = Filter::Blacklist(vec![all[0]]);
    let merged = a.merge(b);
    assert_eq!(merged, Filter::Blacklist(vec![all[0], all[1], all[0]]));
}

#[test]
fn merge_blacklist_with_whitelist() {
    let all = ids(3);
    let a = Filter::Blacklist(vec![all[1]]);
    let b = Filter::Whitelist(vec![all[0], all[1], all[2]]);
    assert_eq!(a.merge(b), Filter::Whitelist(vec![all[0], all[2]]));
}

#[test]
fn merge_whitelist_with_blacklist() {
    let all = ids(3);
    let a = Filter::Whitelist(vec![all[0], all[1]]);
    let b = Filter::Blacklist(vec![all[0]]);
    assert_eq!(a.merge(b), Filter::Whitelist(vec![all[1]]));
}

#[test]
fn merge_two_whitelists_intersects_in_first_order() {
    let all = ids(3);
    let a = Filter::Whitelist(vec![all[2], all[0], all[1]]);
    let b = Filter::Whitelist(vec![all[1], all[2]]);
    assert_eq!(a.merge(b), Filter::Whitelist(vec![all[2], all[1]]));
}

#[test]
fn merge_allows_exactly_what_both_allow() {
    let all = ids(4);
    let filters = vec![
        Filter::Blacklist(vec![all[0]]),
        Filter::Blacklist(vec![all[1], all[2]]),
        Filter::Whitelist(vec![all[0], all[3]]),
        Filter::Whitelist(vec![all[2], all[3], all[1]]),
        Filter::allow_all(),
        Filter::allow_none(),
    ];
    for a in &filters {
        for b in &filters {
            let merged = a.clone().merge(b.clone());
            for id in &all {
                assert_eq!(merged.is_allowed(id), a.is_allowed(id) && b.is_allowed(id));
            }
        }
    }
}

#[test]
fn filters_compare_by_kind_and_entries() {
    let all = ids(2);
    assert_eq!(Filter::Blacklist(vec![all[0]]), Filter::Blacklist(vec![all[0]]));
    assert_ne!(Filter::Blacklist(vec![all[0]]), Filter::Whitelist(vec![all[0]]));
    assert_ne!(Filter::Whitelist(vec![all[0], all[1]]), Filter::Whitelist(vec![all[1], all[0]]));
    assert_ne!(Filter::Whitelist(vec![all[0]]), Filter::Whitelist(vec![all[0], all[0]]));
}

#[test]
fn filters_over_strings_compare_by_value() {
    let a = Filter::Blacklist(vec!["x".to_string(), "x".to_string(), "y".to_string()]);
    let b = Filter::Blacklist(vec!["y".to_string(), "z".to_string()]);
    assert!(!a.is_allowed(&"x".to_string()));
    assert!(a.is_allowed(&"z".to_string()));
    let merged = a.merge(b);
    assert!(merged == Filter::Blacklist(vec!["x".to_string(), "y".to_string(), "z".to_string()]));
    let w = Filter::Whitelist(vec!["p".to_string(), "q".to_string()]);
    let kept = w.merge(Filter::Blacklist(vec!["q".to_string()]));
    assert!(kept == Filter::Whitelist(vec!["p".to_string()]));
}
