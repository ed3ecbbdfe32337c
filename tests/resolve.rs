use postgresql_embedded::resolve::{is_older, select_greatest, Version};

fn v(major: u64, minor: u64, patch: u64) -> Version {
    Version { major, minor, patch }
}

#[test]
fn selects_greatest_satisfying_version() {
    let published = vec![v(15, 7, 0), v(16, 3, 0), v(16, 2, 0), v(17, 0, 0)];
    let satisfies = vec![true, true, true, false];
    assert_eq!(select_greatest(&published, &satisfies), Some(1));
}

#[test]
fn no_satisfying_version() {
    let published = vec![v(15, 7, 0), v(16, 3, 0)];
    assert_eq!(select_greatest(&published, &vec![false, false]), None);
    assert_eq!(select_greatest(&vec![], &vec![]), None);
}

#[test]
fn equal_versions_pick_the_first() {
    let published = vec![v(16, 3, 0), v(16, 3, 0), v(16, 2, 9)];
    assert_eq!(select_greatest(&published, &vec![true, true, true]), Some(0));
}

#[test]
fn version_order_is_lexicographic() {
    assert!(is_older(v(16, 2, 9), v(16, 3, 0)));
    assert!(is_older(v(9, 9, 9), v(10, 0, 0)));
    assert!(!is_older(v(16, 3, 0), v(16, 3, 0)));
    assert!(!is_older(v(16, 3, 1), v(16, 3, 0)));
}
