use std::cmp::Ordering;
use vs_launcher::catalog::{Channel, VersionInfo};
use vs_launcher::sorting::{sort_versions, sorting_order};
use vs_launcher::version_key::{comes_before, compare, normalized, parse_semver};

fn info(ver: &str) -> VersionInfo {
    VersionInfo { ver: ver.to_string(), kind: Channel::Stable }
}

fn names(list: &Vec<VersionInfo>) -> Vec<String> {
    list.iter().map(|v| v.ver.clone()).collect()
}

#[test]
fn normalized_pads_the_core_to_three_components() {
    assert_eq!(normalized("1"), "1.0.0");
    assert_eq!(normalized("1.21"), "1.21.0");
    assert_eq!(normalized("1.21.0"), "1.21.0");
    assert_eq!(normalized("1.2.3.4"), "1.2.3.4");
    assert_eq!(normalized(""), ".0.0");
}

#[test]
fn normalized_keeps_everything_after_the_first_dash() {
    assert_eq!(normalized("1.21-rc.2"), "1.21.0-rc.2");
    assert_eq!(normalized("1.2.3-rc-1"), "1.2.3-rc-1");
    assert_eq!(normalized("1-"), "1.0.0-");
}

#[test]
fn short_versions_parse_with_zeros_for_the_missing_numbers() {
    let key = parse_semver("1.21").expect("1.21 has a key");
    assert_eq!((key.major(), key.minor(), key.patch()), (1, 21, 0));
    assert_eq!(key.pre(), "");
    assert_eq!(key.build(), "");
    let key = parse_semver("7").expect("7 has a key");
    assert_eq!((key.major(), key.minor(), key.patch()), (7, 0, 0));
    let key = parse_semver("18446744073709551615.0.3").expect("the largest number fits");
    assert_eq!((key.major(), key.minor(), key.patch()), (u64::MAX, 0, 3));
}

#[test]
fn padded_and_unpadded_versions_compare_equal() {
    let short = parse_semver("1.21");
    let long = parse_semver("1.21.0");
    assert!(short.is_some() && long.is_some());
    assert_eq!(compare(&short, &long, true), Ordering::Equal);
    assert_eq!(compare(&short, &long, false), Ordering::Equal);
    assert_eq!(compare(&long, &short, true), Ordering::Equal);
}

#[test]
fn the_tags_of_a_version_are_kept() {
    let key = parse_semver("1.21-rc.1").expect("a release candidate has a key");
    assert_eq!((key.major(), key.minor(), key.patch()), (1, 21, 0));
    assert_eq!(key.pre(), "rc.1");
    let key = parse_semver("1.2.3+build.5").expect("a build tag is allowed");
    assert_eq!(key.pre(), "");
    assert_eq!(key.build(), "build.5");
}

#[test]
fn versions_without_a_numeric_core_have_no_key() {
    assert!(parse_semver("abc").is_none());
    assert!(parse_semver("1.x").is_none());
    assert!(parse_semver("").is_none());
    assert!(parse_semver("1..2").is_none());
    assert!(parse_semver("01.2").is_none());
    assert!(parse_semver("1.2.3.4").is_none());
    assert!(parse_semver("-rc.1").is_none());
    assert!(parse_semver("1.2-").is_none());
    assert!(parse_semver("18446744073709551616").is_none());
}

#[test]
fn numbers_are_compared_as_numbers() {
    let a = parse_semver("1.5.0");
    let b = parse_semver("1.19.0");
    assert_eq!(compare(&a, &b, true), Ordering::Less);
    assert_eq!(compare(&b, &a, true), Ordering::Greater);
    assert_eq!(compare(&a, &b, false), Ordering::Greater);
    assert_eq!(compare(&b, &a, false), Ordering::Less);
}

#[test]
fn a_pre_release_comes_before_its_release() {
    let rc = parse_semver("1.21.0-rc.1");
    let release = parse_semver("1.21.0");
    assert_eq!(compare(&rc, &release, true), Ordering::Less);
    assert_eq!(compare(&release, &rc, true), Ordering::Greater);
    let rc2 = parse_semver("1.21.0-rc.2");
    let rc10 = parse_semver("1.21.0-rc.10");
    assert_eq!(compare(&rc2, &rc10, true), Ordering::Less);
}

#[test]
fn a_missing_key_comes_before_every_key() {
    let none = parse_semver("junk");
    let some = parse_semver("0.0.0");
    assert!(none.is_none());
    assert_eq!(compare(&none, &some, true), Ordering::Less);
    assert_eq!(compare(&some, &none, true), Ordering::Greater);
    assert_eq!(compare(&none, &some, false), Ordering::Greater);
    assert_eq!(compare(&some, &none, false), Ordering::Less);
    assert_eq!(compare(&none, &parse_semver("also junk"), true), Ordering::Equal);
    assert_eq!(compare(&none, &parse_semver("also junk"), false), Ordering::Equal);
}

#[test]
fn comes_before_is_strict() {
    let a = parse_semver("1.0.0");
    let b = parse_semver("2.0.0");
    assert!(comes_before(&a, &b, true));
    assert!(!comes_before(&b, &a, true));
    assert!(!comes_before(&a, &a, true));
    assert!(comes_before(&b, &a, false));
    assert!(!comes_before(&a, &b, false));
}

#[test]
fn sorting_order_lists_positions_in_sorted_order() {
    let keys = vec![
        parse_semver("1.20.1"),
        parse_semver("junk"),
        parse_semver("1.21.0"),
        parse_semver("1.19"),
    ];
    assert_eq!(sorting_order(&keys, true), vec![1, 3, 0, 2]);
    assert_eq!(sorting_order(&keys, false), vec![2, 0, 3, 1]);
    assert_eq!(sorting_order(&Vec::new(), true), Vec::<usize>::new());
}

#[test]
fn sorting_order_keeps_level_keys_in_place() {
    let keys = vec![
        parse_semver("1.21.0"),
        parse_semver("x"),
        parse_semver("1.21"),
        parse_semver("y"),
        parse_semver("1.21.0"),
    ];
    assert_eq!(sorting_order(&keys, true), vec![1, 3, 0, 2, 4]);
    assert_eq!(sorting_order(&keys, false), vec![0, 2, 4, 1, 3]);
}

#[test]
fn versions_sort_descending_with_unparsable_last() {
    let mut list = vec![
        info("1.20.1"),
        info("1.21.0-rc.1"),
        info("junk"),
        info("1.21.0"),
        info("1.19"),
    ];
    sort_versions(&mut list, false);
    assert_eq!(names(&list), ["1.21.0", "1.21.0-rc.1", "1.20.1", "1.19", "junk"]);
}

#[test]
fn versions_sort_ascending_with_unparsable_first() {
    let mut list = vec![
        info("1.20.1"),
        info("1.21.0-rc.1"),
        info("junk"),
        info("1.21.0"),
        info("1.19"),
    ];
    sort_versions(&mut list, true);
    assert_eq!(names(&list), ["junk", "1.19", "1.20.1", "1.21.0-rc.1", "1.21.0"]);
}

#[test]
fn sorting_twice_is_sorting_once() {
    for ascending in [true, false] {
        let mut list = vec![info("2.0"), info("b"), info("1.0"), info("a"), info("1.5.3"), info("1.0.0")];
        sort_versions(&mut list, ascending);
        let once = list.clone();
        sort_versions(&mut list, ascending);
        assert_eq!(list, once);
    }
}

#[test]
fn sorting_keeps_the_records_whole() {
    let mut list = vec![
        VersionInfo { ver: "1.0".to_string(), kind: Channel::Dev },
        VersionInfo { ver: "2.0".to_string(), kind: Channel::Other("nightly".to_string()) },
    ];
    sort_versions(&mut list, false);
    assert_eq!(
        list,
        vec![
            VersionInfo { ver: "2.0".to_string(), kind: Channel::Other("nightly".to_string()) },
            VersionInfo { ver: "1.0".to_string(), kind: Channel::Dev },
        ]
    );
}

#[test]
fn turning_the_order_reverses_the_versions_with_keys() {
    let mut list = vec![info("1.2.0"), info("zzz"), info("1.10.0"), info("1.1.0-rc.1"), info("aaa")];
    sort_versions(&mut list, true);
    let ascending = names(&list);
    assert_eq!(ascending, ["zzz", "aaa", "1.1.0-rc.1", "1.2.0", "1.10.0"]);
    sort_versions(&mut list, false);
    let descending = names(&list);
    assert_eq!(descending, ["1.10.0", "1.2.0", "1.1.0-rc.1", "zzz", "aaa"]);
    let with_key = |names: &Vec<String>| -> Vec<String> {
        names.iter().filter(|n| parse_semver(n).is_some()).cloned().collect()
    };
    let mut reversed = with_key(&ascending);
    reversed.reverse();
    assert_eq!(with_key(&descending), reversed);
}
