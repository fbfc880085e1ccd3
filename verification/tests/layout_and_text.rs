use vs_launcher::layout::{
    archive_path, archive_url, catalog_url, data_root, install_dir, install_probes,
    instance_dir, instance_mods_dir, instances_file, is_installed, launch_candidates, launch_root,
    mods_url, versions_dir,
};
use vs_launcher::text::{
    chars_of, contains, decimal_string, join2, join3, same_text, str_contains, strip_leading,
};
use vs_launcher::text_order::{sort_texts, text_before};

#[test]
fn the_data_root_lies_under_the_local_data_directory() {
    assert_eq!(data_root(Some("/home/u/.local/share")), "/home/u/.local/share/vs_launcher");
    assert_eq!(data_root(None), "~/.local/share/vs_launcher");
}

#[test]
fn files_of_a_version_lie_under_its_folder() {
    let root = "/d/vs_launcher";
    assert_eq!(versions_dir(root), "/d/vs_launcher/versions");
    assert_eq!(archive_path(root, "1.20.11"), "/d/vs_launcher/versions/1.20.11/vs_archive.tar.gz");
    assert_eq!(install_dir(root, "1.20.11"), "/d/vs_launcher/versions/1.20.11/install");
    assert_eq!(launch_root(root, "1.20.11"), "/d/vs_launcher/versions/1.20.11/install/vintagestory");
    assert_eq!(
        launch_candidates(root, "1.0"),
        [
            "/d/vs_launcher/versions/1.0/install/vintagestory/Vintagestory",
            "/d/vs_launcher/versions/1.0/install/vintagestory/run.sh",
            "/d/vs_launcher/versions/1.0/install/vintagestory/Vintagestory.exe",
        ]
    );
}

#[test]
fn a_version_is_installed_if_one_probe_exists() {
    assert_eq!(
        install_probes("/d", "1.0"),
        [
            "/d/versions/1.0/install/vintagestory",
            "/d/versions/1.0/install/vintagestory.exe",
            "/d/versions/1.0/install/vintagestory/vintagestory",
        ]
    );
    assert!(!is_installed(&vec![false, false, false]));
    assert!(is_installed(&vec![true, false, false]));
    assert!(is_installed(&vec![false, true, false]));
    assert!(is_installed(&vec![false, false, true]));
    assert!(!is_installed(&Vec::new()));
}

#[test]
fn instances_have_a_file_and_a_folder_each() {
    assert_eq!(instances_file("/d"), "/d/instances.json");
    assert_eq!(instance_dir("/d", "Test"), "/d/instances/Test");
    assert_eq!(instance_mods_dir("/d", "Test"), "/d/instances/Test/mods");
}

#[test]
fn the_addresses_are_fixed() {
    assert_eq!(catalog_url(), "https://mods.vintagestory.at/api/gameversions");
    assert_eq!(
        archive_url("1.21.0-rc.1"),
        "https://cdn.vintagestory.at/gamefiles/stable/vs_client_linux-x64_1.21.0-rc.1.tar.gz"
    );
    assert_eq!(
        mods_url(1, 96),
        "https://mods.vintagestory.at/api/mods?page=1&pageSize=96&sort=latest"
    );
    assert_eq!(
        mods_url(12, 24),
        "https://mods.vintagestory.at/api/mods?page=12&pageSize=24&sort=latest"
    );
}

#[test]
fn numbers_are_written_in_decimal() {
    assert_eq!(decimal_string(0), "0");
    assert_eq!(decimal_string(7), "7");
    assert_eq!(decimal_string(10), "10");
    assert_eq!(decimal_string(1090), "1090");
    assert_eq!(decimal_string(u64::MAX), "18446744073709551615");
}

#[test]
fn substrings_are_found_wherever_they_stand() {
    assert!(str_contains("1.21.0-rc.1", "rc"));
    assert!(str_contains("rc", "rc"));
    assert!(str_contains("abc", ""));
    assert!(str_contains("", ""));
    assert!(!str_contains("", "a"));
    assert!(!str_contains("r-c", "rc"));
    assert!(!str_contains("ab", "abc"));
    assert!(str_contains("aab", "ab"));
    assert!(contains(&chars_of("héllo"), &chars_of("él")));
}

#[test]
fn text_helpers_do_what_they_say() {
    assert_eq!(chars_of("a…b"), vec!['a', '…', 'b']);
    assert_eq!(join2("ab", "cd"), "abcd");
    assert_eq!(join3("a", "", "c"), "ac");
    assert!(same_text("x", "x"));
    assert!(!same_text("x", "X"));
    assert_eq!(strip_leading("vv1v", 'v'), "1v");
    assert_eq!(strip_leading("", 'v'), "");
    assert_eq!(strip_leading("abc", 'v'), "abc");
}

#[test]
fn strings_compare_as_std_compares_them() {
    let samples = ["", "a", "A", "ab", "abc", "abd", "b", "10", "9", "é", "e", "z", "…", "a…"];
    for a in samples {
        for b in samples {
            assert_eq!(text_before(a, b), a < b, "{:?} against {:?}", a, b);
        }
    }
}

#[test]
fn strings_sort_by_code_point() {
    let list: Vec<String> =
        ["b", "a", "", "ab", "B", "a", "10", "9", "é"].iter().map(|s| s.to_string()).collect();
    assert_eq!(sort_texts(&list), ["", "10", "9", "B", "a", "a", "ab", "b", "é"]);
    assert_eq!(sort_texts(&Vec::new()), Vec::<String>::new());
}
