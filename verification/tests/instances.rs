use vs_launcher::instances::{installed_versions, Instance, InstancesPage, VersionFolder};

fn instance(name: &str, version: &str) -> Instance {
    Instance { name: name.to_string(), version: version.to_string() }
}

fn folder(name: Option<&str>, installed: bool) -> VersionFolder {
    VersionFolder { name: name.map(|n| n.to_string()), installed }
}

#[test]
fn a_failed_folder_removal_keeps_the_instance() {
    let mut page = InstancesPage::new(vec![instance("Test", "1.20.11"), instance("Other", "1.19.8")]);
    assert_eq!(page.folder_of(0, "/d"), Some("/d/instances/Test".to_string()));
    page.remove_instance(0, Err("Permission denied (os error 13)".to_string()));
    assert_eq!(page.instances, vec![instance("Test", "1.20.11"), instance("Other", "1.19.8")]);
    assert_eq!(
        page.status(),
        Some("Delete error: Permission denied (os error 13)".to_string())
    );
}

#[test]
fn an_instance_leaves_the_list_after_its_folder_is_gone() {
    let mut page = InstancesPage::new(vec![
        instance("A", "1.0"),
        instance("B", "2.0"),
        instance("C", "3.0"),
    ]);
    page.remove_instance(1, Ok(()));
    assert_eq!(page.instances, vec![instance("A", "1.0"), instance("C", "3.0")]);
    assert_eq!(page.status(), Some("Instance deleted".to_string()));
    assert_eq!(page.count(), 2);
    assert_eq!(page.name_of(1), "C");
    assert_eq!(page.version_of(1), "3.0");
}

#[test]
fn there_is_no_folder_for_an_instance_that_does_not_exist() {
    let page = InstancesPage::new(vec![instance("A", "1.0")]);
    assert_eq!(page.folder_of(1, "/d"), None);
    assert_eq!(page.folder_of(0, ""), Some("/instances/A".to_string()));
}

#[test]
fn a_fresh_page_has_an_empty_hidden_form() {
    let page = InstancesPage::new(Vec::new());
    assert!(page.instances.is_empty());
    assert!(!page.show_modal());
    assert_eq!(page.new_name(), "");
    assert_eq!(page.new_version(), "");
    assert_eq!(page.status(), None);
}

#[test]
fn a_complete_form_becomes_an_instance() {
    let mut page = InstancesPage::new(vec![instance("A", "1.0")]);
    page.open_modal();
    assert!(page.show_modal());
    page.set_new_name("Survival");
    page.set_new_version("1.20.11");
    assert!(page.confirm_create());
    assert!(!page.show_modal());
    assert_eq!(page.instances, vec![instance("A", "1.0"), instance("Survival", "1.20.11")]);
}

#[test]
fn an_incomplete_form_stays_open_and_makes_nothing() {
    let mut page = InstancesPage::new(Vec::new());
    page.open_modal();
    assert!(!page.confirm_create());
    page.set_new_name("Survival");
    assert!(!page.confirm_create());
    page.set_new_name("");
    page.set_new_version("1.20.11");
    assert!(!page.confirm_create());
    assert!(page.show_modal());
    assert!(page.instances.is_empty());
    page.cancel_modal();
    assert!(!page.show_modal());
}

#[test]
fn opening_the_form_empties_it() {
    let mut page = InstancesPage::new(Vec::new());
    page.set_new_name("x");
    page.set_new_version("y");
    page.open_modal();
    assert_eq!(page.new_name(), "");
    assert_eq!(page.new_version(), "");
}

#[test]
fn a_name_stands_for_one_instance_only() {
    let mut page = InstancesPage::new(Vec::new());
    page.set_new_name("Twice");
    page.set_new_version("1.0");
    assert!(!page.name_is_taken());
    assert!(page.create_instance());
    assert_eq!(page.status(), None);
    assert!(page.name_is_taken());
    page.set_new_version("2.0");
    assert!(!page.create_instance());
    assert_eq!(page.instances, vec![instance("Twice", "1.0")]);
    assert_eq!(page.status(), Some("An instance named Twice already exists".to_string()));
    page.set_new_name("twice");
    assert!(page.create_instance());
    assert_eq!(page.instances, vec![instance("Twice", "1.0"), instance("twice", "2.0")]);
}

#[test]
fn a_form_with_a_taken_name_stays_open() {
    let mut page = InstancesPage::new(vec![instance("A", "1.0"), instance("B", "1.0")]);
    page.open_modal();
    page.set_new_name("B");
    page.set_new_version("3.0");
    assert!(!page.confirm_create());
    assert!(page.show_modal());
    assert_eq!(page.instances, vec![instance("A", "1.0"), instance("B", "1.0")]);
    assert_eq!(page.status(), Some("An instance named B already exists".to_string()));
    page.set_new_name("C");
    assert!(page.confirm_create());
    assert!(!page.show_modal());
    assert_eq!(page.count(), 3);
    assert_eq!(page.name_of(2), "C");
}

#[test]
fn the_pending_deletion_is_handed_out_once() {
    let mut page = InstancesPage::new(vec![instance("A", "1.0")]);
    assert_eq!(page.take_pending(), None);
    page.request_delete(0);
    assert_eq!(page.take_pending(), Some(0));
    assert_eq!(page.take_pending(), None);
    page.request_delete(0);
    page.clear_pending();
    assert_eq!(page.take_pending(), None);
}

#[test]
fn installed_versions_are_the_sorted_names_of_installed_folders() {
    let folders = vec![
        folder(Some("1.9.0"), true),
        folder(Some("1.20.11"), true),
        folder(Some("1.19.8"), false),
        folder(None, true),
        folder(Some("1.10.0"), true),
        folder(Some("1.20.11"), true),
    ];
    assert_eq!(installed_versions(&folders), ["1.10.0", "1.20.11", "1.20.11", "1.9.0"]);
    assert_eq!(installed_versions(&Vec::new()), Vec::<String>::new());
}
