use vs_launcher::mods::{
    cap_page, title, total_pages_of, ApiMod, FetchOutcome, ModsPage, FIRST_PAGE_SIZE,
    NEXT_PAGE_SIZE,
};

fn a_mod(id: u32) -> ApiMod {
    ApiMod {
        id,
        displayname: format!("Mod {}", id),
        authorname: "someone".to_string(),
        downloadcount: 0,
        followcount: 0,
        commentcount: 0,
    }
}

fn page_of(from: u32, count: u32) -> Vec<ApiMod> {
    (from..from + count).map(a_mod).collect()
}

#[test]
fn showing_index_77_of_96_asks_for_page_two() {
    let mut page = ModsPage::new();
    assert_eq!(page.first_request(), Some((1, 96)));
    let tx = page.start_fetch(1, 96);
    assert!(page.loading());
    assert_eq!(page.first_request(), None);
    tx.send(FetchOutcome { result: Ok((page_of(0, 96), 5)) }).unwrap();
    page.poll();
    assert!(!page.loading());
    assert_eq!(page.loaded(), 96);
    assert_eq!(page.total_pages(), 5);
    assert_eq!(page.next_page(), 2);
    assert!(page.wants_more(77));
    assert_eq!(page.next_request(), Some((2, 24)));
}

#[test]
fn four_fifths_of_the_list_is_the_threshold() {
    let mut page = ModsPage::new();
    page.accept(Some(FetchOutcome { result: Ok((page_of(0, 96), 5)) }));
    assert!(!page.wants_more(0));
    assert!(!page.wants_more(75));
    assert!(page.wants_more(76));
    assert!(page.wants_more(95));
    let mut page = ModsPage::new();
    page.accept(Some(FetchOutcome { result: Ok((page_of(0, 7), 9)) }));
    assert!(!page.wants_more(4));
    assert!(page.wants_more(5));
}

#[test]
fn page_sizes_are_fixed() {
    assert_eq!(FIRST_PAGE_SIZE, 96);
    assert_eq!(NEXT_PAGE_SIZE, 24);
}

#[test]
fn nothing_more_is_asked_while_a_request_is_under_way() {
    let mut page = ModsPage::new();
    page.accept(Some(FetchOutcome { result: Ok((page_of(0, 96), 5)) }));
    let _tx = page.start_fetch(1, 96);
    assert!(!page.wants_more(95));
    assert_eq!(page.next_request(), None);
    assert_eq!(page.next_page(), 2);
}

#[test]
fn nothing_more_is_asked_after_the_last_page() {
    let mut page = ModsPage::new();
    let tx = page.start_fetch(1, 96);
    tx.send(FetchOutcome { result: Ok((page_of(0, 50), 1)) }).unwrap();
    page.poll();
    assert_eq!(page.next_page(), 2);
    assert!(!page.wants_more(49));
    assert_eq!(page.next_request(), None);
}

#[test]
fn pages_are_appended_without_looking_for_duplicates() {
    let mut page = ModsPage::new();
    let tx = page.start_fetch(1, 96);
    tx.send(FetchOutcome { result: Ok((page_of(0, 3), 4)) }).unwrap();
    page.poll();
    let tx = page.start_fetch(2, 24);
    assert_eq!(page.next_page(), 3);
    tx.send(FetchOutcome { result: Ok((page_of(2, 2), 4)) }).unwrap();
    page.poll();
    assert_eq!(page.loaded(), 5);
    let ids: Vec<u32> = (0..5).map(|i| page.get(i).id).collect();
    assert_eq!(ids, [0, 1, 2, 2, 3]);
}

#[test]
fn a_failed_request_ends_the_loading_and_keeps_the_list() {
    let mut page = ModsPage::new();
    page.accept(Some(FetchOutcome { result: Ok((page_of(0, 3), 4)) }));
    let tx = page.start_fetch(2, 24);
    tx.send(FetchOutcome { result: Err("timeout".to_string()) }).unwrap();
    page.poll();
    assert!(!page.loading());
    assert_eq!(page.loaded(), 3);
    assert_eq!(page.total_pages(), 4);
    assert_eq!(page.next_page(), 3);
}

#[test]
fn polling_without_an_answer_changes_nothing() {
    let mut page = ModsPage::default();
    page.poll();
    assert_eq!((page.loaded(), page.next_page(), page.total_pages(), page.loading()), (0, 1, 0, false));
    let _tx = page.start_fetch(1, 96);
    page.poll();
    page.poll();
    assert_eq!((page.loaded(), page.next_page(), page.total_pages(), page.loading()), (0, 2, 0, true));
    page.accept(None);
    assert!(page.loading());
}

#[test]
fn the_total_is_read_under_either_name_and_defaults_to_one() {
    assert_eq!(total_pages_of(r#"{"totalPages":5,"mods":[]}"#), Some(5));
    assert_eq!(total_pages_of(r#"{"totalpages":7,"mods":[]}"#), Some(7));
    assert_eq!(total_pages_of(r#"{"totalPages":3,"totalpages":7}"#), Some(3));
    assert_eq!(total_pages_of(r#"{"totalPages":"5","totalpages":7}"#), Some(7));
    assert_eq!(total_pages_of(r#"{"totalPages":-1}"#), Some(1));
    assert_eq!(total_pages_of(r#"{"totalPages":2.5}"#), Some(1));
    assert_eq!(total_pages_of(r#"{"mods":[]}"#), Some(1));
    assert_eq!(total_pages_of(r#"[1,2]"#), Some(1));
    assert_eq!(total_pages_of("<html>"), None);
}

#[test]
fn a_page_is_cut_down_to_the_size_asked_for() {
    assert_eq!(cap_page(page_of(0, 30), 24), page_of(0, 24));
    assert_eq!(cap_page(page_of(0, 24), 24), page_of(0, 24));
    assert_eq!(cap_page(page_of(0, 3), 24), page_of(0, 3));
    assert_eq!(cap_page(page_of(0, 3), 0), Vec::new());
}

#[test]
fn a_mod_without_a_name_is_shown_by_its_number() {
    let mut m = a_mod(4711);
    assert_eq!(title(&m), "Mod 4711");
    m.displayname = String::new();
    assert_eq!(title(&m), "ID 4711");
    m.id = 0;
    assert_eq!(title(&m), "ID 0");
}
