use vs_launcher::catalog::{Channel, VersionInfo};
use vs_launcher::progress::{progress_report, Fraction, ProgressEvent};
use vs_launcher::versions::VersionPage;

fn info(ver: &str) -> VersionInfo {
    VersionInfo { ver: ver.to_string(), kind: Channel::Stable }
}

fn ratio(f: Fraction) -> f64 {
    f.done() as f64 / f.total() as f64
}

#[test]
fn a_fresh_page_is_idle_and_descending() {
    let page = VersionPage::new();
    assert!(page.versions.is_empty());
    assert_eq!(page.status_msg(), None);
    assert_eq!(page.progress(), None);
    assert_eq!(page.target_version(), None);
    assert!(!page.needs_ticker());
    assert!(!page.sort_ascending());
    assert_eq!(page.filter_text(), "");
    assert_eq!(page.filter_channel(), "");
    let other = VersionPage::default();
    assert_eq!(other.target_version(), None);
}

#[test]
fn starting_a_download_turns_the_page_to_running() {
    let mut page = VersionPage::new();
    let tx = page.spawn_download(&info("1.20.11"));
    assert!(tx.is_some());
    assert_eq!(page.target_version(), Some("1.20.11".to_string()));
    assert_eq!(page.status_msg(), Some("Downloading v1.20.11…".to_string()));
    let shown = page.progress().expect("progress is shown from the start");
    assert_eq!(shown.done(), 0);
    assert!(page.needs_ticker());
}

#[test]
fn start_while_running_is_refused_and_leaves_the_task_alone() {
    let mut page = VersionPage::new();
    let tx = page.spawn_download(&info("1.20.11")).expect("the first start is accepted");
    tx.send(ProgressEvent::Progress(Fraction::of(1, 4))).unwrap();
    assert!(page.poll_task());
    let second = page.spawn_download(&info("1.21.0"));
    assert!(second.is_none());
    assert_eq!(page.target_version(), Some("1.20.11".to_string()));
    assert_eq!(page.status_msg(), Some("A download is already running".to_string()));
    assert_eq!(page.progress(), Some(Fraction::of(1, 4)));
    tx.send(ProgressEvent::Finished).unwrap();
    assert!(page.poll_task());
    assert_eq!(page.target_version(), None);
}

#[test]
fn polling_an_idle_page_changes_nothing() {
    let mut page = VersionPage::new();
    page.versions.push(info("1.0"));
    for _ in 0..3 {
        assert!(!page.poll_task());
        assert_eq!(page.status_msg(), None);
        assert_eq!(page.progress(), None);
        assert_eq!(page.target_version(), None);
        assert_eq!(page.versions.len(), 1);
    }
}

#[test]
fn polling_without_pending_events_changes_nothing() {
    let mut page = VersionPage::new();
    let tx = page.spawn_download(&info("1.0.0")).unwrap();
    tx.send(ProgressEvent::Progress(Fraction::of(3, 10))).unwrap();
    assert!(page.poll_task());
    for _ in 0..3 {
        assert!(!page.poll_task());
        assert_eq!(page.status_msg(), Some("Downloading v1.0.0…".to_string()));
        assert_eq!(page.progress(), Some(Fraction::of(3, 10)));
        assert_eq!(page.target_version(), Some("1.0.0".to_string()));
    }
}

#[test]
fn events_are_taken_in_the_order_in_which_they_were_sent() {
    let mut page = VersionPage::new();
    let tx = page.spawn_download(&info("1.0.0")).unwrap();
    tx.send(ProgressEvent::Progress(Fraction::of(1, 3))).unwrap();
    tx.send(ProgressEvent::Progress(Fraction::of(2, 3))).unwrap();
    assert!(page.poll_task());
    assert_eq!(page.progress(), Some(Fraction::of(2, 3)));
    tx.send(ProgressEvent::Progress(Fraction::of(3, 3))).unwrap();
    tx.send(ProgressEvent::Finished).unwrap();
    assert!(page.poll_task());
    assert_eq!(page.progress(), None);
    assert_eq!(page.target_version(), None);
    assert_eq!(page.status_msg(), Some("downloaded & extracted".to_string()));
    assert!(!page.needs_ticker());
}

#[test]
fn an_error_ends_the_task_with_its_text() {
    let mut page = VersionPage::new();
    let tx = page.spawn_download(&info("1.0.0")).unwrap();
    tx.send(ProgressEvent::Progress(Fraction::of(1, 2))).unwrap();
    tx.send(ProgressEvent::Error("disk full".to_string())).unwrap();
    assert!(page.poll_task());
    assert_eq!(page.progress(), None);
    assert_eq!(page.target_version(), None);
    assert_eq!(page.status_msg(), Some("disk full".to_string()));
}

#[test]
fn events_after_the_end_are_dropped() {
    let mut page = VersionPage::new();
    let tx = page.spawn_download(&info("1.0.0")).unwrap();
    tx.send(ProgressEvent::Finished).unwrap();
    tx.send(ProgressEvent::Progress(Fraction::of(1, 2))).unwrap();
    tx.send(ProgressEvent::Error("late".to_string())).unwrap();
    assert!(page.poll_task());
    assert_eq!(page.progress(), None);
    assert_eq!(page.status_msg(), Some("downloaded & extracted".to_string()));
    assert!(!page.poll_task());
}

#[test]
fn a_new_download_may_start_after_the_last_one_ended() {
    let mut page = VersionPage::new();
    let tx = page.spawn_download(&info("1.0.0")).unwrap();
    tx.send(ProgressEvent::Error("no route".to_string())).unwrap();
    page.poll_task();
    let again = page.spawn_download(&info("1.0.1"));
    assert!(again.is_some());
    assert_eq!(page.target_version(), Some("1.0.1".to_string()));
}

#[test]
fn apply_events_is_the_fold_of_the_events() {
    let mut page = VersionPage::new();
    let _tx = page.spawn_download(&info("1.0.0")).unwrap();
    assert!(!page.apply_events(Vec::new()));
    assert_eq!(page.status_msg(), Some("Downloading v1.0.0…".to_string()));
    let dirty = page.apply_events(vec![
        ProgressEvent::Progress(Fraction::of(5, 10)),
        ProgressEvent::Progress(Fraction::of(7, 10)),
    ]);
    assert!(dirty);
    assert_eq!(page.progress(), Some(Fraction::of(7, 10)));
    let mut idle = VersionPage::new();
    assert!(!idle.apply_events(vec![ProgressEvent::Finished]));
    assert_eq!(idle.status_msg(), None);
}

#[test]
fn progress_is_the_part_read_cut_off_at_one() {
    let length: u64 = 20000;
    let chunk: u64 = 8192;
    let mut last = 0.0;
    for k in 1..=4u64 {
        let event = progress_report(k * chunk, length).expect("the length is known");
        let fraction = match event {
            ProgressEvent::Progress(f) => f,
            other => panic!("unexpected event {:?}", other),
        };
        let expected = f64::min(1.0, (k * chunk) as f64 / length as f64);
        assert_eq!(ratio(fraction), expected);
        assert!(ratio(fraction) >= last);
        last = ratio(fraction);
    }
    assert_eq!(last, 1.0);
}

#[test]
fn no_progress_is_reported_without_a_length() {
    assert_eq!(progress_report(8192, 0), None);
    assert_eq!(progress_report(0, 0), None);
}

#[test]
fn fractions_stay_between_zero_and_one() {
    let f = Fraction::of(7, 4);
    assert_eq!((f.done(), f.total()), (4, 4));
    let f = Fraction::of(1, 4);
    assert_eq!((f.done(), f.total()), (1, 4));
    let f = Fraction::zero();
    assert_eq!((f.done(), f.total()), (0, 1));
}
