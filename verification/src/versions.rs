//! The versions page: the list of remote versions with its filter and sort
//! order, and the supervisor of the one download that may run at a time.
//!
//! A download is started with `spawn_download`, which hands out the sending
//! end of a channel for the worker, and is followed with `poll_task`, which
//! never blocks. The worker alone sends; the page alone changes what is
//! shown.

use vstd::prelude::*;
use vstd::string::StringExecFns;
use crate::catalog::{
    catalog_from_response, info_models, label_of, parsed_catalog, FetchError, VersionInfo,
    VersionInfoModel,
};
use crate::progress::{event_models, EventModel, Fraction, ProgressEvent};
use crate::sorting::{keys_of, keys_sorted, sort_versions, sorted_from};
use crate::text::{decimal, decimal_string, has_substring, join2, join3, same_text, str_contains};

verus! {

/// The sending end of a `crossbeam_channel` channel.
#[verifier::external_type_specification]
#[verifier::external_body]
#[verifier::reject_recursive_types(T)]
pub struct ExSender<T>(crossbeam_channel::Sender<T>);

/// The receiving end of a `crossbeam_channel` channel.
#[verifier::external_type_specification]
#[verifier::external_body]
#[verifier::reject_recursive_types(T)]
pub struct ExReceiver<T>(crossbeam_channel::Receiver<T>);

/// Calls `crossbeam_channel::unbounded`: a new channel without a limit, as
/// its two ends. Nothing is claimed of it.
#[verifier::external_body]
fn open_channel() -> (ends: (
    crossbeam_channel::Sender<ProgressEvent>,
    crossbeam_channel::Receiver<ProgressEvent>,
)) {
    crossbeam_channel::unbounded()
}

/// Calls `Receiver::try_iter` and collects what it yields: the events that
/// are waiting in the channel, in the order in which they were sent, without
/// blocking. Which events these are depends on the worker, so nothing is
/// claimed of them.
#[verifier::external_body]
fn drain(rx: &crossbeam_channel::Receiver<ProgressEvent>) -> (events: Vec<ProgressEvent>) {
    rx.try_iter().collect()
}

/// The task that the page supervises.
enum TaskState {
    Idle,
    Running { ver: String, rx: crossbeam_channel::Receiver<ProgressEvent> },
}

/// The versions page.
pub struct VersionPage {
    pub versions: Vec<VersionInfo>,
    status_msg: Option<String>,
    progress_frac: Option<Fraction>,
    task: TaskState,
    filter_text: String,
    filter_channel: String,
    sort_ascending: bool,
    loaded_once: bool,
}

/// What the page shows and remembers.
#[verifier::ext_equal]
pub struct PageModel {
    /// The version records, in the order in which they are listed.
    pub versions: Seq<VersionInfoModel>,
    /// The status line, if there is one.
    pub status: Option<Seq<char>>,
    /// The progress of the running download, if it is shown.
    pub progress: Option<Fraction>,
    /// The version that is being downloaded, if a download is running.
    pub running: Option<Seq<char>>,
    /// The receiving end of the channel on which the worker of the running
    /// download reports; there is one exactly while a download is running.
    pub channel: Option<crossbeam_channel::Receiver<ProgressEvent>>,
    /// The text that a listed version has to hold; empty for any.
    pub filter_text: Seq<char>,
    /// The channel that a listed version has to be of; empty for any.
    pub filter_channel: Seq<char>,
    /// Whether the list is sorted in ascending order.
    pub ascending: bool,
    /// Whether the list has been asked for once.
    pub loaded_once: bool,
}

/// What an optional string stands for.
pub open spec fn text_model(s: Option<String>) -> Option<Seq<char>> {
    match s {
        Some(text) => Some(text@),
        None => None,
    }
}

impl View for VersionPage {
    type V = PageModel;

    closed spec fn view(&self) -> PageModel {
        PageModel {
            versions: info_models(self.versions@),
            status: text_model(self.status_msg),
            progress: self.progress_frac,
            running: match self.task {
                TaskState::Idle => None,
                TaskState::Running { ver, .. } => Some(ver@),
            },
            channel: match self.task {
                TaskState::Idle => None,
                TaskState::Running { rx, .. } => Some(rx),
            },
            filter_text: self.filter_text@,
            filter_channel: self.filter_channel@,
            ascending: self.sort_ascending,
            loaded_once: self.loaded_once,
        }
    }
}

/// The page as it is first shown: nothing listed, nothing running, no
/// filter, descending order.
pub open spec fn initial_page() -> PageModel {
    PageModel {
        versions: Seq::empty(),
        status: None,
        progress: None,
        running: None,
        channel: None,
        filter_text: Seq::empty(),
        filter_channel: Seq::empty(),
        ascending: false,
        loaded_once: false,
    }
}

/// The page with another status line.
pub open spec fn with_status(m: PageModel, status: Seq<char>) -> PageModel {
    PageModel { status: Some(status), ..m }
}

/// The page with another list and another status line.
pub open spec fn with_listing(m: PageModel, versions: Seq<VersionInfoModel>, status: Seq<char>)
    -> PageModel {
    PageModel { versions, status: Some(status), ..m }
}

/// What one event does to the page. While no download is running an event is
/// dropped. Progress is shown. The end of the task, good or bad, clears the
/// progress, leaves no download running, lets go of its channel and sets the
/// status line: to the text of the error, or to the word that the download
/// is done.
pub open spec fn after_event(m: PageModel, event: EventModel) -> PageModel {
    if m.running.is_none() {
        m
    } else {
        match event {
            EventModel::Progress(f) => PageModel { progress: Some(f), ..m },
            EventModel::Finished => PageModel {
                status: Some("downloaded & extracted"@),
                progress: None,
                running: None,
                channel: None,
                ..m
            },
            EventModel::Error(text) => PageModel {
                status: Some(text),
                progress: None,
                running: None,
                channel: None,
                ..m
            },
        }
    }
}

/// What a run of events does to the page, taken in the order in which they
/// were sent.
pub open spec fn after_events(m: PageModel, events: Seq<EventModel>) -> PageModel
    decreases events.len(),
{
    if events.len() == 0 {
        m
    } else {
        after_event(after_events(m, events.drop_last()), events.last())
    }
}

/// True when a version passes the filter: its name holds the filter text,
/// and its channel is the one asked for; an empty filter admits all.
pub open spec fn filter_admits(text: Seq<char>, channel: Seq<char>, v: VersionInfoModel) -> bool {
    (text.len() == 0 || has_substring(v.ver, text)) && (channel.len() == 0 || label_of(v.kind)
        == channel)
}

/// The status line after a list of `n` versions has arrived.
pub open spec fn found_message(n: nat) -> Seq<char> {
    "Found "@ + decimal(n) + " versions"@
}

/// A poll without events changes nothing.
pub proof fn lemma_empty_poll(m: PageModel)
    ensures
        after_events(m, Seq::empty()) == m,
{
}

/// Events never start a download and never change its target or its
/// channel: afterwards either the same download is running, on the same
/// channel, or none is. The list of versions, the filter and the sort order
/// are out of their reach.
pub proof fn lemma_events_keep_target(m: PageModel, events: Seq<EventModel>)
    ensures
        (after_events(m, events).running == m.running && after_events(m, events).channel
            == m.channel) || (after_events(m, events).running.is_none() && after_events(
            m,
            events,
        ).channel.is_none()),
        after_events(m, events).versions == m.versions,
        after_events(m, events).filter_text == m.filter_text,
        after_events(m, events).filter_channel == m.filter_channel,
        after_events(m, events).ascending == m.ascending,
        after_events(m, events).loaded_once == m.loaded_once,
        m.running.is_none() ==> after_events(m, events) == m,
    decreases events.len(),
{
    if events.len() > 0 {
        lemma_events_keep_target(m, events.drop_last());
    }
}

impl VersionPage {
    /// The page holds a channel exactly while a download is running.
    pub proof fn lemma_channel_while_running(&self)
        ensures
            self@.channel.is_some() == self@.running.is_some(),
    {
    }

    /// The page as it is first shown.
    pub fn new() -> (page: VersionPage)
        ensures
            page@ == initial_page(),
    {
        let page = VersionPage {
            versions: Vec::new(),
            status_msg: None,
            progress_frac: None,
            task: TaskState::Idle,
            filter_text: String::new(),
            filter_channel: String::new(),
            sort_ascending: false,
            loaded_once: false,
        };
        assert(page@ =~= initial_page());
        page
    }

    /// The status line, if there is one.
    pub fn status_msg(&self) -> (s: Option<String>)
        ensures
            text_model(s) == self@.status,
    {
        match &self.status_msg {
            Some(text) => Some(text.clone()),
            None => None,
        }
    }

    /// The progress that is shown, if any.
    pub fn progress(&self) -> (p: Option<Fraction>)
        ensures
            p == self@.progress,
    {
        self.progress_frac
    }

    /// The version that is being downloaded, if a download is running.
    pub fn target_version(&self) -> (v: Option<String>)
        ensures
            text_model(v) == self@.running,
    {
        match &self.task {
            TaskState::Idle => None,
            TaskState::Running { ver, .. } => Some(ver.clone()),
        }
    }

    /// Whether the list is sorted in ascending order.
    pub fn sort_ascending(&self) -> (a: bool)
        ensures
            a == self@.ascending,
    {
        self.sort_ascending
    }

    /// The text that a listed version has to hold.
    pub fn filter_text(&self) -> (s: String)
        ensures
            s@ == self@.filter_text,
    {
        self.filter_text.clone()
    }

    /// The channel that a listed version has to be of.
    pub fn filter_channel(&self) -> (s: String)
        ensures
            s@ == self@.filter_channel,
    {
        self.filter_channel.clone()
    }

    /// Sets the text that a listed version has to hold; empty for any.
    pub fn set_filter_text(&mut self, text: &str)
        ensures
            final(self)@ == (PageModel { filter_text: text@, ..old(self)@ }),
    {
        self.filter_text = String::from_str(text);
        assert(self@ =~= (PageModel { filter_text: text@, ..old(self)@ }));
    }

    /// Sets the channel that a listed version has to be of; empty for any.
    pub fn set_filter_channel(&mut self, channel: &str)
        ensures
            final(self)@ == (PageModel { filter_channel: channel@, ..old(self)@ }),
    {
        self.filter_channel = String::from_str(channel);
        assert(self@ =~= (PageModel { filter_channel: channel@, ..old(self)@ }));
    }

    /// Tells, once, that the list has to be asked for: true at the first
    /// call and false ever after.
    pub fn should_autoload(&mut self) -> (load: bool)
        ensures
            load == !old(self)@.loaded_once,
            final(self)@ == (PageModel { loaded_once: true, ..old(self)@ }),
    {
        let load = !self.loaded_once;
        self.loaded_once = true;
        assert(self@ =~= (PageModel { loaded_once: true, ..old(self)@ }));
        load
    }

    /// Tells whether a version passes the filter.
    pub fn matches_filter(&self, v: &VersionInfo) -> (shown: bool)
        ensures
            shown == filter_admits(self@.filter_text, self@.filter_channel, v@),
    {
        let text_ok = self.filter_text.as_str().is_empty() || str_contains(
            v.ver.as_str(),
            self.filter_text.as_str(),
        );
        let label = v.kind.label();
        let channel_ok = self.filter_channel.as_str().is_empty() || same_text(
            label.as_str(),
            self.filter_channel.as_str(),
        );
        text_ok && channel_ok
    }

    /// Sorts the list in the order that is set.
    pub fn sort_versions(&mut self)
        ensures
            sorted_from(old(self)@.versions, final(self)@.versions, old(self)@.ascending),
            keys_sorted(keys_of(final(self)@.versions), old(self)@.ascending),
            keys_sorted(keys_of(old(self)@.versions), old(self)@.ascending) ==> final(self)@
                == old(self)@,
            final(self)@ == (PageModel { versions: final(self)@.versions, ..old(self)@ }),
    {
        sort_versions(&mut self.versions, self.sort_ascending);
        assert(self@ =~= (PageModel { versions: self@.versions, ..old(self)@ }));
        proof {
            if keys_sorted(keys_of(old(self)@.versions), old(self)@.ascending) {
                assert(self@ =~= old(self)@);
            }
        }
    }

    /// Turns the sort order round and sorts the list anew.
    ///
    /// Where the list stood sorted and no two versions with a key are level,
    /// this exactly reverses the order of the versions that have a key; see
    /// `sorts_into`.
    pub fn toggle_sort(&mut self)
        ensures
            final(self)@.ascending == !old(self)@.ascending,
            sorted_from(old(self)@.versions, final(self)@.versions, !old(self)@.ascending),
            keys_sorted(keys_of(final(self)@.versions), !old(self)@.ascending),
            final(self)@ == (PageModel {
                versions: final(self)@.versions,
                ascending: !old(self)@.ascending,
                ..old(self)@
            }),
    {
        self.sort_ascending = !self.sort_ascending;
        sort_versions(&mut self.versions, self.sort_ascending);
        assert(self@ =~= (PageModel {
            versions: self@.versions,
            ascending: !old(self)@.ascending,
            ..old(self)@
        }));
    }

    /// Marks the list as being fetched: it is emptied and the status line
    /// says so.
    pub fn begin_fetch(&mut self)
        ensures
            final(self)@ == with_listing(old(self)@, Seq::empty(), "Fetching list…"@),
    {
        self.status_msg = Some(String::from_str("Fetching list…"));
        self.versions.clear();
        assert(self@ =~= with_listing(old(self)@, Seq::empty(), "Fetching list…"@));
    }

    /// Takes in the answer to the request for the catalog: the body of the
    /// response, or the reason why there is none.
    ///
    /// A body that holds a catalog replaces the list with its records,
    /// sorted in the order that is set, and the status line counts them. Any
    /// other body leaves the list empty under a status line that names the
    /// shape; a failed request leaves it empty under the reason.
    pub fn fetch_versions(&mut self, response: Result<String, String>)
        ensures
            match response {
                Err(reason) => final(self)@ == with_listing(
                    old(self)@,
                    Seq::empty(),
                    "Error: "@ + reason@,
                ),
                Ok(body) => match parsed_catalog(body@) {
                    None => final(self)@ == with_listing(
                        old(self)@,
                        Seq::empty(),
                        "Unexpected JSON shape"@,
                    ),
                    Some(records) => {
                        &&& sorted_from(records, final(self)@.versions, old(self)@.ascending)
                        &&& keys_sorted(keys_of(final(self)@.versions), old(self)@.ascending)
                        &&& final(self)@ == with_listing(
                            old(self)@,
                            final(self)@.versions,
                            found_message(records.len()),
                        )
                    },
                },
            },
    {
        match catalog_from_response(response) {
            Ok(list) => {
                self.versions = list;
                sort_versions(&mut self.versions, self.sort_ascending);
                let count = decimal_string(self.versions.len() as u64);
                self.status_msg = Some(join3("Found ", count.as_str(), " versions"));
                assert(self@ =~= with_listing(
                    old(self)@,
                    self@.versions,
                    found_message(self@.versions.len()),
                ));
            },
            Err(FetchError::Shape) => {
                self.versions = Vec::new();
                self.status_msg = Some(String::from_str("Unexpected JSON shape"));
                assert(self@ =~= with_listing(
                    old(self)@,
                    Seq::empty(),
                    "Unexpected JSON shape"@,
                ));
            },
            Err(FetchError::Network(reason)) => {
                self.versions = Vec::new();
                self.status_msg = Some(join2("Error: ", reason.as_str()));
                assert(self@ =~= with_listing(old(self)@, Seq::empty(), "Error: "@ + reason@));
            },
        }
    }

    /// Starts the download of a version, unless one is running.
    ///
    /// While a download is running the call is refused: it returns nothing,
    /// says so in the status line and leaves the running download, its
    /// target, its progress and its channel, as it is. Otherwise the page
    /// turns to that version with no progress yet and holds the receiving end
    /// of a fresh channel, and the call returns the sending end, to be handed
    /// to the one worker of this download.
    pub fn spawn_download(&mut self, v: &VersionInfo) -> (tx: Option<
        crossbeam_channel::Sender<ProgressEvent>,
    >)
        ensures
            old(self)@.running.is_some() ==> tx.is_none() && final(self)@ == with_status(
                old(self)@,
                "A download is already running"@,
            ),
            old(self)@.running.is_none() ==> tx.is_some() && final(self)@.progress.is_some()
                && final(self)@.progress.unwrap().parts() == 0
                && final(self)@.progress.unwrap().whole() == 1 && final(self)@.channel.is_some()
                && final(self)@ == (PageModel {
                status: Some("Downloading v"@ + v@.ver + "…"@),
                progress: final(self)@.progress,
                running: Some(v@.ver),
                channel: final(self)@.channel,
                ..old(self)@
            }),
    {
        if let TaskState::Running { .. } = &self.task {
            self.status_msg = Some(String::from_str("A download is already running"));
            assert(self@ =~= with_status(old(self)@, "A download is already running"@));
            return None;
        }
        let (tx, rx) = open_channel();
        self.task = TaskState::Running { ver: v.ver.clone(), rx };
        self.progress_frac = Some(Fraction::zero());
        self.status_msg = Some(join3("Downloading v", v.ver.as_str(), "…"));
        assert(self@ =~= (PageModel {
            status: Some("Downloading v"@ + v@.ver + "…"@),
            progress: self@.progress,
            running: Some(v@.ver),
            channel: self@.channel,
            ..old(self)@
        }));
        Some(tx)
    }

    /// Applies a run of events to the page, in their order, and tells
    /// whether anything may have changed.
    pub fn apply_events(&mut self, events: Vec<ProgressEvent>) -> (dirty: bool)
        ensures
            final(self)@ == after_events(old(self)@, event_models(events@)),
            dirty == (old(self)@.running.is_some() && events.len() > 0),
    {
        let ghost models = event_models(events@);
        let was_running = self.needs_ticker();
        let mut i: usize = 0;
        while i < events.len()
            invariant
                i <= events.len(),
                models == event_models(events@),
                self@ == after_events(old(self)@, models.take(i as int)),
            decreases events.len() - i,
        {
            proof {
                assert(models.take(i + 1).drop_last() =~= models.take(i as int));
                assert(models.take(i + 1).last() == events@[i as int]@);
            }
            let ghost before = self@;
            if let TaskState::Running { .. } = &self.task {
                match &events[i] {
                    ProgressEvent::Progress(f) => {
                        self.progress_frac = Some(*f);
                    },
                    ProgressEvent::Finished => {
                        self.status_msg = Some(String::from_str("downloaded & extracted"));
                        self.progress_frac = None;
                        self.task = TaskState::Idle;
                    },
                    ProgressEvent::Error(text) => {
                        self.status_msg = Some(text.clone());
                        self.progress_frac = None;
                        self.task = TaskState::Idle;
                    },
                }
            }
            assert(self@ =~= after_event(before, events@[i as int]@));
            i += 1;
        }
        assert(models.take(events.len() as int) =~= models);
        was_running && events.len() > 0
    }

    /// Takes in whatever the worker has reported since the last poll,
    /// without blocking, and tells whether anything may have changed.
    ///
    /// With no download running this does nothing. Otherwise the page is
    /// what the waiting events make of it, taken in the order in which they
    /// were sent; which events are waiting is up to the worker. Whatever they
    /// are, afterwards either the same download is running, on the same
    /// channel, or none is.
    pub fn poll_task(&mut self) -> (dirty: bool)
        ensures
            exists|events: Seq<EventModel>|
                final(self)@ == #[trigger] after_events(old(self)@, events) && dirty == (old(
                    self,
                )@.running.is_some() && events.len() > 0),
            old(self)@.running.is_none() ==> final(self)@ == old(self)@ && !dirty,
            (final(self)@.running == old(self)@.running && final(self)@.channel == old(
                self,
            )@.channel) || (final(self)@.running.is_none() && final(self)@.channel.is_none()),
            final(self)@.versions == old(self)@.versions,
    {
        let events = match &self.task {
            TaskState::Running { rx, .. } => drain(rx),
            TaskState::Idle => Vec::new(),
        };
        proof {
            lemma_events_keep_target(self@, event_models(events@));
        }
        self.apply_events(events)
    }

    /// Tells whether the page has to be polled again soon: true while a
    /// download is running.
    pub fn needs_ticker(&self) -> (running: bool)
        ensures
            running == self@.running.is_some(),
    {
        match &self.task {
            TaskState::Running { .. } => true,
            TaskState::Idle => false,
        }
    }
}

impl Default for VersionPage {
    fn default() -> (page: VersionPage)
        ensures
            page@ == initial_page(),
    {
        VersionPage::new()
    }
}

} // verus!
