//! The mods page: a list that is fetched page by page, the next page being
//! asked for before the reader reaches the end of what is loaded. At most
//! one request is under way at any time.

use vstd::prelude::*;
use vstd::string::StringExecFns;
use crate::json::{json_parse, member, member_of, number, number_in, parse_document, JsonModel};
use crate::text::{decimal, decimal_string, join2};

verus! {

/// The sending end of a `std::sync::mpsc` channel.
#[verifier::external_type_specification]
#[verifier::external_body]
#[verifier::reject_recursive_types(T)]
pub struct ExStdSender<T>(std::sync::mpsc::Sender<T>);

/// The receiving end of a `std::sync::mpsc` channel.
#[verifier::external_type_specification]
#[verifier::external_body]
#[verifier::reject_recursive_types(T)]
pub struct ExStdReceiver<T>(std::sync::mpsc::Receiver<T>);

/// The number of mods that the first request asks for.
pub const FIRST_PAGE_SIZE: usize = 96;

/// The number of mods that every later request asks for.
pub const NEXT_PAGE_SIZE: usize = 24;

/// One mod of the listing.
#[derive(Clone, Debug, PartialEq, Eq)]
pub struct ApiMod {
    pub id: u32,
    pub displayname: String,
    pub authorname: String,
    pub downloadcount: u32,
    pub followcount: u32,
    pub commentcount: u32,
}

/// What a worker hands back: the mods of one page and the number of pages,
/// or the reason why it has none.
pub struct FetchOutcome {
    pub result: Result<(Vec<ApiMod>, usize), String>,
}

/// Calls `std::sync::mpsc::channel`: a new channel, as its two ends. Nothing
/// is claimed of it.
#[verifier::external_body]
fn open_channel() -> (ends: (
    std::sync::mpsc::Sender<FetchOutcome>,
    std::sync::mpsc::Receiver<FetchOutcome>,
)) {
    std::sync::mpsc::channel()
}

/// Calls `Receiver::try_recv` and drops the reason where nothing came: what
/// the worker has sent, if it has sent anything yet. Whether it has depends
/// on the worker, so nothing is claimed of the result.
#[verifier::external_body]
fn try_take(rx: &std::sync::mpsc::Receiver<FetchOutcome>) -> (outcome: Option<FetchOutcome>) {
    rx.try_recv().ok()
}

/// The mods page.
pub struct ModsPage {
    mods: Vec<ApiMod>,
    next_page: usize,
    total_pages: usize,
    loading: bool,
    rx: Option<std::sync::mpsc::Receiver<FetchOutcome>>,
}

/// What the page holds.
#[verifier::ext_equal]
pub struct ModsModel {
    /// The mods that are loaded, in the order in which they arrived.
    pub mods: Seq<ApiMod>,
    /// The page that the next request asks for.
    pub next_page: usize,
    /// The number of pages that the listing has; zero before it is known.
    pub total_pages: usize,
    /// Whether a request is under way.
    pub loading: bool,
    /// Whether the page waits for a worker's answer.
    pub waiting: bool,
}

impl View for ModsPage {
    type V = ModsModel;

    closed spec fn view(&self) -> ModsModel {
        ModsModel {
            mods: self.mods@,
            next_page: self.next_page,
            total_pages: self.total_pages,
            loading: self.loading,
            waiting: self.rx.is_some(),
        }
    }
}

/// The page as it is first shown.
pub open spec fn initial_mods() -> ModsModel {
    ModsModel { mods: Seq::empty(), next_page: 1, total_pages: 0, loading: false, waiting: false }
}

/// True when showing the mod at `index` calls for more: no request is under
/// way, pages remain, and the index has passed four fifths of what is
/// loaded.
pub open spec fn calls_for_more(m: ModsModel, index: int) -> bool {
    !m.loading && m.next_page <= m.total_pages && index >= m.mods.len() * 4 / 5
}

/// What an answer does to the page: the request is over; where the answer
/// holds mods they are added at the end and the number of pages is taken
/// over; a failed request leaves both as they were.
pub open spec fn after_answer(m: ModsModel, answer: Result<(Vec<ApiMod>, usize), String>)
    -> ModsModel {
    match answer {
        Ok((mods, total)) => ModsModel {
            mods: m.mods + mods@,
            total_pages: total,
            loading: false,
            waiting: false,
            ..m
        },
        Err(_) => ModsModel { loading: false, waiting: false, ..m },
    }
}

/// The name under which a mod is shown: its display name, or its number
/// where it has none.
pub open spec fn title_spec(m: ApiMod) -> Seq<char> {
    if m.displayname@.len() == 0 {
        "ID "@ + decimal(m.id as nat)
    } else {
        m.displayname@
    }
}

/// The number of pages that a listing announces: what it gives under
/// `totalPages`, else what it gives under `totalpages`, else one.
pub open spec fn announced_pages(doc: JsonModel) -> u64 {
    match number_in(member_of(doc, "totalPages"@)) {
        Some(n) => n,
        None => match number_in(member_of(doc, "totalpages"@)) {
            Some(n) => n,
            None => 1,
        },
    }
}

/// The number of pages that the body of an answer announces; nothing where
/// the body is no JSON document.
pub fn total_pages_of(body: &str) -> (pages: Option<u64>)
    ensures
        pages == match json_parse(body@) {
            Some(doc) => Some(announced_pages(doc)),
            None => None,
        },
{
    match parse_document(body) {
        None => None,
        Some(doc) => {
            match number(member(&doc, "totalPages")) {
                Some(n) => Some(n),
                None => match number(member(&doc, "totalpages")) {
                    Some(n) => Some(n),
                    None => Some(1),
                },
            }
        },
    }
}

/// Cuts the mods of an answer down to the number that was asked for.
pub fn cap_page(mods: Vec<ApiMod>, size: usize) -> (capped: Vec<ApiMod>)
    ensures
        capped@ == if mods.len() <= size {
            mods@
        } else {
            mods@.take(size as int)
        },
{
    let mut capped = mods;
    if capped.len() > size {
        capped.truncate(size);
        assert(capped@ =~= mods@.take(size as int));
    }
    capped
}

/// The name under which a mod is shown.
pub fn title(m: &ApiMod) -> (text: String)
    ensures
        text@ == title_spec(*m),
{
    if m.displayname.as_str().is_empty() {
        let id = decimal_string(m.id as u64);
        join2("ID ", id.as_str())
    } else {
        m.displayname.clone()
    }
}

impl ModsPage {
    /// The page as it is first shown.
    pub fn new() -> (page: ModsPage)
        ensures
            page@ == initial_mods(),
    {
        let page = ModsPage {
            mods: Vec::new(),
            next_page: 1,
            total_pages: 0,
            loading: false,
            rx: None,
        };
        assert(page@ =~= initial_mods());
        page
    }

    /// The number of mods that are loaded.
    pub fn loaded(&self) -> (n: usize)
        ensures
            n == self@.mods.len(),
    {
        self.mods.len()
    }

    /// The mod at `index`.
    pub fn get(&self, index: usize) -> (m: &ApiMod)
        requires
            index < self@.mods.len(),
        ensures
            *m == self@.mods[index as int],
    {
        &self.mods[index]
    }

    /// Whether a request is under way.
    pub fn loading(&self) -> (b: bool)
        ensures
            b == self@.loading,
    {
        self.loading
    }

    /// The page that the next request asks for.
    pub fn next_page(&self) -> (n: usize)
        ensures
            n == self@.next_page,
    {
        self.next_page
    }

    /// The number of pages that the listing has; zero before it is known.
    pub fn total_pages(&self) -> (n: usize)
        ensures
            n == self@.total_pages,
    {
        self.total_pages
    }

    /// The request with which the page has to begin: the first page, with
    /// the first page's size, as long as nothing is loaded and no request is
    /// under way.
    pub fn first_request(&self) -> (request: Option<(usize, usize)>)
        ensures
            request == if self@.mods.len() == 0 && !self@.loading {
                Some((1usize, FIRST_PAGE_SIZE))
            } else {
                None
            },
    {
        if self.mods.len() == 0 && !self.loading {
            Some((1, FIRST_PAGE_SIZE))
        } else {
            None
        }
    }

    /// Tells whether showing the mod at `index` calls for more.
    pub fn wants_more(&self, index: usize) -> (more: bool)
        ensures
            more == calls_for_more(self@, index as int),
    {
        let len = self.mods.len();
        let threshold = len / 5 * 4 + len % 5 * 4 / 5;
        assert(threshold == len * 4 / 5) by (nonlinear_arith)
            requires
                threshold == len / 5 * 4 + len % 5 * 4 / 5,
        ;
        !self.loading && self.next_page <= self.total_pages && index >= threshold
    }

    /// The request that is due after the whole list was shown: the next
    /// page, with the later pages' size, if showing any of the mods called
    /// for more.
    pub fn next_request(&self) -> (request: Option<(usize, usize)>)
        ensures
            request == if exists|i: int| 0 <= i < self@.mods.len() && calls_for_more(self@, i) {
                Some((self@.next_page, NEXT_PAGE_SIZE))
            } else {
                None
            },
    {
        let len = self.mods.len();
        if len > 0 && self.wants_more(len - 1) {
            assert(calls_for_more(self@, len - 1));
            Some((self.next_page, NEXT_PAGE_SIZE))
        } else {
            assert forall|i: int| 0 <= i < self@.mods.len() implies !calls_for_more(self@, i) by {
                if calls_for_more(self@, i) {
                    assert(calls_for_more(self@, len - 1));
                }
            }
            None
        }
    }

    /// Starts the request for a page: from now on a request is under way,
    /// and the page after this one is the next to be asked for. The call
    /// returns the sending end of a fresh channel, for the one worker of this
    /// request.
    pub fn start_fetch(&mut self, page: usize, size: usize) -> (tx: std::sync::mpsc::Sender<
        FetchOutcome,
    >)
        requires
            page < usize::MAX,
        ensures
            final(self)@ == (ModsModel {
                loading: true,
                waiting: true,
                next_page: (page + 1) as usize,
                ..old(self)@
            }),
    {
        self.loading = true;
        let (tx, rx) = open_channel();
        self.rx = Some(rx);
        self.next_page = page + 1;
        assert(self@ =~= (ModsModel {
            loading: true,
            waiting: true,
            next_page: (page + 1) as usize,
            ..old(self)@
        }));
        tx
    }

    /// Takes in the worker's answer, if there is one.
    pub fn accept(&mut self, outcome: Option<FetchOutcome>)
        ensures
            final(self)@ == match outcome {
                Some(o) => after_answer(old(self)@, o.result),
                None => old(self)@,
            },
    {
        if let Some(o) = outcome {
            self.loading = false;
            self.rx = None;
            match o.result {
                Ok((mods, total)) => {
                    let mut mods = mods;
                    let ghost arrived = mods@;
                    self.total_pages = total;
                    self.mods.append(&mut mods);
                    assert(self@ =~= (ModsModel {
                        mods: old(self)@.mods + arrived,
                        total_pages: total,
                        loading: false,
                        waiting: false,
                        ..old(self)@
                    }));
                },
                Err(_) => {
                    assert(self@ =~= (ModsModel {
                        loading: false,
                        waiting: false,
                        ..old(self)@
                    }));
                },
            }
        }
    }

    /// Looks, without blocking, whether the worker has answered, and takes
    /// the answer in. With no request to wait for, or no answer yet, nothing
    /// changes.
    pub fn poll(&mut self)
        ensures
            final(self)@ == old(self)@ || exists|answer: Result<(Vec<ApiMod>, usize), String>|
                final(self)@ == #[trigger] after_answer(old(self)@, answer),
            !old(self)@.waiting ==> final(self)@ == old(self)@,
    {
        let outcome = match &self.rx {
            Some(rx) => try_take(rx),
            None => None,
        };
        self.accept(outcome);
    }
}

impl Default for ModsPage {
    fn default() -> (page: ModsPage)
        ensures
            page@ == initial_mods(),
    {
        ModsPage::new()
    }
}

} // verus!
