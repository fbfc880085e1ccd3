//! Progress of a download: a fraction of the whole, and the events by which
//! a worker reports to the foreground.

use vstd::prelude::*;

verus! {

/// A fraction between zero and one: `done` parts out of `total`, with
/// `done` never above `total` and `total` never zero.
#[derive(Clone, Copy, Debug, PartialEq, Eq)]
pub struct Fraction {
    done: u64,
    total: u64,
}

/// The smaller of two numbers.
pub open spec fn least(a: nat, b: nat) -> nat {
    if a <= b {
        a
    } else {
        b
    }
}

impl Fraction {
    /// The invariant that every fraction satisfies.
    #[verifier::type_invariant]
    pub closed spec fn in_unit_range(self) -> bool {
        self.done <= self.total && self.total > 0
    }

    /// The numerator.
    pub closed spec fn parts(self) -> nat {
        self.done as nat
    }

    /// The denominator.
    pub closed spec fn whole(self) -> nat {
        self.total as nat
    }

    /// The fraction `done / total`, cut off at one.
    pub fn of(done: u64, total: u64) -> (f: Fraction)
        requires
            total > 0,
        ensures
            f.parts() == least(done as nat, total as nat),
            f.whole() == total,
    {
        if done <= total {
            Fraction { done, total }
        } else {
            Fraction { done: total, total }
        }
    }

    /// Nothing done yet.
    pub fn zero() -> (f: Fraction)
        ensures
            f.parts() == 0,
            f.whole() == 1,
    {
        Fraction { done: 0, total: 1 }
    }

    /// The numerator.
    pub fn done(&self) -> (n: u64)
        ensures
            n == self.parts(),
            n <= self.whole(),
    {
        proof {
            use_type_invariant(self);
        }
        self.done
    }

    /// The denominator, never zero.
    pub fn total(&self) -> (n: u64)
        ensures
            n == self.whole(),
            n > 0,
    {
        proof {
            use_type_invariant(self);
        }
        self.total
    }
}

/// What a worker tells the foreground, in the order in which it happens.
#[derive(Clone, Debug, PartialEq, Eq)]
pub enum ProgressEvent {
    /// So much of the archive has been read.
    Progress(Fraction),
    /// The task failed; the text says how.
    Error(String),
    /// The archive is downloaded and extracted.
    Finished,
}

/// What an event stands for.
pub enum EventModel {
    Progress(Fraction),
    Error(Seq<char>),
    Finished,
}

impl View for ProgressEvent {
    type V = EventModel;

    open spec fn view(&self) -> EventModel {
        match self {
            ProgressEvent::Progress(f) => EventModel::Progress(*f),
            ProgressEvent::Error(text) => EventModel::Error(text@),
            ProgressEvent::Finished => EventModel::Finished,
        }
    }
}

/// What a list of events stands for.
pub open spec fn event_models(events: Seq<ProgressEvent>) -> Seq<EventModel> {
    Seq::new(events.len(), |i: int| events[i]@)
}

/// What is reported after a chunk: nothing where the length of the whole is
/// not known (given as zero), else the part that has been read, cut off at
/// one.
pub open spec fn reported(read: nat, length: nat) -> Option<(nat, nat)> {
    if length == 0 {
        None
    } else {
        Some((least(read, length), length))
    }
}

/// The progress event that is due once `read` bytes have been read of a body
/// that is `length` bytes long; a length of zero stands for an unknown one,
/// and then no event is due.
pub fn progress_report(read: u64, length: u64) -> (event: Option<ProgressEvent>)
    ensures
        match event {
            Some(ProgressEvent::Progress(f)) => reported(read as nat, length as nat) == Some(
                (f.parts(), f.whole()),
            ),
            Some(_) => false,
            None => reported(read as nat, length as nat).is_none(),
        },
{
    if length == 0 {
        None
    } else {
        Some(ProgressEvent::Progress(Fraction::of(read, length)))
    }
}

/// After `k` chunks of `c` bytes of a body of known length `l`, the reported
/// progress is `k * c / l`, cut off at one; and it never goes back as more
/// chunks are read.
pub proof fn lemma_progress_by_chunks(l: nat, c: nat, k: nat, later: nat)
    requires
        l > 0,
        k <= later,
    ensures
        reported(k * c, l) == Some((least(k * c, l), l)),
        least(k * c, l) <= l,
        reported(later * c, l).unwrap().1 == reported(k * c, l).unwrap().1,
        reported(k * c, l).unwrap().0 <= reported(later * c, l).unwrap().0,
{
    assert(k * c <= later * c) by (nonlinear_arith)
        requires
            k <= later,
    ;
}

} // verus!
