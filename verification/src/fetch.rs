//! The paginated fetch of an address's history.
//!
//! The worker never talks to the provider itself. It says which page to ask
//! for next, is handed the outcome of that request, publishes what arrived
//! into the shared store and decides whether to go on. Whoever drives it
//! performs the requests.

use vstd::prelude::*;
use crate::error::ApiError;
use crate::store::TransactionStore;
use crate::transaction::{Transaction, TransactionView};

verus! {

/// Where a fetch stands.
pub enum FetchState {
    /// The first page has been asked for, or is about to be.
    AwaitingFirst,
    /// At least one page has arrived; the next one is to start behind the
    /// transaction with this signature.
    AwaitingNext(Seq<char>),
    /// No further page will be asked for.
    Finished,
}

/// A fetch together with the shared state that it writes.
pub struct Session {
    pub state: FetchState,
    pub store: Seq<TransactionView>,
    pub fetching: bool,
}

/// The request that a fetch in `state` makes next: `None` when it makes no
/// more requests, otherwise the cursor to send, if any.
pub open spec fn request_of(state: FetchState) -> Option<Option<Seq<char>>> {
    match state {
        FetchState::AwaitingFirst => Some(None),
        FetchState::AwaitingNext(cursor) => Some(Some(cursor)),
        FetchState::Finished => None,
    }
}

/// The session after the outcome of the pending request has been taken in.
///
/// A failure and an empty page both end the fetch and clear the busy flag;
/// a failure leaves the store as it was. The first page takes the place of
/// the store's earlier content, later pages are added behind it. After a
/// page with transactions the cursor is the signature of its last one.
pub open spec fn step(
    session: Session,
    outcome: Result<Seq<TransactionView>, ApiError>,
) -> Session {
    match session.state {
        FetchState::Finished => session,
        FetchState::AwaitingFirst => match outcome {
            Err(_) => Session { state: FetchState::Finished, store: session.store, fetching: false },
            Ok(page) => if page.len() == 0 {
                Session { state: FetchState::Finished, store: page, fetching: false }
            } else {
                Session {
                    state: FetchState::AwaitingNext(page.last().signature),
                    store: page,
                    fetching: session.fetching,
                }
            },
        },
        FetchState::AwaitingNext(_) => match outcome {
            Err(_) => Session { state: FetchState::Finished, store: session.store, fetching: false },
            Ok(page) => if page.len() == 0 {
                Session { state: FetchState::Finished, store: session.store, fetching: false }
            } else {
                Session {
                    state: FetchState::AwaitingNext(page.last().signature),
                    store: session.store + page,
                    fetching: session.fetching,
                }
            },
        },
    }
}

/// The mathematical value of the outcome of a page request.
pub open spec fn outcome_view(outcome: Result<Vec<Transaction>, ApiError>) -> Result<
    Seq<TransactionView>,
    ApiError,
> {
    match outcome {
        Ok(page) => Ok(page.deep_view()),
        Err(error) => Err(error),
    }
}

#[derive(Clone, Copy, Debug, PartialEq, Eq, Structural)]
enum Phase {
    First,
    Next,
    Finished,
}

/// What to ask the provider for: the page that starts behind the transaction
/// with the signature `before`, or the first page.
#[derive(Debug, PartialEq, Eq)]
pub struct PageRequest {
    pub before: Option<String>,
}

impl View for PageRequest {
    type V = Option<Seq<char>>;

    open spec fn view(&self) -> Option<Seq<char>> {
        match self.before {
            Some(cursor) => Some(cursor@),
            None => None,
        }
    }
}

/// The fetch worker's own state: how far the pagination has come.
#[derive(Debug)]
pub struct FetchWorker {
    phase: Phase,
    cursor: String,
}

impl View for FetchWorker {
    type V = FetchState;

    closed spec fn view(&self) -> FetchState {
        match self.phase {
            Phase::First => FetchState::AwaitingFirst,
            Phase::Next => FetchState::AwaitingNext(self.cursor@),
            Phase::Finished => FetchState::Finished,
        }
    }
}

impl FetchWorker {
    /// Begins a fetch: raises the busy flag and awaits the first page.
    pub fn start(fetching: &mut bool) -> (worker: Self)
        ensures
            worker@ == FetchState::AwaitingFirst,
            *final(fetching),
    {
        *fetching = true;
        FetchWorker { phase: Phase::First, cursor: String::new() }
    }

    /// The request to perform next, or `None` once the fetch has finished.
    pub fn request(&self) -> (next: Option<PageRequest>)
        ensures
            match next {
                Some(request) => request_of(self@) == Some(request@),
                None => request_of(self@) is None,
            },
    {
        match self.phase {
            Phase::First => Some(PageRequest { before: None }),
            Phase::Next => Some(PageRequest { before: Some(self.cursor.clone()) }),
            Phase::Finished => None,
        }
    }

    /// Whether the fetch has finished.
    pub fn is_finished(&self) -> (finished: bool)
        ensures
            finished == (self@ == FetchState::Finished),
    {
        match self.phase {
            Phase::Finished => true,
            _ => false,
        }
    }

    /// Takes in the outcome of the request that [`FetchWorker::request`]
    /// named, publishing the page into `store` and clearing `fetching` when
    /// the fetch ends, as [`step`] says.
    pub fn receive(
        &mut self,
        outcome: Result<Vec<Transaction>, ApiError>,
        store: &mut TransactionStore,
        fetching: &mut bool,
    )
        ensures
            (Session { state: final(self)@, store: final(store)@, fetching: *final(fetching) })
                == step(
                (Session { state: old(self)@, store: old(store)@, fetching: *old(fetching) }),
                outcome_view(outcome),
            ),
    {
        let first = match self.phase {
            Phase::Finished => {
                return ;
            },
            Phase::First => true,
            Phase::Next => false,
        };
        match outcome {
            Err(_) => {
                self.phase = Phase::Finished;
                *fetching = false;
            },
            Ok(page) => {
                if page.len() == 0 {
                    if first {
                        store.replace_with(page);
                    }
                    self.phase = Phase::Finished;
                    *fetching = false;
                } else {
                    let cursor = page[page.len() - 1].signature.clone();
                    assert(cursor@ == page.deep_view().last().signature);
                    if first {
                        store.replace_with(page);
                    } else {
                        store.append(page);
                    }
                    self.cursor = cursor;
                    self.phase = Phase::Next;
                }
            },
        }
    }
}

} // verus!
