//! What the fetch achieves against a provider that pages correctly.
//!
//! The provider is modelled by the history it holds and a page size: asked
//! for the page behind a signature, it answers with the transactions that
//! follow the one so signed, at most a page of them.

use vstd::prelude::*;
use crate::error::ApiError;
use crate::fetch::{request_of, step, FetchState, Session};
use crate::transaction::TransactionView;

verus! {

/// No two transactions of `history` share a signature.
pub open spec fn distinct_signatures(history: Seq<TransactionView>) -> bool {
    forall|i: int, j: int|
        0 <= i < j < history.len() ==> (#[trigger] history[i]).signature != (
        #[trigger] history[j]).signature
}

/// Whether a transaction of `history` carries the signature `cursor`.
pub open spec fn knows_signature(history: Seq<TransactionView>, cursor: Seq<char>) -> bool {
    exists|i: int| 0 <= i < history.len() && (#[trigger] history[i]).signature == cursor
}

/// The index at which the page named by `before` begins: the start of the
/// history without a cursor, the place behind the transaction that the
/// cursor names with one, and the end of the history for a cursor that
/// names none.
pub open spec fn page_start(history: Seq<TransactionView>, before: Option<Seq<char>>) -> int {
    match before {
        None => 0,
        Some(cursor) => if knows_signature(history, cursor) {
            1 + choose|i: int|
                0 <= i < history.len() && (#[trigger] history[i]).signature == cursor
        } else {
            history.len() as int
        },
    }
}

/// The page that the provider answers with.
pub open spec fn provider_page(
    history: Seq<TransactionView>,
    page_size: nat,
    before: Option<Seq<char>>,
) -> Seq<TransactionView> {
    let start = page_start(history, before);
    let end = if start + page_size <= history.len() {
        start + page_size
    } else {
        history.len() as int
    };
    history.subrange(start, end)
}

/// The session after the worker has made up to `calls` requests, each
/// answered by the provider.
pub open spec fn run(
    session: Session,
    history: Seq<TransactionView>,
    page_size: nat,
    calls: nat,
) -> Session
    decreases calls,
{
    if calls == 0 {
        session
    } else {
        match request_of(session.state) {
            None => session,
            Some(before) => run(
                step(session, Ok(provider_page(history, page_size, before))),
                history,
                page_size,
                (calls - 1) as nat,
            ),
        }
    }
}

/// The number of requests that it takes to learn that nothing follows when
/// `remaining` transactions have not been delivered yet: one for each page
/// and one more, which is answered with the empty page.
pub open spec fn calls_needed(remaining: nat, page_size: nat) -> nat
    decreases remaining,
{
    if remaining == 0 || page_size == 0 {
        1
    } else if remaining <= page_size {
        2
    } else {
        1 + calls_needed((remaining - page_size) as nat, page_size)
    }
}

/// The page behind the transaction at `position - 1` begins at `position`.
proof fn lemma_page_start_at_cursor(history: Seq<TransactionView>, position: int)
    requires
        distinct_signatures(history),
        1 <= position <= history.len(),
    ensures
        page_start(history, Some(history[position - 1].signature)) == position,
{
    let cursor = history[position - 1].signature;
    assert(knows_signature(history, cursor));
    let found = choose|i: int|
        0 <= i < history.len() && (#[trigger] history[i]).signature == cursor;
    assert(found == position - 1) by {
        if found < position - 1 {
            assert(history[found].signature != history[position - 1].signature);
        } else if found > position - 1 {
            assert(history[position - 1].signature != history[found].signature);
        }
    }
}

/// From any point behind the first page on, the fetch delivers the rest of
/// the history and then finishes, in exactly `calls_needed` requests.
proof fn lemma_rest_is_collected(
    history: Seq<TransactionView>,
    page_size: nat,
    position: int,
    fetching: bool,
)
    requires
        distinct_signatures(history),
        page_size > 0,
        1 <= position <= history.len(),
    ensures
        ({
            let session = Session {
                state: FetchState::AwaitingNext(history[position - 1].signature),
                store: history.take(position),
                fetching,
            };
            let calls = calls_needed((history.len() - position) as nat, page_size);
            &&& run(session, history, page_size, calls) == (Session {
                state: FetchState::Finished,
                store: history,
                fetching: false,
            })
            &&& forall|fewer: nat|
                fewer < calls ==> (#[trigger] run(session, history, page_size, fewer)).state
                    != FetchState::Finished
        }),
    decreases history.len() - position,
{
    let session = Session {
        state: FetchState::AwaitingNext(history[position - 1].signature),
        store: history.take(position),
        fetching,
    };
    let remaining = (history.len() - position) as nat;
    let calls = calls_needed(remaining, page_size);
    let before = Some(history[position - 1].signature);
    let page = provider_page(history, page_size, before);
    let next = step(session, Ok(page));
    lemma_page_start_at_cursor(history, position);
    assert(run(session, history, page_size, 0) == session);
    if remaining == 0 {
        assert(page.len() == 0);
        assert(history.take(position) =~= history);
        assert(run(next, history, page_size, 0) == next);
        assert(run(session, history, page_size, 1) == next);
        assert forall|fewer: nat| fewer < calls implies (#[trigger] run(
            session,
            history,
            page_size,
            fewer,
        )).state != FetchState::Finished by {
            assert(fewer == 0);
        }
    } else {
        let end = if position + page_size <= history.len() {
            position + page_size
        } else {
            history.len() as int
        };
        assert(page == history.subrange(position, end));
        assert(page.len() > 0);
        assert(page.last() == history[end - 1]);
        assert(history.take(position) + page =~= history.take(end));
        assert(next == (Session {
            state: FetchState::AwaitingNext(history[end - 1].signature),
            store: history.take(end),
            fetching,
        }));
        lemma_rest_is_collected(history, page_size, end, fetching);
        let later = calls_needed((history.len() - end) as nat, page_size);
        assert(calls == 1 + later);
        assert(run(session, history, page_size, calls) == run(next, history, page_size, later));
        assert forall|fewer: nat| fewer < calls implies (#[trigger] run(
            session,
            history,
            page_size,
            fewer,
        )).state != FetchState::Finished by {
            if fewer > 0 {
                assert(run(session, history, page_size, fewer) == run(
                    next,
                    history,
                    page_size,
                    (fewer - 1) as nat,
                ));
            }
        }
    }
}

/// Against a provider that holds a history in which no signature occurs
/// twice and hands it out in pages of `page_size`, a fetch finishes after
/// `calls_needed` requests and no earlier, with the whole history in the
/// store, in the provider's order, and the busy flag down. What the store
/// held before the fetch does not matter.
pub proof fn lemma_fetch_collects_history(
    history: Seq<TransactionView>,
    page_size: nat,
    store: Seq<TransactionView>,
)
    requires
        distinct_signatures(history),
        page_size > 0,
    ensures
        ({
            let session = Session { state: FetchState::AwaitingFirst, store, fetching: true };
            let calls = calls_needed(history.len(), page_size);
            &&& run(session, history, page_size, calls) == (Session {
                state: FetchState::Finished,
                store: history,
                fetching: false,
            })
            &&& forall|fewer: nat|
                fewer < calls ==> (#[trigger] run(session, history, page_size, fewer)).state
                    != FetchState::Finished
            &&& calls <= history.len() + 1
        }),
{
    let session = Session { state: FetchState::AwaitingFirst, store, fetching: true };
    let calls = calls_needed(history.len(), page_size);
    let page = provider_page(history, page_size, None);
    let next = step(session, Ok(page));
    let end = if page_size <= history.len() {
        page_size as int
    } else {
        history.len() as int
    };
    assert(page == history.subrange(0, end));
    assert(run(session, history, page_size, 0) == session);
    if history.len() == 0 {
        assert(page =~= history);
        assert(run(next, history, page_size, 0) == next);
        assert(run(session, history, page_size, 1) == next);
    } else {
        assert(page.last() == history[end - 1]);
        assert(page =~= history.take(end));
        lemma_rest_is_collected(history, page_size, end, true);
        let later = calls_needed((history.len() - end) as nat, page_size);
        assert(calls == 1 + later);
        assert(run(session, history, page_size, calls) == run(next, history, page_size, later));
        assert forall|fewer: nat| fewer < calls implies (#[trigger] run(
            session,
            history,
            page_size,
            fewer,
        )).state != FetchState::Finished by {
            if fewer > 0 {
                assert(run(session, history, page_size, fewer) == run(
                    next,
                    history,
                    page_size,
                    (fewer - 1) as nat,
                ));
            }
        }
        lemma_calls_bounded(history.len(), page_size);
    }
}

/// A fetch never takes more requests than there are transactions left,
/// and one.
proof fn lemma_calls_bounded(remaining: nat, page_size: nat)
    requires
        page_size > 0,
    ensures
        calls_needed(remaining, page_size) <= remaining + 1,
    decreases remaining,
{
    if remaining > page_size {
        lemma_calls_bounded((remaining - page_size) as nat, page_size);
    }
}

/// A fetch whose first page is empty finishes with that one request: the
/// store is empty, the busy flag is down, and nothing more is asked for.
pub proof fn lemma_empty_first_page_ends_fetch(store: Seq<TransactionView>, fetching: bool)
    ensures
        ({
            let session = Session { state: FetchState::AwaitingFirst, store, fetching };
            let after = step(session, Ok(Seq::<TransactionView>::empty()));
            &&& after.state == FetchState::Finished
            &&& request_of(after.state) is None
            &&& after.store == Seq::<TransactionView>::empty()
            &&& !after.fetching
        }),
{
}

/// A request that fails ends the fetch without touching the store: every
/// page published before it is still there, and the busy flag is down.
pub proof fn lemma_failure_keeps_published_pages(session: Session, error: ApiError)
    requires
        session.state != FetchState::Finished,
    ensures
        ({
            let after = step(session, Err(error));
            &&& after.state == FetchState::Finished
            &&& request_of(after.state) is None
            &&& after.store == session.store
            &&& !after.fetching
        }),
{
}

} // verus!
