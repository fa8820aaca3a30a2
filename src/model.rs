use vstd::prelude::*;

use crate::cookie::id_from_cookie;
use crate::document::{CommandView, DocumentView, LoadDecision, LoadedDocument, SessionView};
use crate::store::{expire_at_for, expire_index_for, load_decision_for, store_command_for, StoreView};

verus! {

// A model of the collection the commands run against: the sequence of its
// records, each keyed by `session_id`.

/// Record `i` of `c` is keyed by `id`.
pub open spec fn keyed_at<P>(c: Seq<DocumentView<P>>, id: Seq<char>, i: int) -> bool {
    0 <= i < c.len() && c[i].session_id == id
}

/// Some record of `c` is keyed by `id`.
pub open spec fn has_id<P>(c: Seq<DocumentView<P>>, id: Seq<char>) -> bool {
    exists|i: int| keyed_at(c, id, i)
}

/// No two records of `c` share an identifier.
pub open spec fn unique_ids<P>(c: Seq<DocumentView<P>>) -> bool {
    forall|i: int, j: int|
        0 <= i < c.len() && 0 <= j < c.len() && #[trigger] c[i].session_id == #[trigger] c[j].session_id
            ==> i == j
}

/// The position of a record keyed by `id`, where there is one.
pub open spec fn index_of<P>(c: Seq<DocumentView<P>>, id: Seq<char>) -> int {
    choose|i: int| keyed_at(c, id, i)
}

/// `findOne` on `session_id`.
pub open spec fn find_one<P>(c: Seq<DocumentView<P>>, id: Seq<char>) -> Option<DocumentView<P>> {
    if has_id(c, id) {
        Some(c[index_of(c, id)])
    } else {
        None
    }
}

/// `replaceOne` on `session_id`: the matching record is replaced; with
/// `upsert`, `d` is inserted where none matches.
pub open spec fn replace_one<P>(
    c: Seq<DocumentView<P>>,
    id: Seq<char>,
    d: DocumentView<P>,
    upsert: bool,
) -> Seq<DocumentView<P>> {
    if has_id(c, id) {
        c.update(index_of(c, id), d)
    } else if upsert {
        c.push(d)
    } else {
        c
    }
}

/// `deleteOne` on `session_id`.
pub open spec fn delete_one<P>(c: Seq<DocumentView<P>>, id: Seq<char>) -> Seq<DocumentView<P>> {
    if has_id(c, id) {
        c.remove(index_of(c, id))
    } else {
        c
    }
}

/// The collection after `cmd` has run on `c`.
pub open spec fn apply_command<P>(c: Seq<DocumentView<P>>, cmd: CommandView<P>) -> Seq<DocumentView<P>> {
    match cmd {
        CommandView::ReplaceOne { filter_id, replacement, upsert } => replace_one(
            c,
            filter_id,
            replacement,
            upsert,
        ),
        CommandView::FindOne { .. } => c,
        CommandView::DeleteOne { filter_id } => delete_one(c, filter_id),
        CommandView::Drop => Seq::empty(),
        CommandView::CreateIndex { .. } => c,
    }
}

/// The fields a lookup reads from a stored record.
pub open spec fn read_back<P>(found: Option<DocumentView<P>>) -> Option<LoadedDocument<P>> {
    match found {
        Some(d) => Some(LoadedDocument { session: Some(d.session), expire_at: Some(d.expire_at as i64) }),
        None => None,
    }
}

/// A session whose identifier is the one its cookie value stands for, and
/// whose instants fit the stored timestamps.
pub open spec fn well_formed_session(s: SessionView) -> bool {
    &&& s.cookie_value matches Some(cookie) && id_from_cookie(cookie) == Some(s.id)
    &&& s.expiry matches Some(e) ==> i64::MIN <= e <= i64::MAX
}

/// An instant that fits a stored timestamp.
pub open spec fn is_instant(t: int) -> bool {
    i64::MIN <= t <= i64::MAX
}

/// What loading `cookie` from `c` at time `now` decides; `None` where the
/// cookie value is malformed.
pub open spec fn load_from<P>(c: Seq<DocumentView<P>>, cookie: Seq<char>, now: int) -> Option<LoadDecision<P>> {
    match id_from_cookie(cookie) {
        Some(id) => Some(load_decision_for(read_back(find_one(c, id)), now)),
        None => None,
    }
}

proof fn lemma_upsert<P>(c: Seq<DocumentView<P>>, d: DocumentView<P>)
    requires
        unique_ids(c),
    ensures
        ({
            let c2 = replace_one(c, d.session_id, d, true);
            &&& unique_ids(c2)
            &&& find_one(c2, d.session_id) == Some(d)
        }),
{
    let id = d.session_id;
    let c2 = replace_one(c, id, d, true);
    if has_id(c, id) {
        let k = index_of(c, id);
        assert(keyed_at(c2, id, k));
        assert forall|i: int, j: int|
            0 <= i < c2.len() && 0 <= j < c2.len() && #[trigger] c2[i].session_id
                == #[trigger] c2[j].session_id implies i == j by {
            if i != k && j != k {
                assert(c[i].session_id == c[j].session_id);
            } else if i == k && j != k {
                assert(c[j].session_id == c[k].session_id);
            } else if j == k && i != k {
                assert(c[i].session_id == c[k].session_id);
            }
        }
        let k2 = index_of(c2, id);
        assert(keyed_at(c2, id, k2));
    } else {
        let n = c.len() as int;
        assert(keyed_at(c2, id, n));
        assert forall|i: int, j: int|
            0 <= i < c2.len() && 0 <= j < c2.len() && #[trigger] c2[i].session_id
                == #[trigger] c2[j].session_id implies i == j by {
            if i != n && j != n {
                assert(c[i].session_id == c[j].session_id);
            } else if i == n && j != n {
                assert(keyed_at(c, id, j));
            } else if j == n && i != n {
                assert(keyed_at(c, id, i));
            }
        }
        let k2 = index_of(c2, id);
        assert(keyed_at(c2, id, k2));
    }
}

/// A session stored with a payload and then loaded through its cookie value,
/// before its expiry instant has passed, yields that payload; once the
/// instant has passed, it yields no session.
pub proof fn lemma_round_trip<P>(
    store: StoreView,
    c: Seq<DocumentView<P>>,
    session: SessionView,
    payload: P,
    now: int,
    later: int,
)
    requires
        unique_ids(c),
        well_formed_session(session),
        is_instant(now),
        is_instant(later),
    ensures
        ({
            let c2 = apply_command(c, store_command_for(store, session, payload, now));
            let e = expire_at_for(store.ttl, session.expiry, now);
            &&& later <= e ==> load_from(c2, session.cookie_value->0, later) == Some(
                LoadDecision::Decode(payload),
            )
            &&& later > e ==> load_from(c2, session.cookie_value->0, later) == Some(
                LoadDecision::<P>::Absent,
            )
        }),
{
    let cmd = store_command_for(store, session, payload, now);
    let d = DocumentView {
        session_id: session.id,
        session: payload,
        created: now,
        expire_at: expire_at_for(store.ttl, session.expiry, now),
    };
    assert(cmd == CommandView::ReplaceOne { filter_id: session.id, replacement: d, upsert: true });
    lemma_upsert(c, d);
}

/// Storing two sessions with the same identifier leaves exactly one record
/// with that identifier, and it holds the later payload.
pub proof fn lemma_upsert_keeps_one<P>(
    store: StoreView,
    c: Seq<DocumentView<P>>,
    first: SessionView,
    first_payload: P,
    first_now: int,
    second: SessionView,
    second_payload: P,
    second_now: int,
)
    requires
        unique_ids(c),
        first.id == second.id,
    ensures
        ({
            let c1 = apply_command(c, store_command_for(store, first, first_payload, first_now));
            let c2 = apply_command(c1, store_command_for(store, second, second_payload, second_now));
            &&& unique_ids(c2)
            &&& has_id(c2, second.id)
            &&& find_one(c2, second.id) matches Some(d) && d.session == second_payload
        }),
{
    let d1 = DocumentView {
        session_id: first.id,
        session: first_payload,
        created: first_now,
        expire_at: expire_at_for(store.ttl, first.expiry, first_now),
    };
    let d2 = DocumentView {
        session_id: second.id,
        session: second_payload,
        created: second_now,
        expire_at: expire_at_for(store.ttl, second.expiry, second_now),
    };
    lemma_upsert(c, d1);
    let c1 = replace_one(c, d1.session_id, d1, true);
    lemma_upsert(c1, d2);
    let c2 = replace_one(c1, d2.session_id, d2, true);
    assert(keyed_at(c2, second.id, index_of(c2, second.id)));
}

/// Deleting an identifier twice leaves the collection as deleting it once
/// does: the second deletion finds nothing and changes nothing.
pub proof fn lemma_destroy_idempotent<P>(c: Seq<DocumentView<P>>, id: Seq<char>)
    requires
        unique_ids(c),
    ensures
        ({
            let c1 = apply_command(c, CommandView::DeleteOne { filter_id: id });
            &&& !has_id(c1, id)
            &&& apply_command(c1, CommandView::DeleteOne { filter_id: id }) == c1
        }),
{
    let c1 = delete_one(c, id);
    if has_id(c, id) {
        let k = index_of(c, id);
        if has_id(c1, id) {
            let j = choose|j: int| keyed_at(c1, id, j);
            if j < k {
                assert(c[j].session_id == c[k].session_id);
            } else {
                assert(c[j + 1].session_id == c[k].session_id);
            }
        }
    }
}

/// A session stored without an expiry of its own expires the default
/// time-to-live after it was written, where that instant fits a timestamp.
pub proof fn lemma_default_ttl<P>(store: StoreView, session: SessionView, payload: P, now: int)
    requires
        session.expiry is None,
        is_instant(now + store.ttl * 1000),
    ensures
        store_command_for(store, session, payload, now) matches CommandView::ReplaceOne {
            replacement,
            ..
        } && replacement.expire_at == replacement.created + store.ttl * 1000,
{
}

/// After the store is cleared no cookie value loads a session, and a session
/// stored afterwards is the only record with its identifier and can be loaded.
pub proof fn lemma_clear<P>(
    store: StoreView,
    c: Seq<DocumentView<P>>,
    cookie: Seq<char>,
    at: int,
    session: SessionView,
    payload: P,
    now: int,
)
    requires
        well_formed_session(session),
        is_instant(now),
        now <= expire_at_for(store.ttl, session.expiry, now),
    ensures
        ({
            let dropped = apply_command(c, CommandView::Drop);
            let cleared = apply_command(
                dropped,
                CommandView::CreateIndex { index: expire_index_for(store, "expireAt"@, 0) },
            );
            let refilled = apply_command(cleared, store_command_for(store, session, payload, now));
            &&& id_from_cookie(cookie) is Some ==> load_from(cleared, cookie, at) == Some(
                LoadDecision::<P>::Absent,
            )
            &&& unique_ids(refilled)
            &&& load_from(refilled, session.cookie_value->0, now) == Some(LoadDecision::Decode(payload))
        }),
{
    let cleared = Seq::<DocumentView<P>>::empty();
    match id_from_cookie(cookie) {
        Some(id) => {
            assert(!has_id(cleared, id));
        },
        None => {},
    }
    lemma_round_trip(store, cleared, session, payload, now, now);
    let d = DocumentView {
        session_id: session.id,
        session: payload,
        created: now,
        expire_at: expire_at_for(store.ttl, session.expiry, now),
    };
    lemma_upsert(cleared, d);
}

} // verus!
