use vstd::prelude::*;

verus! {

/// The parts of a session that the store reads: its identifier, its expiry
/// instant (milliseconds since the Unix epoch) if it has one, and the cookie
/// value it hands out, if it is cookie-eligible.
pub struct SessionMeta {
    pub id: String,
    pub expiry: Option<i64>,
    pub cookie_value: Option<String>,
}

/// A session as contracts see it.
pub ghost struct SessionView {
    pub id: Seq<char>,
    pub expiry: Option<int>,
    pub cookie_value: Option<Seq<char>>,
}

pub open spec fn view_opt_string(s: Option<String>) -> Option<Seq<char>> {
    match s {
        Some(s) => Some(s@),
        None => None,
    }
}

pub open spec fn view_opt_i64(t: Option<i64>) -> Option<int> {
    match t {
        Some(t) => Some(t as int),
        None => None,
    }
}

impl View for SessionMeta {
    type V = SessionView;

    open spec fn view(&self) -> SessionView {
        SessionView {
            id: self.id@,
            expiry: view_opt_i64(self.expiry),
            cookie_value: view_opt_string(self.cookie_value),
        }
    }
}

/// The record persisted for one session: its identifier, the serialized
/// payload, the write time and the instant after which it counts as expired.
/// Instants are milliseconds since the Unix epoch.
pub struct SessionDocument<P> {
    pub session_id: String,
    pub session: P,
    pub created: i64,
    pub expire_at: i64,
}

pub ghost struct DocumentView<P> {
    pub session_id: Seq<char>,
    pub session: P,
    pub created: int,
    pub expire_at: int,
}

impl<P> View for SessionDocument<P> {
    type V = DocumentView<P>;

    open spec fn view(&self) -> DocumentView<P> {
        DocumentView {
            session_id: self.session_id@,
            session: self.session,
            created: self.created as int,
            expire_at: self.expire_at as int,
        }
    }
}

/// The fields that a lookup found in a stored record. Either may be missing
/// from a record that this store did not write.
pub struct LoadedDocument<P> {
    pub session: Option<P>,
    pub expire_at: Option<i64>,
}

/// A declaration that records are purged once `field` plus
/// `expire_after_seconds` lies in the past.
pub struct ExpireIndex {
    pub collection: String,
    pub field: String,
    pub name: String,
    pub expire_after_seconds: u32,
}

pub ghost struct ExpireIndexView {
    pub collection: Seq<char>,
    pub field: Seq<char>,
    pub name: Seq<char>,
    pub expire_after_seconds: nat,
}

impl View for ExpireIndex {
    type V = ExpireIndexView;

    open spec fn view(&self) -> ExpireIndexView {
        ExpireIndexView {
            collection: self.collection@,
            field: self.field@,
            name: self.name@,
            expire_after_seconds: self.expire_after_seconds as nat,
        }
    }
}

/// One command for the database, keyed on the `session_id` field.
pub enum Command<P> {
    /// Replace the record with this identifier, inserting it when `upsert`
    /// holds and none exists.
    ReplaceOne { filter_id: String, replacement: SessionDocument<P>, upsert: bool },
    /// Look up the record with this identifier.
    FindOne { filter_id: String },
    /// Delete the record with this identifier, if there is one.
    DeleteOne { filter_id: String },
    /// Drop the whole collection.
    Drop,
    /// Create an expiry index.
    CreateIndex { index: ExpireIndex },
}

pub ghost enum CommandView<P> {
    ReplaceOne { filter_id: Seq<char>, replacement: DocumentView<P>, upsert: bool },
    FindOne { filter_id: Seq<char> },
    DeleteOne { filter_id: Seq<char> },
    Drop,
    CreateIndex { index: ExpireIndexView },
}

impl<P> View for Command<P> {
    type V = CommandView<P>;

    open spec fn view(&self) -> CommandView<P> {
        match self {
            Command::ReplaceOne { filter_id, replacement, upsert } => CommandView::ReplaceOne {
                filter_id: filter_id@,
                replacement: replacement@,
                upsert: *upsert,
            },
            Command::FindOne { filter_id } => CommandView::FindOne { filter_id: filter_id@ },
            Command::DeleteOne { filter_id } => CommandView::DeleteOne { filter_id: filter_id@ },
            Command::Drop => CommandView::Drop,
            Command::CreateIndex { index } => CommandView::CreateIndex { index: index@ },
        }
    }
}

/// What to do with the result of a lookup.
pub enum LoadDecision<P> {
    /// No session: nothing was found, or the record has expired.
    Absent,
    /// Decode this stored payload.
    Decode(P),
    /// The record has no payload: hand out a fresh empty session.
    DecodeEmpty,
}

} // verus!
