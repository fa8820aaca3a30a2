use vstd::prelude::*;
use vstd::string::StringExecFns;

use async_session::chrono::Utc;
use mongodb::Client;

use crate::cookie::{id_from_cookie, session_id_from_cookie};
use crate::document::{
    Command, CommandView, DocumentView, ExpireIndex, ExpireIndexView, LoadDecision,
    LoadedDocument, SessionDocument, SessionMeta, SessionView, view_opt_i64,
};
use crate::error::StoreError;

verus! {

#[verifier::external_type_specification]
#[verifier::external_body]
pub struct ExClient(Client);

/// Relies on `mongodb::Client`'s `Clone`: a second handle to the same
/// connection pool. Nothing is stated of it.
pub assume_specification[ <Client as Clone>::clone ](c: &Client) -> Client;

/// The time-to-live, in seconds, given to sessions without an expiry of
/// their own unless the store is configured otherwise.
pub const DEFAULT_TTL_SECS: usize = 1200;

/// Relies on `chrono::Utc::now` and `DateTime::timestamp_millis`: the current
/// time in milliseconds since the Unix epoch. Nothing is promised of its value.
#[verifier::external_body]
fn now_millis() -> (r: i64) {
    Utc::now().timestamp_millis()
}

/// A session store bound to a database and a collection of a MongoDB
/// deployment.
#[derive(Debug, Clone)]
pub struct MongodbSessionStore {
    client: Client,
    db: String,
    coll_name: String,
    ttl: usize,
}

/// The configuration of a store.
pub ghost struct StoreView {
    pub db: Seq<char>,
    pub coll: Seq<char>,
    pub ttl: nat,
}

impl View for MongodbSessionStore {
    type V = StoreView;

    closed spec fn view(&self) -> StoreView {
        StoreView { db: self.db@, coll: self.coll_name@, ttl: self.ttl as nat }
    }
}

/// `x` held to the range of `i64`.
pub open spec fn clamp_i64(x: int) -> int {
    if x > i64::MAX {
        i64::MAX as int
    } else if x < i64::MIN {
        i64::MIN as int
    } else {
        x
    }
}

/// The `expireAt` of a record written at `now`: the session's own expiry if
/// it has one, else `now` plus the default time-to-live (`ttl` seconds), held
/// to the range of the stored timestamp.
pub open spec fn expire_at_for(ttl: nat, expiry: Option<int>, now: int) -> int {
    match expiry {
        Some(e) => e,
        None => clamp_i64(now + ttl * 1000),
    }
}

/// The upsert that stores `session` with `payload` at time `now`.
pub open spec fn store_command_for<P>(
    store: StoreView,
    session: SessionView,
    payload: P,
    now: int,
) -> CommandView<P> {
    CommandView::ReplaceOne {
        filter_id: session.id,
        replacement: DocumentView {
            session_id: session.id,
            session: payload,
            created: now,
            expire_at: expire_at_for(store.ttl, session.expiry, now),
        },
        upsert: true,
    }
}

/// Whether a record found with `expire_at` counts as expired at `now`.
pub open spec fn is_expired(expire_at: Option<i64>, now: int) -> bool {
    match expire_at {
        Some(e) => e < now,
        None => false,
    }
}

/// What a lookup's result means at time `now`.
pub open spec fn load_decision_for<P>(found: Option<LoadedDocument<P>>, now: int) -> LoadDecision<P> {
    match found {
        None => LoadDecision::Absent,
        Some(d) => if is_expired(d.expire_at, now) {
            LoadDecision::Absent
        } else {
            match d.session {
                Some(p) => LoadDecision::Decode(p),
                None => LoadDecision::DecodeEmpty,
            }
        },
    }
}

/// The name under which the expiry index on `field` is created.
pub open spec fn expire_index_name(field: Seq<char>) -> Seq<char> {
    "session_expire_index_"@ + field
}

/// The expiry index on `field` of the store's collection.
pub open spec fn expire_index_for(store: StoreView, field: Seq<char>, secs: nat) -> ExpireIndexView {
    ExpireIndexView {
        collection: store.coll,
        field,
        name: expire_index_name(field),
        expire_after_seconds: secs,
    }
}

impl MongodbSessionStore {
    /// The client the store runs its commands on.
    pub closed spec fn spec_client(&self) -> Client {
        self.client
    }

    /// A store on an open client, with the default time-to-live.
    pub fn from_client(client: Client, db: &str, coll_name: &str) -> (r: Self)
        ensures
            r.spec_client() == client,
            r@ == (StoreView { db: db@, coll: coll_name@, ttl: DEFAULT_TTL_SECS as nat }),
    {
        MongodbSessionStore {
            client,
            db: db.to_owned(),
            coll_name: coll_name.to_owned(),
            ttl: DEFAULT_TTL_SECS,
        }
    }

    /// The default time-to-live in seconds.
    pub fn ttl(&self) -> (r: usize)
        ensures
            r as nat == self@.ttl,
    {
        self.ttl
    }

    /// Sets the default time-to-live in seconds.
    pub fn set_ttl(&mut self, ttl: usize)
        ensures
            final(self)@ == (StoreView { ttl: ttl as nat, ..old(self)@ }),
            final(self).spec_client() == old(self).spec_client(),
    {
        self.ttl = ttl;
    }

    /// The client the store runs its commands on.
    pub fn client(&self) -> (r: &Client)
        ensures
            *r == self.spec_client(),
    {
        &self.client
    }

    /// The name of the database.
    pub fn database_name(&self) -> (r: &str)
        ensures
            r@ == self@.db,
    {
        self.db.as_str()
    }

    /// The name of the collection.
    pub fn collection_name(&self) -> (r: &str)
        ensures
            r@ == self@.coll,
    {
        self.coll_name.as_str()
    }

    /// The `expireAt` of a record written at `now`.
    pub fn expire_at(&self, expiry: Option<i64>, now: i64) -> (r: i64)
        ensures
            r as int == expire_at_for(self@.ttl, view_opt_i64(expiry), now as int),
    {
        match expiry {
            Some(e) => e,
            None => {
                let t: i128 = (self.ttl as i128) * 1000 + (now as i128);
                if t > i64::MAX as i128 {
                    i64::MAX
                } else {
                    t as i64
                }
            },
        }
    }

    /// The upsert that stores `session` with `payload` at time `now`: the
    /// record keyed by the session's identifier is replaced, or inserted where
    /// there is none, with `created` set to `now`.
    pub fn store_command_at<P>(&self, session: &SessionMeta, payload: P, now: i64) -> (r: Command<P>)
        ensures
            r@ == store_command_for(self@, session@, payload, now as int),
    {
        let expire_at = self.expire_at(session.expiry, now);
        Command::ReplaceOne {
            filter_id: session.id.clone(),
            replacement: SessionDocument {
                session_id: session.id.clone(),
                session: payload,
                created: now,
                expire_at,
            },
            upsert: true,
        }
    }

    /// The upsert that stores `session` with `payload` now.
    pub fn store_command<P>(&self, session: &SessionMeta, payload: P) -> (r: Command<P>)
        ensures
            exists|now: i64| r@ == store_command_for(self@, session@, payload, now as int),
    {
        let now = now_millis();
        self.store_command_at(session, payload, now)
    }

    /// The index that purges records once `field` plus `expire_after_seconds`
    /// lies in the past.
    pub fn expire_index(&self, field: &str, expire_after_seconds: u32) -> (r: ExpireIndex)
        ensures
            r@ == expire_index_for(self@, field@, expire_after_seconds as nat),
    {
        let prefix = String::from_str("session_expire_index_");
        proof {
            reveal_strlit("session_expire_index_");
        }
        ExpireIndex {
            collection: self.coll_name.clone(),
            field: field.to_owned(),
            name: prefix.concat(field),
            expire_after_seconds,
        }
    }

    /// The command that has records purged once their `expireAt` instant has
    /// passed.
    pub fn index_on_expiry_at_command<P>(&self) -> (r: Command<P>)
        ensures
            r@ == (CommandView::<P>::CreateIndex { index: expire_index_for(self@, "expireAt"@, 0) }),
    {
        proof {
            reveal_strlit("expireAt");
        }
        Command::CreateIndex { index: self.expire_index("expireAt", 0) }
    }

    /// The command that has records purged `expire_after_seconds` after
    /// their `created` instant.
    pub fn index_on_created_command<P>(&self, expire_after_seconds: u32) -> (r: Command<P>)
        ensures
            r@ == (CommandView::<P>::CreateIndex {
                index: expire_index_for(self@, "created"@, expire_after_seconds as nat),
            }),
    {
        proof {
            reveal_strlit("created");
        }
        Command::CreateIndex { index: self.expire_index("created", expire_after_seconds) }
    }

    /// The commands that empty the store: the collection is dropped and the
    /// `expireAt` index is provisioned again, so that later writes are still
    /// purged on expiry.
    pub fn clear_commands<P>(&self) -> (r: Vec<Command<P>>)
        ensures
            r@.len() == 2,
            r@[0]@ == CommandView::<P>::Drop,
            r@[1]@ == (CommandView::<P>::CreateIndex { index: expire_index_for(self@, "expireAt"@, 0) }),
    {
        let mut r: Vec<Command<P>> = Vec::new();
        r.push(Command::Drop);
        r.push(self.index_on_expiry_at_command());
        r
    }
}

/// The lookup for the session that `cookie` stands for; a cookie value that
/// does not decode is a `MalformedCookie` error.
pub fn load_command<P>(cookie: &str) -> (r: Result<Command<P>, StoreError>)
    ensures
        match id_from_cookie(cookie@) {
            Some(id) => r matches Ok(c) && c@ == (CommandView::<P>::FindOne { filter_id: id }),
            None => r == Err::<Command<P>, StoreError>(StoreError::MalformedCookie),
        },
{
    match session_id_from_cookie(cookie) {
        Ok(id) => Ok(Command::FindOne { filter_id: id }),
        Err(e) => Err(e),
    }
}

/// What the result of a lookup means at time `now`: nothing found, or a
/// record whose `expireAt` lies before `now`, is no session; otherwise the
/// stored payload is decoded, or a fresh empty session is handed out where
/// the record has none.
pub fn load_decision_at<P>(found: Option<LoadedDocument<P>>, now: i64) -> (r: LoadDecision<P>)
    ensures
        r == load_decision_for(found, now as int),
{
    match found {
        None => LoadDecision::Absent,
        Some(d) => {
            let expired = match d.expire_at {
                Some(e) => e < now,
                None => false,
            };
            if expired {
                LoadDecision::Absent
            } else {
                match d.session {
                    Some(p) => LoadDecision::Decode(p),
                    None => LoadDecision::DecodeEmpty,
                }
            }
        },
    }
}

/// What the result of a lookup means now.
pub fn load_decision<P>(found: Option<LoadedDocument<P>>) -> (r: LoadDecision<P>)
    ensures
        exists|now: i64| r == load_decision_for(found, now as int),
{
    let now = now_millis();
    load_decision_at(found, now)
}

/// The outcome of decoding a stored payload: a payload that does not decode
/// counts as no session.
pub fn decoded_session<S, E>(decoded: Result<S, E>) -> (r: Option<S>)
    ensures
        match decoded {
            Ok(s) => r == Some(s),
            Err(_) => r is None,
        },
{
    match decoded {
        Ok(s) => Some(s),
        Err(_) => None,
    }
}

/// The deletion of the record of `session`. Deleting an identifier that has
/// no record is no error.
pub fn destroy_command<P>(session: &SessionMeta) -> (r: Command<P>)
    ensures
        r@ == (CommandView::<P>::DeleteOne { filter_id: session@.id }),
{
    Command::DeleteOne { filter_id: session.id.clone() }
}

} // verus!
