//! The sync relay's request handling: discovery, listing all sessions,
//! writing one session and subscribing to change notifications, each behind
//! the shared secret but discovery.
use crate::auth::{authorized, str_opt_view, verify_auth};
use crate::hub::{published, subscribed, UpdateHub};
use crate::store::{SessionStore, WorkoutSession};
use vstd::prelude::*;

verus! {

/// How many notifications a slow subscriber may have waiting.
pub const UPDATE_CAPACITY: usize = 100;

/// The outcome classes of a request.
#[derive(Clone, Copy, Debug, PartialEq, Eq, Structural)]
pub enum Status {
    Success,
    BadRequest,
    Unauthorized,
    InternalError,
}

impl Status {
    pub open spec fn spec_code(self) -> u16 {
        match self {
            Status::Success => 200,
            Status::BadRequest => 400,
            Status::Unauthorized => 401,
            Status::InternalError => 500,
        }
    }

    /// The HTTP status code.
    pub fn code(&self) -> (r: u16)
        ensures
            r == self.spec_code(),
    {
        match self {
            Status::Success => 200,
            Status::BadRequest => 400,
            Status::Unauthorized => 401,
            Status::InternalError => 500,
        }
    }
}

/// The answer to a discovery request.
pub struct PingReply {
    pub device_id: String,
    pub status: String,
}

pub struct Relay {
    auth_token: String,
    device_id: String,
    hub: UpdateHub,
}

impl Relay {
    pub closed spec fn wf(&self) -> bool {
        self.hub.wf() && self.hub.capacity() == UPDATE_CAPACITY
    }

    pub closed spec fn secret(&self) -> Seq<char> {
        self.auth_token@
    }

    pub closed spec fn device(&self) -> Seq<char> {
        self.device_id@
    }

    /// The live-update subscribers by id; `None` for one that left.
    pub closed spec fn subscribers(&self) -> Seq<Option<Seq<Seq<char>>>> {
        self.hub@
    }

    pub fn new(device_id: String, auth_token: String) -> (r: Relay)
        ensures
            r.wf(),
            r.device() == device_id@,
            r.secret() == auth_token@,
            r.subscribers() == Seq::<Option<Seq<Seq<char>>>>::empty(),
    {
        Relay { auth_token, device_id, hub: UpdateHub::new(UPDATE_CAPACITY) }
    }

    /// Whether a request's credentials match the secret.
    pub fn is_authorized(&self, query_token: Option<&str>, authorization: Option<&str>) -> (r: bool)
        ensures
            r == authorized(str_opt_view(query_token), str_opt_view(authorization), self.secret()),
    {
        verify_auth(query_token, authorization, self.auth_token.as_str())
    }

    /// `GET /ping`: the device identifier and `ok`, with no credentials.
    pub fn ping(&self) -> (r: PingReply)
        ensures
            r.device_id@ == self.device(),
            r.status@ == "ok"@,
    {
        PingReply { device_id: self.device_id.clone(), status: String::from_str("ok") }
    }

    /// `GET /sync/sessions`: every stored session with its date key.
    pub fn get_sessions(&self, store: &SessionStore, query_token: Option<&str>, authorization: Option<&str>) -> (r: Result<Vec<(String, WorkoutSession)>, Status>)
        requires
            store.wf(),
        ensures
            r.is_ok() == authorized(str_opt_view(query_token), str_opt_view(authorization), self.secret()),
            r.is_err() ==> r == Err::<Vec<(String, WorkoutSession)>, Status>(Status::Unauthorized),
            r matches Ok(all) ==> {
                &&& all@.len() == store.sessions().dom().len()
                &&& forall|i: int| 0 <= i < all@.len() ==> #[trigger] store.sessions().contains_key(all@[i].0@)
                    && all@[i].1@ == store.sessions()[all@[i].0@]@
                &&& forall|i: int, j: int| 0 <= i < all@.len() && 0 <= j < all@.len() && i != j
                    ==> #[trigger] all@[i].0@ != #[trigger] all@[j].0@
                &&& forall|k: Seq<char>| #[trigger] store.sessions().contains_key(k)
                    ==> exists|i: int| 0 <= i < all@.len() && all@[i].0@ == k
            },
    {
        if !verify_auth(query_token, authorization, self.auth_token.as_str()) {
            return Err(Status::Unauthorized);
        }
        Ok(store.get_all())
    }

    /// `POST /sync/session`: stores `session` under `date_key`, replacing any
    /// earlier record whole, then notifies every current subscriber of the key.
    /// Without valid credentials nothing changes.
    pub fn post_session(
        &mut self,
        store: &mut SessionStore,
        query_token: Option<&str>,
        authorization: Option<&str>,
        date_key: &str,
        session: WorkoutSession,
    ) -> (r: Result<(), Status>)
        requires
            old(self).wf(),
            old(store).wf(),
        ensures
            final(self).wf(),
            final(store).wf(),
            final(self).secret() == old(self).secret(),
            final(self).device() == old(self).device(),
            r.is_ok() == authorized(str_opt_view(query_token), str_opt_view(authorization), old(self).secret()),
            r.is_err() ==> {
                &&& r == Err::<(), Status>(Status::Unauthorized)
                &&& final(store).sessions() == old(store).sessions()
                &&& final(self).subscribers() == old(self).subscribers()
            },
            r.is_ok() ==> {
                &&& final(store).sessions() == old(store).sessions().insert(date_key@, session)
                &&& final(self).subscribers() == published(old(self).subscribers(), date_key@, UPDATE_CAPACITY as nat)
            },
            final(store).first_session() == old(store).first_session(),
            final(store).settings() == old(store).settings(),
    {
        if !verify_auth(query_token, authorization, self.auth_token.as_str()) {
            return Err(Status::Unauthorized);
        }
        store.save(date_key, session);
        self.hub.publish(date_key);
        Ok(())
    }

    /// `GET /sync/stream`: a new subscriber, which receives every change
    /// notification published from now on.
    pub fn subscribe(&mut self, query_token: Option<&str>, authorization: Option<&str>) -> (r: Result<usize, Status>)
        requires
            old(self).wf(),
        ensures
            final(self).wf(),
            final(self).secret() == old(self).secret(),
            final(self).device() == old(self).device(),
            r.is_ok() == authorized(str_opt_view(query_token), str_opt_view(authorization), old(self).secret()),
            r.is_err() ==> r == Err::<usize, Status>(Status::Unauthorized) && final(self).subscribers() == old(self).subscribers(),
            r matches Ok(id) ==> id == old(self).subscribers().len() && final(self).subscribers() == subscribed(old(self).subscribers()),
    {
        if !verify_auth(query_token, authorization, self.auth_token.as_str()) {
            return Err(Status::Unauthorized);
        }
        Ok(self.hub.subscribe())
    }

    /// The date keys notified to subscriber `id` since it last looked, oldest
    /// first.
    pub fn take_updates(&mut self, id: usize) -> (r: Vec<String>)
        requires
            old(self).wf(),
        ensures
            final(self).wf(),
            final(self).secret() == old(self).secret(),
            final(self).device() == old(self).device(),
            id < old(self).subscribers().len() && old(self).subscribers()[id as int] is Some ==> (
                crate::hub::queue_view(r) == old(self).subscribers()[id as int]->Some_0
                && final(self).subscribers() == old(self).subscribers().update(id as int, Some(Seq::<Seq<char>>::empty()))
            ),
            !(id < old(self).subscribers().len() && old(self).subscribers()[id as int] is Some) ==> (
                r@.len() == 0 && final(self).subscribers() == old(self).subscribers()
            ),
    {
        self.hub.take(id)
    }

    /// Ends subscription `id`, when its connection closes.
    pub fn unsubscribe(&mut self, id: usize)
        requires
            old(self).wf(),
        ensures
            final(self).wf(),
            final(self).secret() == old(self).secret(),
            final(self).device() == old(self).device(),
            id < old(self).subscribers().len() ==> final(self).subscribers() == old(self).subscribers().update(id as int, None),
            id >= old(self).subscribers().len() ==> final(self).subscribers() == old(self).subscribers(),
    {
        self.hub.unsubscribe(id)
    }
}

/// A session written and then read back is the session written, whatever
/// was stored under its key before: a write replaces, never merges.
pub proof fn lemma_write_then_read(
    sessions: Map<Seq<char>, WorkoutSession>,
    date_key: Seq<char>,
    earlier: WorkoutSession,
    session: WorkoutSession,
)
    ensures
        sessions.insert(date_key, session).contains_key(date_key),
        sessions.insert(date_key, session)[date_key]@ == session@,
        sessions.insert(date_key, earlier).insert(date_key, session)[date_key]@ == session@,
        sessions.insert(date_key, earlier).insert(date_key, session) == sessions.insert(date_key, session),
{
    assert(sessions.insert(date_key, earlier).insert(date_key, session) =~= sessions.insert(date_key, session));
}

/// A listing of the store after a write shows the written session under its
/// key, unchanged, exactly once.
pub proof fn lemma_listing_shows_write(
    sessions: Map<Seq<char>, WorkoutSession>,
    date_key: Seq<char>,
    session: WorkoutSession,
    all: Seq<(String, WorkoutSession)>,
)
    requires
        forall|i: int| 0 <= i < all.len() ==> #[trigger] sessions.insert(date_key, session).contains_key(all[i].0@)
            && all[i].1@ == sessions.insert(date_key, session)[all[i].0@]@,
        forall|i: int, j: int| 0 <= i < all.len() && 0 <= j < all.len() && i != j
            ==> #[trigger] all[i].0@ != #[trigger] all[j].0@,
        forall|k: Seq<char>| #[trigger] sessions.insert(date_key, session).contains_key(k)
            ==> exists|i: int| 0 <= i < all.len() && all[i].0@ == k,
    ensures
        exists|i: int| 0 <= i < all.len() && all[i].0@ == date_key && all[i].1@ == session@,
        forall|i: int, j: int| 0 <= i < all.len() && 0 <= j < all.len() && all[i].0@ == date_key && all[j].0@ == date_key ==> i == j,
{
    let m = sessions.insert(date_key, session);
    assert(m.contains_key(date_key));
    let i = choose|i: int| 0 <= i < all.len() && all[i].0@ == date_key;
    assert(all[i].1@ == m[date_key]@);
}

} // verus!
