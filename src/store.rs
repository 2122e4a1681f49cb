//! The record store: workout sessions keyed by date, the write-once date of
//! the first session, and string settings. Held in memory; the desktop shell
//! mirrors it to disk.
use crate::auth::{generate_auth_token, hex_of, same_text};
use crate::table::Table;
use vstd::prelude::*;

verus! {

/// One day's logged workout: the sets of each exercise (repetitions or
/// seconds), when it was logged, and its week number.
#[derive(Debug)]
pub struct WorkoutSession {
    pub inverted_row: Option<Vec<i32>>,
    pub single_arm_row: Option<Vec<i32>>,
    pub pike_pushup: Option<Vec<i32>>,
    pub face_pull: Option<Vec<i32>>,
    pub pushup: Option<Vec<i32>>,
    pub wall_lateral_raise: Option<Vec<i32>>,
    pub plank: Option<Vec<i32>>,
    pub logged_at: String,
    pub week_number: i32,
}

pub struct SessionView {
    pub inverted_row: Option<Seq<i32>>,
    pub single_arm_row: Option<Seq<i32>>,
    pub pike_pushup: Option<Seq<i32>>,
    pub face_pull: Option<Seq<i32>>,
    pub pushup: Option<Seq<i32>>,
    pub wall_lateral_raise: Option<Seq<i32>>,
    pub plank: Option<Seq<i32>>,
    pub logged_at: Seq<char>,
    pub week_number: i32,
}

pub open spec fn sets_view(o: Option<Vec<i32>>) -> Option<Seq<i32>> {
    match o {
        Some(v) => Some(v@),
        None => None,
    }
}

impl View for WorkoutSession {
    type V = SessionView;

    open spec fn view(&self) -> SessionView {
        SessionView {
            inverted_row: sets_view(self.inverted_row),
            single_arm_row: sets_view(self.single_arm_row),
            pike_pushup: sets_view(self.pike_pushup),
            face_pull: sets_view(self.face_pull),
            pushup: sets_view(self.pushup),
            wall_lateral_raise: sets_view(self.wall_lateral_raise),
            plank: sets_view(self.plank),
            logged_at: self.logged_at@,
            week_number: self.week_number,
        }
    }
}

fn copy_sets(o: &Option<Vec<i32>>) -> (r: Option<Vec<i32>>)
    ensures
        sets_view(r) == sets_view(*o),
{
    match o {
        Some(v) => {
            let mut out: Vec<i32> = Vec::new();
            let mut i: usize = 0;
            while i < v.len()
                invariant
                    i <= v@.len(),
                    out@ == v@.subrange(0, i as int),
                decreases v@.len() - i,
            {
                out.push(v[i]);
                i = i + 1;
                assert(out@ =~= v@.subrange(0, i as int));
            }
            assert(out@ =~= v@);
            Some(out)
        },
        None => None,
    }
}

impl WorkoutSession {
    /// A copy of this session.
    pub fn duplicate(&self) -> (r: WorkoutSession)
        ensures
            r@ == self@,
    {
        WorkoutSession {
            inverted_row: copy_sets(&self.inverted_row),
            single_arm_row: copy_sets(&self.single_arm_row),
            pike_pushup: copy_sets(&self.pike_pushup),
            face_pull: copy_sets(&self.face_pull),
            pushup: copy_sets(&self.pushup),
            wall_lateral_raise: copy_sets(&self.wall_lateral_raise),
            plank: copy_sets(&self.plank),
            logged_at: self.logged_at.clone(),
            week_number: self.week_number,
        }
    }
}

/// The first-session marker after a write of `date_key`: it is written once.
pub open spec fn first_after_set(first: Option<Seq<char>>, date_key: Seq<char>) -> Option<Seq<char>> {
    match first {
        Some(d) => Some(d),
        None => Some(date_key),
    }
}

/// Setting the first-session date a second time, to any date, keeps the
/// date the first call wrote.
pub proof fn lemma_first_session_set_once(first: Option<Seq<char>>, a: Seq<char>, b: Seq<char>)
    ensures
        first_after_set(first_after_set(first, a), b) == first_after_set(first, a),
        first.is_none() ==> first_after_set(first_after_set(first, a), b) == Some(a),
{
}

/// Saving a session adds a key exactly when the key was new.
pub proof fn lemma_save_count(sessions: Map<Seq<char>, WorkoutSession>, date_key: Seq<char>, session: WorkoutSession)
    requires
        sessions.dom().finite(),
    ensures
        sessions.insert(date_key, session).dom().finite(),
        sessions.insert(date_key, session).dom().len() == if sessions.contains_key(date_key) {
            sessions.dom().len()
        } else {
            sessions.dom().len() + 1
        },
{
    if sessions.contains_key(date_key) {
        assert(sessions.dom().insert(date_key) =~= sessions.dom());
    }
}

pub open spec fn string_opt_view(o: Option<String>) -> Option<Seq<char>> {
    match o {
        Some(s) => Some(s@),
        None => None,
    }
}

/// The setting that keeps the relay's secret.
pub const AUTH_TOKEN_SETTING: &'static str = "auth_token";

/// How a yes-or-no setting is written.
pub open spec fn flag_text(on: bool) -> Seq<char> {
    if on {
        "true"@
    } else {
        "false"@
    }
}

/// How a yes-or-no setting is read: anything but `false` is yes, and an
/// absent one takes the default.
pub open spec fn flag_of(value: Option<Seq<char>>, default: bool) -> bool {
    match value {
        Some(v) => v != "false"@,
        None => default,
    }
}

/// Sessions keyed by date key, the first-session marker and the settings.
pub struct SessionStore {
    sessions: Table<WorkoutSession>,
    first_session_date: Option<String>,
    settings: Table<String>,
}

impl SessionStore {
    pub closed spec fn wf(&self) -> bool {
        self.sessions.wf() && self.settings.wf()
    }

    /// The stored sessions by date key.
    pub closed spec fn sessions(&self) -> Map<Seq<char>, WorkoutSession> {
        self.sessions@
    }

    pub closed spec fn first_session(&self) -> Option<Seq<char>> {
        string_opt_view(self.first_session_date)
    }

    pub closed spec fn settings(&self) -> Map<Seq<char>, Seq<char>> {
        self.settings@.map_values(|v: String| v@)
    }

    pub fn new() -> (r: SessionStore)
        ensures
            r.wf(),
            r.sessions() == Map::<Seq<char>, WorkoutSession>::empty(),
            r.first_session() == None::<Seq<char>>,
            r.settings() == Map::<Seq<char>, Seq<char>>::empty(),
    {
        let r = SessionStore { sessions: Table::new(), first_session_date: None, settings: Table::new() };
        assert(r.settings() =~= Map::<Seq<char>, Seq<char>>::empty());
        r
    }

    /// Number of stored sessions.
    pub fn len(&self) -> (r: usize)
        requires
            self.wf(),
        ensures
            r == self.sessions().dom().len(),
            self.sessions().dom().finite(),
    {
        self.sessions.len()
    }

    /// A store holds finitely many sessions and settings.
    pub proof fn lemma_finite(&self)
        requires
            self.wf(),
        ensures
            self.sessions().dom().finite(),
            self.settings().dom().finite(),
    {
        self.sessions.lemma_finite();
        self.settings.lemma_finite();
        assert(self.settings().dom() =~= self.settings@.dom());
    }

    pub fn contains_key(&self, date_key: &str) -> (r: bool)
        requires
            self.wf(),
        ensures
            r == self.sessions().contains_key(date_key@),
    {
        let key = date_key.to_owned();
        self.sessions.get(&key).is_some()
    }

    /// A copy of the session stored under `date_key`.
    pub fn get(&self, date_key: &str) -> (r: Option<WorkoutSession>)
        requires
            self.wf(),
        ensures
            r.is_some() == self.sessions().contains_key(date_key@),
            r matches Some(s) ==> s@ == self.sessions()[date_key@]@,
    {
        let key = date_key.to_owned();
        match self.sessions.get(&key) {
            Some(s) => Some(s.duplicate()),
            None => None,
        }
    }

    /// Every stored session with its date key, each key once.
    pub fn get_all(&self) -> (r: Vec<(String, WorkoutSession)>)
        requires
            self.wf(),
        ensures
            r@.len() == self.sessions().dom().len(),
            forall|i: int| 0 <= i < r@.len() ==> #[trigger] self.sessions().contains_key(r@[i].0@)
                && r@[i].1@ == self.sessions()[r@[i].0@]@,
            forall|i: int, j: int| 0 <= i < r@.len() && 0 <= j < r@.len() && i != j
                ==> #[trigger] r@[i].0@ != #[trigger] r@[j].0@,
            forall|k: Seq<char>| #[trigger] self.sessions().contains_key(k)
                ==> exists|i: int| 0 <= i < r@.len() && r@[i].0@ == k,
    {
        let n = self.sessions.len();
        let mut out: Vec<(String, WorkoutSession)> = Vec::new();
        let mut i: usize = 0;
        while i < n
            invariant
                self.wf(),
                n == self.sessions().dom().len(),
                i <= n,
                out@.len() == i,
                forall|j: int| 0 <= j < i ==> #[trigger] self.sessions.has_key_at(out@[j].0@, j),
                forall|j: int| 0 <= j < i ==> #[trigger] self.sessions().contains_key(out@[j].0@)
                    && out@[j].1@ == self.sessions()[out@[j].0@]@,
            decreases n - i,
        {
            let (k, s) = self.sessions.entry(i);
            out.push((k.clone(), s.duplicate()));
            i = i + 1;
        }
        proof {
            assert forall|a: int, b: int| 0 <= a < out@.len() && 0 <= b < out@.len() && a != b
                implies #[trigger] out@[a].0@ != #[trigger] out@[b].0@ by {
                assert(self.sessions.has_key_at(out@[a].0@, a));
                assert(self.sessions.has_key_at(out@[b].0@, b));
                self.sessions.lemma_distinct(out@[a].0@, a, out@[b].0@, b);
            }
            assert forall|k: Seq<char>| #[trigger] self.sessions().contains_key(k)
                implies exists|i: int| 0 <= i < out@.len() && out@[i].0@ == k by {
                self.sessions.lemma_covers(k);
                let j = choose|j: int| 0 <= j < self.sessions@.dom().len() && self.sessions.has_key_at(k, j);
                assert(self.sessions.has_key_at(out@[j].0@, j));
                self.sessions.lemma_one_key_per_position(k, out@[j].0@, j);
            }
        }
        out
    }

    /// Stores `session` under `date_key`, replacing any earlier record whole.
    pub fn save(&mut self, date_key: &str, session: WorkoutSession)
        requires
            old(self).wf(),
        ensures
            final(self).wf(),
            final(self).sessions() == old(self).sessions().insert(date_key@, session),
            final(self).first_session() == old(self).first_session(),
            final(self).settings() == old(self).settings(),
    {
        self.sessions.insert(date_key.to_owned(), session);
    }

    pub fn get_first_session_date(&self) -> (r: Option<String>)
        ensures
            string_opt_view(r) == self.first_session(),
    {
        match &self.first_session_date {
            Some(d) => Some(d.clone()),
            None => None,
        }
    }

    /// Records the date of the first session; does nothing once one is set.
    pub fn set_first_session_date(&mut self, date_key: &str)
        requires
            old(self).wf(),
        ensures
            final(self).wf(),
            final(self).first_session() == first_after_set(old(self).first_session(), date_key@),
            final(self).sessions() == old(self).sessions(),
            final(self).settings() == old(self).settings(),
    {
        if self.first_session_date.is_none() {
            self.first_session_date = Some(date_key.to_owned());
        }
    }

    pub fn get_setting(&self, key: &str) -> (r: Option<String>)
        requires
            self.wf(),
        ensures
            r.is_some() == self.settings().contains_key(key@),
            r matches Some(v) ==> v@ == self.settings()[key@],
    {
        let k = key.to_owned();
        match self.settings.get(&k) {
            Some(v) => Some(v.clone()),
            None => None,
        }
    }

    /// Reads a yes-or-no setting.
    pub fn get_flag(&self, key: &str, default: bool) -> (r: bool)
        requires
            self.wf(),
        ensures
            r == flag_of(
                if self.settings().contains_key(key@) { Some(self.settings()[key@]) } else { None },
                default,
            ),
    {
        match self.get_setting(key) {
            Some(v) => !same_text(v.as_str(), "false"),
            None => default,
        }
    }

    /// Writes a yes-or-no setting as `true` or `false`.
    pub fn set_flag(&mut self, key: &str, on: bool)
        requires
            old(self).wf(),
        ensures
            final(self).wf(),
            final(self).settings() == old(self).settings().insert(key@, flag_text(on)),
            final(self).sessions() == old(self).sessions(),
            final(self).first_session() == old(self).first_session(),
    {
        if on {
            self.set_setting(key, "true");
        } else {
            self.set_setting(key, "false");
        }
    }

    /// The relay's secret: the one kept in the settings, or else a fresh one,
    /// which is kept from then on.
    pub fn auth_token_or_create(&mut self) -> (r: String)
        requires
            old(self).wf(),
        ensures
            final(self).wf(),
            final(self).sessions() == old(self).sessions(),
            final(self).first_session() == old(self).first_session(),
            old(self).settings().contains_key(AUTH_TOKEN_SETTING@) ==> r@ == old(self).settings()[AUTH_TOKEN_SETTING@]
                && final(self).settings() == old(self).settings(),
            !old(self).settings().contains_key(AUTH_TOKEN_SETTING@) ==> r@.len() == 32
                && (exists|b: Seq<u8>| b.len() == 16 && r@ == hex_of(b))
                && final(self).settings() == old(self).settings().insert(AUTH_TOKEN_SETTING@, r@),
    {
        match self.get_setting(AUTH_TOKEN_SETTING) {
            Some(t) => t,
            None => {
                let t = generate_auth_token();
                self.set_setting(AUTH_TOKEN_SETTING, t.as_str());
                t
            },
        }
    }

    pub fn set_setting(&mut self, key: &str, value: &str)
        requires
            old(self).wf(),
        ensures
            final(self).wf(),
            final(self).settings() == old(self).settings().insert(key@, value@),
            final(self).sessions() == old(self).sessions(),
            final(self).first_session() == old(self).first_session(),
    {
        let ghost before = self.settings@;
        self.settings.insert(key.to_owned(), value.to_owned());
        proof {
            assert(self.settings() =~= before.map_values(|v: String| v@).insert(key@, value@));
        }
    }
}

} // verus!
