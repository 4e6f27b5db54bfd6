//! The account and session tables: what each row means, which rows are
//! live, the invariant that the tables keep, and the primitive reads and
//! writes that the lifecycle operations are built from.

use vstd::prelude::*;

use crate::credentials::{hash_access_token, token_digest, DIGEST_CHARS};
use crate::error::ApiError;
use crate::model::{AuthContext, Config, SessionTokenRow, UserPublicRow, UserRow};

pub mod accounts;
pub mod passwords;
pub mod sessions;

verus! {


/// Some account has id `id`.
pub open spec fn has_user(users: Seq<UserRow>, id: u128) -> bool {
    exists|j: int| 0 <= j < users.len() && #[trigger] users[j].user_id == id
}

/// The position of the account with id `id`.
pub open spec fn user_at(users: Seq<UserRow>, id: u128) -> int {
    choose|j: int| 0 <= j < users.len() && #[trigger] users[j].user_id == id
}

/// Some account has username `name`.
pub open spec fn has_username(users: Seq<UserRow>, name: Seq<char>) -> bool {
    exists|j: int| 0 <= j < users.len() && #[trigger] users[j].username@ == name
}

/// The position of the account with username `name`.
pub open spec fn username_at(users: Seq<UserRow>, name: Seq<char>) -> int {
    choose|j: int| 0 <= j < users.len() && #[trigger] users[j].username@ == name
}

/// Some session has id `id`.
pub open spec fn has_session(sessions: Seq<SessionTokenRow>, id: u128) -> bool {
    exists|j: int| 0 <= j < sessions.len() && #[trigger] sessions[j].session_token_id == id
}

/// The position of the session with id `id`.
pub open spec fn session_at(sessions: Seq<SessionTokenRow>, id: u128) -> int {
    choose|j: int| 0 <= j < sessions.len() && #[trigger] sessions[j].session_token_id == id
}

/// Some session is stored under the token digest `hash`.
pub open spec fn has_token_hash(sessions: Seq<SessionTokenRow>, hash: Seq<char>) -> bool {
    exists|j: int| 0 <= j < sessions.len() && #[trigger] sessions[j].token_hash@ == hash
}

/// The account `id` exists and may authenticate.
pub open spec fn account_active(users: Seq<UserRow>, id: u128) -> bool {
    has_user(users, id) && users[user_at(users, id)].is_active
}

/// A session is live: not revoked, not expired, and its account is active.
pub open spec fn session_live(s: SessionTokenRow, users: Seq<UserRow>, now: int) -> bool {
    &&& s.revoked_at is None
    &&& now < s.expires_at
    &&& account_active(users, s.user_id)
}

/// The session at `i` is the live session stored under `hash`.
pub open spec fn resolves_at(
    users: Seq<UserRow>,
    sessions: Seq<SessionTokenRow>,
    hash: Seq<char>,
    now: int,
    i: int,
) -> bool {
    &&& 0 <= i < sessions.len()
    &&& sessions[i].token_hash@ == hash
    &&& session_live(sessions[i], users, now)
}

/// A bearer secret with digest `hash` resolves to a principal at time `now`.
pub open spec fn resolvable(
    users: Seq<UserRow>,
    sessions: Seq<SessionTokenRow>,
    hash: Seq<char>,
    now: int,
) -> bool {
    exists|i: int| resolves_at(users, sessions, hash, now, i)
}

/// The principal that the session at `i` stands for.
pub open spec fn principal_of(users: Seq<UserRow>, sessions: Seq<SessionTokenRow>, i: int) -> AuthContext {
    AuthContext {
        user_id: sessions[i].user_id,
        role: users[user_at(users, sessions[i].user_id)].roles,
        session_token_id: sessions[i].session_token_id,
    }
}

/// Relies on uuid's `Uuid::new_v4` (`as_u128`): a random version-4 UUID.
#[verifier::external_body]
pub(crate) fn random_id() -> u128 {
    uuid::Uuid::new_v4().as_u128()
}

/// Account ids, usernames, session ids and token digests are each unique.
pub open spec fn tables_wf(users: Seq<UserRow>, sessions: Seq<SessionTokenRow>) -> bool {
    &&& forall|i: int, j: int|
        0 <= i < users.len() && 0 <= j < users.len() && i != j ==> #[trigger] users[i].user_id
            != #[trigger] users[j].user_id
    &&& forall|i: int, j: int|
        0 <= i < users.len() && 0 <= j < users.len() && i != j ==> #[trigger] users[i].username@
            != #[trigger] users[j].username@
    &&& forall|i: int, j: int|
        0 <= i < sessions.len() && 0 <= j < sessions.len() && i != j
            ==> #[trigger] sessions[i].session_token_id != #[trigger] sessions[j].session_token_id
    &&& forall|i: int, j: int|
        0 <= i < sessions.len() && 0 <= j < sessions.len() && i != j
            ==> #[trigger] sessions[i].token_hash@ != #[trigger] sessions[j].token_hash@
}

pub proof fn lemma_user_at(users: Seq<UserRow>, sessions: Seq<SessionTokenRow>, i: int)
    requires
        tables_wf(users, sessions),
        0 <= i < users.len(),
    ensures
        has_user(users, users[i].user_id),
        user_at(users, users[i].user_id) == i,
{
    assert(users[i].user_id == users[i].user_id);
}

pub proof fn lemma_username_at(users: Seq<UserRow>, sessions: Seq<SessionTokenRow>, i: int)
    requires
        tables_wf(users, sessions),
        0 <= i < users.len(),
    ensures
        has_username(users, users[i].username@),
        username_at(users, users[i].username@) == i,
{
    assert(users[i].username@ == users[i].username@);
}

pub proof fn lemma_session_at(users: Seq<UserRow>, sessions: Seq<SessionTokenRow>, i: int)
    requires
        tables_wf(users, sessions),
        0 <= i < sessions.len(),
    ensures
        has_session(sessions, sessions[i].session_token_id),
        session_at(sessions, sessions[i].session_token_id) == i,
{
    assert(sessions[i].session_token_id == sessions[i].session_token_id);
}

/// The row that `open_session` appends.
pub open spec fn opened_row(
    s: SessionTokenRow,
    user_id: u128,
    hash: Seq<char>,
    session_type: i16,
    now: i64,
    expires_at: i64,
    impersonator: Option<u128>,
) -> bool {
    &&& s.user_id == user_id
    &&& s.token_hash@ == hash
    &&& s.session_type == session_type
    &&& s.created_at == now
    &&& s.last_seen_at is None
    &&& s.expires_at == expires_at
    &&& s.revoked_at is None
    &&& s.impersonator_user_id == impersonator
    &&& s.impersonated_user_id == (if impersonator is Some {
        Some(user_id)
    } else {
        None
    })
}

/// A session that a bulk revocation for `user_id` ends: one of that account's
/// unrevoked sessions, other than `keep`, and unexpired unless `include_expired`.
pub open spec fn revocable(
    s: SessionTokenRow,
    user_id: u128,
    keep: Option<u128>,
    include_expired: bool,
    now: int,
) -> bool {
    &&& s.user_id == user_id
    &&& s.revoked_at is None
    &&& (include_expired || now < s.expires_at)
    &&& (keep is None || s.session_token_id != keep->Some_0)
}

/// A session row after a bulk revocation at `now`.
pub open spec fn after_revocation(
    s: SessionTokenRow,
    user_id: u128,
    keep: Option<u128>,
    include_expired: bool,
    now: i64,
) -> SessionTokenRow {
    if revocable(s, user_id, keep, include_expired, now as int) {
        SessionTokenRow { revoked_at: Some(now), ..s }
    } else {
        s
    }
}

/// How many sessions of `ss` a bulk revocation ends.
pub open spec fn count_revocable(
    ss: Seq<SessionTokenRow>,
    user_id: u128,
    keep: Option<u128>,
    include_expired: bool,
    now: int,
) -> nat
    decreases ss.len(),
{
    if ss.len() == 0 {
        0
    } else {
        count_revocable(ss.drop_last(), user_id, keep, include_expired, now) + if revocable(
            ss.last(),
            user_id,
            keep,
            include_expired,
            now,
        ) {
            1nat
        } else {
            0nat
        }
    }
}

/// The session `id` exists, belongs to `user_id` and is not revoked.
pub open spec fn owned_unrevoked(sessions: Seq<SessionTokenRow>, user_id: u128, id: u128) -> bool {
    &&& has_session(sessions, id)
    &&& sessions[session_at(sessions, id)].user_id == user_id
    &&& sessions[session_at(sessions, id)].revoked_at is None
}

/// Session `id` is live and belongs to `user_id`.
pub open spec fn live_owned(
    users: Seq<UserRow>,
    sessions: Seq<SessionTokenRow>,
    user_id: u128,
    id: u128,
    now: int,
) -> bool {
    &&& has_session(sessions, id)
    &&& sessions[session_at(sessions, id)].user_id == user_id
    &&& session_live(sessions[session_at(sessions, id)], users, now)
}

/// The listing of an account's public fields.
pub open spec fn public_row_of(u: UserRow) -> UserPublicRow {
    UserPublicRow {
        user_id: u.user_id,
        username: u.username,
        display_name: u.display_name,
        roles: u.roles,
        is_active: u.is_active,
        created_at: u.created_at,
    }
}

/// The account and session tables, with the settings that the lifecycle rules read.
pub struct SessionManager {
    session_ttl_hours: i64,
    clinic_name: String,
    users: Vec<UserRow>,
    sessions: Vec<SessionTokenRow>,
}

impl SessionManager {
    pub closed spec fn users(&self) -> Seq<UserRow> {
        self.users@
    }

    pub closed spec fn sessions(&self) -> Seq<SessionTokenRow> {
        self.sessions@
    }

    pub closed spec fn ttl_hours(&self) -> i64 {
        self.session_ttl_hours
    }

    pub closed spec fn clinic(&self) -> Seq<char> {
        self.clinic_name@
    }

    /// The tables keep their invariant, and sessions are opened with a positive default lifetime.
    pub open spec fn wf(&self) -> bool {
        &&& tables_wf(self.users(), self.sessions())
        &&& self.ttl_hours() > 0
    }

    /// An empty store with the configured default session lifetime, which must be positive.
    pub fn new(config: &Config, clinic_name: String) -> (r: SessionManager)
        requires
            config.session_ttl_hours > 0,
        ensures
            r.wf(),
            r.users().len() == 0,
            r.sessions().len() == 0,
            r.ttl_hours() == config.session_ttl_hours,
            r.clinic() == clinic_name@,
    {
        SessionManager {
            session_ttl_hours: config.session_ttl_hours,
            clinic_name,
            users: Vec::new(),
            sessions: Vec::new(),
        }
    }

    fn set_session_row(&mut self, i: usize, row: SessionTokenRow)
        requires
            i < old(self).sessions().len(),
        ensures
            final(self).sessions() == old(self).sessions().update(i as int, row),
            final(self).users() == old(self).users(),
            final(self).ttl_hours() == old(self).ttl_hours(),
            final(self).clinic() == old(self).clinic(),
    {
        self.sessions.set(i, row);
    }

    fn set_user_row(&mut self, i: usize, row: UserRow)
        requires
            i < old(self).users().len(),
        ensures
            final(self).users() == old(self).users().update(i as int, row),
            final(self).sessions() == old(self).sessions(),
            final(self).ttl_hours() == old(self).ttl_hours(),
            final(self).clinic() == old(self).clinic(),
    {
        self.users.set(i, row);
    }

    fn copy_session_row(row: &SessionTokenRow) -> (r: SessionTokenRow)
        ensures
            r == *row,
    {
        SessionTokenRow {
            session_token_id: row.session_token_id,
            user_id: row.user_id,
            token_hash: row.token_hash.clone(),
            session_type: row.session_type,
            device_name: match &row.device_name {
                Some(d) => Some(d.clone()),
                None => None,
            },
            created_at: row.created_at,
            last_seen_at: row.last_seen_at,
            expires_at: row.expires_at,
            revoked_at: row.revoked_at,
            impersonator_user_id: row.impersonator_user_id,
            impersonated_user_id: row.impersonated_user_id,
        }
    }

    fn copy_user_row(row: &UserRow) -> (r: UserRow)
        ensures
            r == *row,
    {
        UserRow {
            user_id: row.user_id,
            username: row.username.clone(),
            display_name: row.display_name.clone(),
            password_hash: row.password_hash.clone(),
            roles: row.roles,
            is_active: row.is_active,
            created_at: row.created_at,
        }
    }

    /// Stores `password_hash` on the account at `u`, keeping everything else.
    fn store_password_hash(&mut self, u: usize, password_hash: String)
        requires
            old(self).wf(),
            u < old(self).users().len(),
        ensures
            final(self).wf(),
            final(self).users() == old(self).users().update(
                u as int,
                UserRow { password_hash, ..old(self).users()[u as int] },
            ),
            final(self).sessions() == old(self).sessions(),
            final(self).ttl_hours() == old(self).ttl_hours(),
            final(self).clinic() == old(self).clinic(),
    {
        let ghost start = self.users@;
        let mut row = Self::copy_user_row(&self.users[u]);
        row.password_hash = password_hash;
        self.set_user_row(u, row);
        proof {
            assert forall|a: int| 0 <= a < self.users@.len() implies
                #[trigger] self.users@[a].user_id == start[a].user_id
                && self.users@[a].username == start[a].username by {}
        }
    }

    fn find_user_by_id(&self, id: u128) -> (r: Option<usize>)
        requires
            self.wf(),
        ensures
            r is Some <==> has_user(self.users(), id),
            r is Some ==> r->Some_0 == user_at(self.users(), id),
    {
        let mut i: usize = 0;
        while i < self.users.len()
            invariant
                self.wf(),
                i <= self.users@.len(),
                forall|j: int| 0 <= j < i ==> #[trigger] self.users@[j].user_id != id,
            decreases self.users@.len() - i,
        {
            if self.users[i].user_id == id {
                proof {
                    lemma_user_at(self.users@, self.sessions@, i as int);
                }
                return Some(i);
            }
            i = i + 1;
        }
        None
    }

    fn find_user_by_name(&self, name: &String) -> (r: Option<usize>)
        requires
            self.wf(),
        ensures
            r is Some <==> has_username(self.users(), name@),
            r is Some ==> r->Some_0 == username_at(self.users(), name@),
    {
        let mut i: usize = 0;
        while i < self.users.len()
            invariant
                self.wf(),
                i <= self.users@.len(),
                forall|j: int| 0 <= j < i ==> #[trigger] self.users@[j].username@ != name@,
            decreases self.users@.len() - i,
        {
            if self.users[i].username == *name {
                proof {
                    lemma_username_at(self.users@, self.sessions@, i as int);
                }
                return Some(i);
            }
            i = i + 1;
        }
        None
    }

    fn find_session_by_id(&self, id: u128) -> (r: Option<usize>)
        requires
            self.wf(),
        ensures
            r is Some <==> has_session(self.sessions(), id),
            r is Some ==> r->Some_0 == session_at(self.sessions(), id),
    {
        let mut i: usize = 0;
        while i < self.sessions.len()
            invariant
                self.wf(),
                i <= self.sessions@.len(),
                forall|j: int| 0 <= j < i ==> #[trigger] self.sessions@[j].session_token_id != id,
            decreases self.sessions@.len() - i,
        {
            if self.sessions[i].session_token_id == id {
                proof {
                    lemma_session_at(self.users@, self.sessions@, i as int);
                }
                return Some(i);
            }
            i = i + 1;
        }
        None
    }

    fn find_session_by_hash(&self, hash: &String) -> (r: Option<usize>)
        requires
            self.wf(),
        ensures
            r is Some <==> has_token_hash(self.sessions(), hash@),
            r is Some ==> r->Some_0 < self.sessions().len() && self.sessions()[r->Some_0 as int].token_hash@
                == hash@,
    {
        let mut i: usize = 0;
        while i < self.sessions.len()
            invariant
                self.wf(),
                i <= self.sessions@.len(),
                forall|j: int| 0 <= j < i ==> #[trigger] self.sessions@[j].token_hash@ != hash@,
            decreases self.sessions@.len() - i,
        {
            if self.sessions[i].token_hash == *hash {
                return Some(i);
            }
            i = i + 1;
        }
        None
    }

    /// Appends session `id` for account `user_id`, stored under the digest of
    /// `token`. An id or a digest that is already stored is an integrity
    /// failure and leaves the tables as they were.
    pub fn open_session(
        &mut self,
        id: u128,
        user_id: u128,
        token: &str,
        session_type: i16,
        device_name: Option<String>,
        expires_at: i64,
        impersonator: Option<u128>,
        now: i64,
    ) -> (r: Result<(), ApiError>)
        requires
            old(self).wf(),
        ensures
            final(self).wf(),
            final(self).users() == old(self).users(),
            final(self).ttl_hours() == old(self).ttl_hours(),
            final(self).clinic() == old(self).clinic(),
            r is Err <==> has_token_hash(old(self).sessions(), token_digest(token@)) || has_session(
                old(self).sessions(),
                id,
            ),
            r is Err ==> r->Err_0 is Internal && final(self).sessions() == old(self).sessions(),
            r is Ok ==> {
                &&& final(self).sessions().len() == old(self).sessions().len() + 1
                &&& final(self).sessions().drop_last() == old(self).sessions()
                &&& final(self).sessions().last().session_token_id == id
                &&& opened_row(
                    final(self).sessions().last(),
                    user_id,
                    token_digest(token@),
                    session_type,
                    now,
                    expires_at,
                    impersonator,
                )
                &&& final(self).sessions().last().token_hash@.len() == DIGEST_CHARS
                &&& final(self).sessions().last().device_name == device_name
            },
    {
        let hash = hash_access_token(token);
        if self.find_session_by_hash(&hash).is_some() {
            return Err(ApiError::Internal("session token collision"));
        }
        if self.find_session_by_id(id).is_some() {
            return Err(ApiError::Internal("session id collision"));
        }
        let impersonated = match impersonator {
            Some(_) => Some(user_id),
            None => None,
        };
        let row = SessionTokenRow {
            session_token_id: id,
            user_id,
            token_hash: hash,
            session_type,
            device_name,
            created_at: now,
            last_seen_at: None,
            expires_at,
            revoked_at: None,
            impersonator_user_id: impersonator,
            impersonated_user_id: impersonated,
        };
        let ghost old_sessions = self.sessions@;
        self.sessions.push(row);
        proof {
            assert(self.sessions@.drop_last() =~= old_sessions);
            let n = old_sessions.len() as int;
            assert forall|a: int, b: int|
                0 <= a < self.sessions@.len() && 0 <= b < self.sessions@.len() && a != b
                    implies #[trigger] self.sessions@[a].token_hash@
                    != #[trigger] self.sessions@[b].token_hash@ by {
                if a == n {
                    assert(old_sessions[b].token_hash@ == self.sessions@[b].token_hash@);
                } else if b == n {
                    assert(old_sessions[a].token_hash@ == self.sessions@[a].token_hash@);
                }
            }
            assert forall|a: int, b: int|
                0 <= a < self.sessions@.len() && 0 <= b < self.sessions@.len() && a != b
                    implies #[trigger] self.sessions@[a].session_token_id
                    != #[trigger] self.sessions@[b].session_token_id by {
                if a == n {
                    assert(old_sessions[b].session_token_id == self.sessions@[b].session_token_id);
                } else if b == n {
                    assert(old_sessions[a].session_token_id == self.sessions@[a].session_token_id);
                }
            }
        }
        Ok(())
    }

    /// Ends every session that `revocable` selects and reports how many.
    fn revoke_matching(
        &mut self,
        user_id: u128,
        keep: Option<u128>,
        include_expired: bool,
        now: i64,
    ) -> (count: usize)
        requires
            old(self).wf(),
        ensures
            final(self).wf(),
            final(self).users() == old(self).users(),
            final(self).ttl_hours() == old(self).ttl_hours(),
            final(self).clinic() == old(self).clinic(),
            final(self).sessions().len() == old(self).sessions().len(),
            forall|k: int|
                0 <= k < old(self).sessions().len() ==> #[trigger] final(self).sessions()[k]
                    == after_revocation(old(self).sessions()[k], user_id, keep, include_expired, now),
            count == count_revocable(old(self).sessions(), user_id, keep, include_expired, now as int),
    {
        let ghost start = self.sessions@;
        let mut count: usize = 0;
        let mut i: usize = 0;
        while i < self.sessions.len()
            invariant
                self.sessions@.len() == start.len(),
                i <= start.len(),
                count <= i,
                count == count_revocable(start.subrange(0, i as int), user_id, keep, include_expired, now as int),
                forall|k: int| 0 <= k < i ==> #[trigger] self.sessions@[k] == after_revocation(start[k], user_id, keep, include_expired, now),
                forall|k: int| i <= k < start.len() ==> #[trigger] self.sessions@[k] == start[k],
                self.users@ == old(self).users@,
                self.session_ttl_hours == old(self).session_ttl_hours,
                self.clinic_name == old(self).clinic_name,
            decreases start.len() - i,
        {
            let hit = self.sessions[i].user_id == user_id && self.sessions[i].revoked_at.is_none()
                && (include_expired || now < self.sessions[i].expires_at) && match keep {
                Some(k) => self.sessions[i].session_token_id != k,
                None => true,
            };
            if hit {
                let mut row = Self::copy_session_row(&self.sessions[i]);
                row.revoked_at = Some(now);
                self.sessions.set(i, row);
                count = count + 1;
            }
            proof {
                assert(start.subrange(0, i + 1).drop_last() =~= start.subrange(0, i as int));
            }
            i = i + 1;
        }
        proof {
            assert(start.subrange(0, start.len() as int) =~= start);
            assert forall|a: int| 0 <= a < self.sessions@.len() implies
                #[trigger] self.sessions@[a].session_token_id == start[a].session_token_id
                && self.sessions@[a].token_hash == start[a].token_hash by {
                assert(self.sessions@[a] == after_revocation(start[a], user_id, keep, include_expired, now));
            }
        }
        count
    }

    /// Ends session `id` if it belongs to `user_id` and is not yet revoked.
    fn revoke_owned(&mut self, user_id: u128, id: u128, now: i64) -> (done: bool)
        requires
            old(self).wf(),
        ensures
            final(self).wf(),
            final(self).users() == old(self).users(),
            final(self).ttl_hours() == old(self).ttl_hours(),
            final(self).clinic() == old(self).clinic(),
            done == owned_unrevoked(old(self).sessions(), user_id, id),
            done ==> final(self).sessions() == old(self).sessions().update(
                session_at(old(self).sessions(), id),
                SessionTokenRow {
                    revoked_at: Some(now),
                    ..old(self).sessions()[session_at(old(self).sessions(), id)]
                },
            ),
            !done ==> final(self).sessions() == old(self).sessions(),
    {
        let i = match self.find_session_by_id(id) {
            Some(i) => i,
            None => {
                return false;
            },
        };
        if self.sessions[i].user_id != user_id || self.sessions[i].revoked_at.is_some() {
            return false;
        }
        let ghost start = self.sessions@;
        let mut row = Self::copy_session_row(&self.sessions[i]);
        row.revoked_at = Some(now);
        self.set_session_row(i, row);
        proof {
            assert forall|a: int| 0 <= a < self.sessions@.len() implies
                #[trigger] self.sessions@[a].session_token_id == start[a].session_token_id
                && self.sessions@[a].token_hash == start[a].token_hash by {}
        }
        true
    }

    /// Ends every unrevoked session of account `user_id`, the caller's included.
    pub fn revoke_all_for_user(&mut self, user_id: u128, now: i64) -> (count: usize)
        requires
            old(self).wf(),
        ensures
            final(self).wf(),
            final(self).users() == old(self).users(),
            final(self).sessions().len() == old(self).sessions().len(),
            forall|k: int|
                0 <= k < old(self).sessions().len() ==> #[trigger] final(self).sessions()[k]
                    == after_revocation(old(self).sessions()[k], user_id, None, true, now),
            count == count_revocable(old(self).sessions(), user_id, None, true, now as int),
    {
        self.revoke_matching(user_id, None, true, now)
    }

    /// Stores a new account; usernames are unique. This is the table write
    /// alone: `create_user` is the operation that checks the caller and the input.
    pub fn insert_user(
        &mut self,
        user_id: u128,
        username: String,
        display_name: String,
        password_hash: String,
        roles: i16,
        is_active: bool,
        now: i64,
    ) -> (r: Result<(), ApiError>)
        requires
            old(self).wf(),
        ensures
            final(self).wf(),
            final(self).sessions() == old(self).sessions(),
            final(self).ttl_hours() == old(self).ttl_hours(),
            final(self).clinic() == old(self).clinic(),
            has_username(old(self).users(), username@) ==> r is Err && r->Err_0 is ValidationError,
            !has_username(old(self).users(), username@) ==> (r is Ok <==> !has_user(
                old(self).users(),
                user_id,
            )),
            !has_username(old(self).users(), username@) && r is Err ==> r->Err_0 is Internal,
            r is Err ==> final(self).users() == old(self).users(),
            r is Ok ==> final(self).users() == old(self).users().push(
                UserRow {
                    user_id,
                    username,
                    display_name,
                    password_hash,
                    roles,
                    is_active,
                    created_at: now,
                },
            ),
    {
        if self.find_user_by_name(&username).is_some() {
            return Err(ApiError::ValidationError("username already exists"));
        }
        if self.find_user_by_id(user_id).is_some() {
            return Err(ApiError::Internal("account id collision"));
        }
        let id = user_id;
        let ghost start = self.users@;
        self.users.push(
            UserRow { user_id: id, username, display_name, password_hash, roles, is_active, created_at: now },
        );
        proof {
            let n = start.len() as int;
            assert forall|a: int, b: int|
                0 <= a < self.users@.len() && 0 <= b < self.users@.len() && a != b
                    implies #[trigger] self.users@[a].username@
                    != #[trigger] self.users@[b].username@ by {
                if a == n {
                    assert(start[b].username@ == self.users@[b].username@);
                } else if b == n {
                    assert(start[a].username@ == self.users@[a].username@);
                }
            }
            assert forall|a: int, b: int|
                0 <= a < self.users@.len() && 0 <= b < self.users@.len() && a != b
                    implies #[trigger] self.users@[a].user_id
                    != #[trigger] self.users@[b].user_id by {
                if a == n {
                    assert(start[b].user_id == self.users@[b].user_id);
                } else if b == n {
                    assert(start[a].user_id == self.users@[a].user_id);
                }
            }
        }
        Ok(())
    }

    fn public_row(&self, u: usize) -> (r: UserPublicRow)
        requires
            u < self.users().len(),
        ensures
            r == public_row_of(self.users()[u as int]),
    {
        let row = &self.users[u];
        UserPublicRow {
            user_id: row.user_id,
            username: row.username.clone(),
            display_name: row.display_name.clone(),
            roles: row.roles,
            is_active: row.is_active,
            created_at: row.created_at,
        }
    }
}

} // verus!
