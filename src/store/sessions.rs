//! Login, resolution of bearer credentials, and the life of a session:
//! refresh, extension, revocation, impersonation and listing.

use vstd::prelude::*;

use crate::bearer::{bearer_credential, bearer_token};
use crate::credentials::{
    DIGEST_CHARS,
    generate_access_token, hash_access_token, is_opaque_token, password_matches, token_digest,
    verify_password,
};
use crate::error::{ApiError, ErrorKind, kind_of};
use crate::model::{
    AuthContext, ClinicProfile, DEFAULT_PATIENT_TTL_HOURS, ExtendSessionData, ExtendSessionRequest,
    ExtendSessionResponse, GetSessionData, GetSessionResponse, IMPERSONATION_TTL_HOURS,
    ImpersonateData, ImpersonateResponse, ListSessionsData, ListSessionsResponse, LoginRequest,
    LoginResponse, LoginResponseData, MAX_EXTEND_HOURS, MeResponse, MeResponseData, OkData,
    OkResponse, REMEMBER_ME_TTL_HOURS, RefreshData, RefreshResponse, RevokeAllData,
    RevokeAllResponse, RevokeOneData, RevokeOneResponse, SESSION_TYPE_PATIENT_WEB,
    SESSION_TYPE_USER_PORTAL, SessionDetail, SessionInfo, SessionListItem, SessionTokenRow,
    UserProfile, UserRow, expiry_after, extend_expiry, extended_expiry, fits_i64, hours_after,
    is_known_session_type, known_session_type,
};
use crate::roles::{ROLE_ADMIN, ensure_admin, is_privileged, privileged, role_name, role_to_string};
use crate::validation::{trim, trimmed};
use super::{
    random_id, SessionManager, account_active, after_revocation, count_revocable, has_session,
    has_token_hash, has_username, live_owned, opened_row, owned_unrevoked, principal_of,
    resolvable, resolves_at, session_at, session_live, tables_wf, user_at, username_at,
};

verus! {

/// A freshly drawn session id or token can collide only with a stored session.
pub open spec fn collision_possible(sessions: Seq<SessionTokenRow>) -> bool {
    sessions.len() > 0
}

/// The digest of some opaque token is already stored. Only then can storing a
/// fresh random token fail, because its digest may collide.
pub open spec fn some_token_digest_stored(sessions: Seq<SessionTokenRow>) -> bool {
    exists|t: Seq<char>| is_opaque_token(t) && has_token_hash(sessions, token_digest(t))
}

/// What a login on a surface returns, whatever token was drawn: the refusal,
/// if any; otherwise success, unless the expiry is not representable or the
/// fresh session id or token collides with a stored session.
pub open spec fn login_outcome(
    users: Seq<UserRow>,
    sessions: Seq<SessionTokenRow>,
    default_ttl: i64,
    req: LoginRequest,
    session_type: i16,
    required_role: Option<i16>,
    now: i64,
    r: Result<LoginResponse, ApiError>,
) -> bool {
    let refusal = login_refusal(users, req.username@, req.password@, session_type, required_role);
    let expiry = hours_after(
        now as int,
        login_ttl_hours(session_type, req.remember_me, default_ttl) as int,
    );
    &&& refusal is Some ==> r is Err && kind_of(r->Err_0) == refusal->Some_0
    &&& refusal is None && r is Err ==> r->Err_0 is Internal && (!fits_i64(expiry)
        || collision_possible(sessions))
    &&& refusal is None && !fits_i64(expiry) ==> r is Err
}

/// A successful login: the profile of the account, and exactly one new
/// session row with a fresh id, stored under the 64-digit digest of the
/// returned token, never under the token itself.
pub open spec fn login_opened(
    users: Seq<UserRow>,
    s0: Seq<SessionTokenRow>,
    s1: Seq<SessionTokenRow>,
    default_ttl: i64,
    clinic: Seq<char>,
    req: LoginRequest,
    session_type: i16,
    now: i64,
    data: LoginResponseData,
) -> bool {
    let u = username_at(users, trimmed(req.username@));
    &&& is_opaque_token(data.access_token@)
    &&& data.expires_at == hours_after(
        now as int,
        login_ttl_hours(session_type, req.remember_me, default_ttl) as int,
    )
    &&& data.expires_at > now
    &&& data.dcms_user.user_id == users[u].user_id
    &&& data.dcms_user.username@ == users[u].username@
    &&& data.dcms_user.display_name@ == users[u].display_name@
    &&& data.dcms_user.roles@.len() == 1
    &&& data.dcms_user.roles@[0]@ == role_name(users[u].roles)
    &&& data.clinic.clinic_name@ == clinic
    &&& s1.len() == s0.len() + 1
    &&& s1.drop_last() == s0
    &&& !has_session(s0, s1.last().session_token_id)
    &&& s1.last().token_hash@.len() == DIGEST_CHARS
    &&& opened_row(
        s1.last(),
        users[u].user_id,
        token_digest(data.access_token@),
        session_type,
        now,
        data.expires_at,
        None,
    )
    &&& s1.last().device_name == req.device_name
}

/// The lifetime in hours of a session opened by login.
pub open spec fn login_ttl_hours(session_type: i16, remember_me: Option<bool>, default_ttl: i64) -> i64 {
    if session_type == SESSION_TYPE_PATIENT_WEB {
        DEFAULT_PATIENT_TTL_HOURS
    } else if remember_me == Some(true) {
        REMEMBER_ME_TTL_HOURS
    } else {
        default_ttl
    }
}

/// Why a login is refused before any session is created, checked in this order:
/// blank username or password, unknown session type, unknown username, disabled
/// account, role not admitted on this login surface, wrong password.
pub open spec fn login_refusal(
    users: Seq<UserRow>,
    username: Seq<char>,
    password: Seq<char>,
    session_type: i16,
    required_role: Option<i16>,
) -> Option<ErrorKind> {
    let name = trimmed(username);
    if name.len() == 0 || password.len() == 0 {
        Some(ErrorKind::ValidationError)
    } else if !known_session_type(session_type) {
        Some(ErrorKind::ValidationError)
    } else if !has_username(users, name) {
        Some(ErrorKind::InvalidCredentials)
    } else if !users[username_at(users, name)].is_active {
        Some(ErrorKind::Forbidden)
    } else if required_role is Some && users[username_at(users, name)].roles
        != required_role->Some_0 {
        Some(ErrorKind::Forbidden)
    } else if !password_matches(password, users[username_at(users, name)].password_hash@) {
        Some(ErrorKind::InvalidCredentials)
    } else {
        None
    }
}

/// The hours an extension asks for: as given, or the default lifetime for the
/// caller's role (the patient default for patients).
pub open spec fn requested_hours(extend_hours: Option<i64>, role: i16, default_ttl: i64) -> i64 {
    match extend_hours {
        Some(h) => h,
        None => if role == 0 {
            DEFAULT_PATIENT_TTL_HOURS
        } else {
            default_ttl
        },
    }
}

/// Session `id` may be extended by `auth`: it exists, is not revoked, and is
/// the caller's own unless the caller is an admin or a manager.
pub open spec fn extendable_by(sessions: Seq<SessionTokenRow>, auth: AuthContext, id: u128) -> bool {
    &&& has_session(sessions, id)
    &&& sessions[session_at(sessions, id)].revoked_at is None
    &&& (privileged(auth.role) || sessions[session_at(sessions, id)].user_id == auth.user_id)
}

/// What a session listing shows of a row.
pub open spec fn list_item_of(s: SessionTokenRow) -> SessionListItem {
    SessionListItem {
        session_token_id: s.session_token_id,
        session_type: s.session_type,
        device_name: s.device_name,
        expires_at: s.expires_at,
        last_seen_at: s.last_seen_at,
        created_at: s.created_at,
    }
}

/// What a session lookup shows of a row.
pub open spec fn detail_of(s: SessionTokenRow) -> SessionDetail {
    SessionDetail {
        session_token_id: s.session_token_id,
        user_id: s.user_id,
        session_type: s.session_type,
        device_name: s.device_name,
        expires_at: s.expires_at,
        created_at: s.created_at,
        last_seen_at: s.last_seen_at,
        revoked_at: s.revoked_at,
    }
}

/// The live sessions of `user_id` among `ss`, in table order.
pub open spec fn live_items(
    ss: Seq<SessionTokenRow>,
    users: Seq<UserRow>,
    user_id: u128,
    now: int,
) -> Seq<SessionListItem>
    decreases ss.len(),
{
    if ss.len() == 0 {
        seq![]
    } else {
        live_items(ss.drop_last(), users, user_id, now) + if ss.last().user_id == user_id
            && session_live(ss.last(), users, now) {
            seq![list_item_of(ss.last())]
        } else {
            seq![]
        }
    }
}

/// Rank of a last-seen time for ordering: never seen ranks below every time.
pub open spec fn seen_rank(t: Option<i64>) -> int {
    match t {
        Some(v) => v as int,
        None => i64::MIN as int - 1,
    }
}

/// `a` may be listed before `b`: seen more recently (never-seen last), then
/// created more recently.
pub open spec fn listed_before(a: SessionListItem, b: SessionListItem) -> bool {
    seen_rank(a.last_seen_at) > seen_rank(b.last_seen_at) || (seen_rank(a.last_seen_at)
        == seen_rank(b.last_seen_at) && a.created_at >= b.created_at)
}

/// Most recent first.
pub open spec fn by_recency(items: Seq<SessionListItem>) -> bool {
    forall|i: int, j: int| 0 <= i < j < items.len() ==> listed_before(#[trigger] items[i], #[trigger] items[j])
}

impl SessionManager {
    /// Looks up the live session stored under `hash` and marks it as seen now.
    pub fn resolve_token_hash(&mut self, hash: &String, now: i64) -> (r: Result<AuthContext, ApiError>)
        requires
            old(self).wf(),
        ensures
            final(self).wf(),
            final(self).users() == old(self).users(),
            r is Ok <==> resolvable(old(self).users(), old(self).sessions(), hash@, now as int),
            r is Err ==> r->Err_0 is SessionExpired && final(self).sessions() == old(self).sessions(),
            r is Ok ==> exists|i: int|
                resolves_at(old(self).users(), old(self).sessions(), hash@, now as int, i)
                    && r->Ok_0 == principal_of(old(self).users(), old(self).sessions(), i)
                    && final(self).sessions() == old(self).sessions().update(
                    i,
                    SessionTokenRow { last_seen_at: Some(now), ..old(self).sessions()[i] },
                ),
            final(self).ttl_hours() == old(self).ttl_hours(),
            final(self).clinic() == old(self).clinic(),
    {
        let found = self.find_session_by_hash(hash);
        let i = match found {
            Some(i) => i,
            None => {
                return Err(ApiError::session_expired());
            },
        };
        let ghost users = self.users@;
        let ghost sessions = self.sessions@;
        let uid = self.sessions[i].user_id;
        let u = match self.find_user_by_id(uid) {
            Some(u) => u,
            None => {
                return Err(ApiError::session_expired());
            },
        };
        if self.sessions[i].revoked_at.is_some() || now >= self.sessions[i].expires_at
            || !self.users[u].is_active {
            proof {
                assert forall|k: int| !resolves_at(users, sessions, hash@, now as int, k) by {
                    if resolves_at(users, sessions, hash@, now as int, k) {
                        assert(k == i);
                    }
                }
            }
            return Err(ApiError::session_expired());
        }
        let ctx = AuthContext {
            user_id: uid,
            role: self.users[u].roles,
            session_token_id: self.sessions[i].session_token_id,
        };
        let mut row = self.sessions.remove(i);
        row.last_seen_at = Some(now);
        self.sessions.insert(i, row);
        proof {
            assert(resolves_at(users, sessions, hash@, now as int, i as int));
            assert(ctx == principal_of(users, sessions, i as int));
            assert(self.sessions@ =~= sessions.update(
                i as int,
                SessionTokenRow { last_seen_at: Some(now), ..sessions[i as int] },
            ));
            assert(tables_wf(self.users@, self.sessions@)) by {
                assert forall|a: int| 0 <= a < self.sessions@.len() implies
                    #[trigger] self.sessions@[a].session_token_id == sessions[a].session_token_id
                    && self.sessions@[a].token_hash == sessions[a].token_hash by {}
            }
        }
        Ok(ctx)
    }

    /// Resolves the value of an `Authorization` header into the principal of a
    /// live session, touching that session; fails closed with `SessionExpired`.
    pub fn resolve(&mut self, authorization: Option<&str>, now: i64) -> (r: Result<AuthContext, ApiError>)
        requires
            old(self).wf(),
        ensures
            final(self).wf(),
            final(self).users() == old(self).users(),
            r is Ok <==> authorization is Some && bearer_credential(authorization->Some_0@) is Some
                && resolvable(
                old(self).users(),
                old(self).sessions(),
                token_digest(bearer_credential(authorization->Some_0@)->Some_0),
                now as int,
            ),
            r is Err ==> r->Err_0 is SessionExpired && final(self).sessions() == old(self).sessions(),
            r is Ok ==> exists|i: int|
                resolves_at(
                    old(self).users(),
                    old(self).sessions(),
                    token_digest(bearer_credential(authorization->Some_0@)->Some_0),
                    now as int,
                    i,
                ) && r->Ok_0 == principal_of(old(self).users(), old(self).sessions(), i)
                    && final(self).sessions() == old(self).sessions().update(
                    i,
                    SessionTokenRow { last_seen_at: Some(now), ..old(self).sessions()[i] },
                ),
            final(self).ttl_hours() == old(self).ttl_hours(),
            final(self).clinic() == old(self).clinic(),
    {
        let header = match authorization {
            Some(h) => h,
            None => {
                return Err(ApiError::session_expired());
            },
        };
        let token = match bearer_token(header) {
            Some(t) => t,
            None => {
                return Err(ApiError::session_expired());
            },
        };
        let hash = hash_access_token(token.as_str());
        self.resolve_token_hash(&hash, now)
    }

    /// Authenticates `req` on a login surface and opens a session.
    ///
    /// An unknown username and a wrong password give the same
    /// `InvalidCredentials`; a disabled account or a role that the surface does
    /// not admit gives `Forbidden`. On success the plaintext token is returned
    /// once and only its digest is stored.
    pub fn login_with_type(
        &mut self,
        req: &LoginRequest,
        session_type: i16,
        required_role: Option<i16>,
        now: i64,
    ) -> (r: Result<LoginResponse, ApiError>)
        requires
            old(self).wf(),
        ensures
            final(self).wf(),
            final(self).users() == old(self).users(),
            final(self).ttl_hours() == old(self).ttl_hours(),
            final(self).clinic() == old(self).clinic(),
            r is Err ==> final(self).sessions() == old(self).sessions(),
            login_outcome(
                old(self).users(),
                old(self).sessions(),
                old(self).ttl_hours(),
                *req,
                session_type,
                required_role,
                now,
                r,
            ),
            r is Ok ==> login_refusal(
                old(self).users(),
                req.username@,
                req.password@,
                session_type,
                required_role,
            ) is None && login_opened(
                old(self).users(),
                old(self).sessions(),
                final(self).sessions(),
                old(self).ttl_hours(),
                old(self).clinic(),
                *req,
                session_type,
                now,
                r->Ok_0.data,
            ),
    {
        let username = trim(req.username.as_str());
        if username.is_empty() || req.password.as_str().is_empty() {
            return Err(ApiError::ValidationError("username and password are required"));
        }
        if !is_known_session_type(session_type) {
            return Err(ApiError::ValidationError("unknown session_type"));
        }
        let name = String::from_str(username);
        let u = match self.find_user_by_name(&name) {
            Some(u) => u,
            None => {
                return Err(ApiError::invalid_credentials());
            },
        };
        if !self.users[u].is_active {
            return Err(ApiError::Forbidden("Account is disabled"));
        }
        match required_role {
            Some(rr) => {
                if self.users[u].roles != rr {
                    return Err(ApiError::Forbidden("Account type not allowed for this login"));
                }
            },
            None => {},
        }
        if !verify_password(req.password.as_str(), self.users[u].password_hash.as_str()) {
            return Err(ApiError::invalid_credentials());
        }
        let ttl_hours = if session_type == SESSION_TYPE_PATIENT_WEB {
            DEFAULT_PATIENT_TTL_HOURS
        } else if req.remember_me == Some(true) {
            REMEMBER_ME_TTL_HOURS
        } else {
            self.session_ttl_hours
        };
        let expires_at = match expiry_after(now, ttl_hours) {
            Some(t) => t,
            None => {
                return Err(ApiError::Internal("session expiry out of range"));
            },
        };
        let user_id = self.users[u].user_id;
        let profile = UserProfile {
            user_id,
            username: self.users[u].username.clone(),
            display_name: self.users[u].display_name.clone(),
            roles: vec![role_to_string(self.users[u].roles)],
        };
        let device_name = match &req.device_name {
            Some(d) => Some(d.clone()),
            None => None,
        };
        let access_token = generate_access_token();
        match self.open_session(
            random_id(),
            user_id,
            access_token.as_str(),
            session_type,
            device_name,
            expires_at,
            None,
            now,
        ) {
            Ok(_) => {},
            Err(e) => {
                return Err(e);
            },
        }
        Ok(
            LoginResponse {
                data: LoginResponseData {
                    access_token,
                    expires_at,
                    dcms_user: profile,
                    clinic: ClinicProfile { clinic_name: self.clinic_name.clone() },
                },
            },
        )
    }

    /// Ends the caller's current session.
    pub fn logout(&mut self, auth: &AuthContext, now: i64) -> (r: Result<OkResponse, ApiError>)
        requires
            old(self).wf(),
        ensures
            final(self).wf(),
            final(self).users() == old(self).users(),
            r is Ok <==> owned_unrevoked(old(self).sessions(), auth.user_id, auth.session_token_id),
            r is Ok ==> r->Ok_0.data.ok && final(self).sessions() == old(self).sessions().update(
                session_at(old(self).sessions(), auth.session_token_id),
                SessionTokenRow {
                    revoked_at: Some(now),
                    ..old(self).sessions()[session_at(old(self).sessions(), auth.session_token_id)]
                },
            ),
            r is Err ==> r->Err_0 is SessionExpired && final(self).sessions() == old(self).sessions(),
    {
        if self.revoke_owned(auth.user_id, auth.session_token_id, now) {
            Ok(OkResponse { data: OkData { ok: true } })
        } else {
            Err(ApiError::session_expired())
        }
    }

    /// Ends one of the caller's own sessions; ownership is required whatever the role.
    pub fn revoke_session(&mut self, auth: &AuthContext, session_token_id: u128, now: i64) -> (r:
        Result<RevokeOneResponse, ApiError>)
        requires
            old(self).wf(),
        ensures
            final(self).wf(),
            final(self).users() == old(self).users(),
            r is Ok <==> owned_unrevoked(old(self).sessions(), auth.user_id, session_token_id),
            r is Ok ==> r->Ok_0.data.ok && r->Ok_0.data.revoked_session_token_id == session_token_id
                && final(self).sessions() == old(self).sessions().update(
                session_at(old(self).sessions(), session_token_id),
                SessionTokenRow {
                    revoked_at: Some(now),
                    ..old(self).sessions()[session_at(old(self).sessions(), session_token_id)]
                },
            ),
            r is Err ==> r->Err_0 is NotFound && final(self).sessions() == old(self).sessions(),
    {
        if self.revoke_owned(auth.user_id, session_token_id, now) {
            Ok(
                RevokeOneResponse {
                    data: RevokeOneData { ok: true, revoked_session_token_id: session_token_id },
                },
            )
        } else {
            Err(ApiError::NotFound("session not found, already revoked, or not yours"))
        }
    }

    /// Ends every live session of the caller except the current one.
    pub fn logout_all_except_current(&mut self, auth: &AuthContext, now: i64) -> (r:
        RevokeAllResponse)
        requires
            old(self).wf(),
        ensures
            final(self).wf(),
            final(self).users() == old(self).users(),
            final(self).sessions().len() == old(self).sessions().len(),
            forall|k: int|
                0 <= k < old(self).sessions().len() ==> #[trigger] final(self).sessions()[k]
                    == after_revocation(
                    old(self).sessions()[k],
                    auth.user_id,
                    Some(auth.session_token_id),
                    false,
                    now,
                ),
            r.data.ok,
            r.data.revoked_count == count_revocable(
                old(self).sessions(),
                auth.user_id,
                Some(auth.session_token_id),
                false,
                now as int,
            ),
    {
        let n = self.revoke_matching(auth.user_id, Some(auth.session_token_id), false, now);
        RevokeAllResponse { data: RevokeAllData { ok: true, revoked_count: n } }
    }

    /// Ends every live session of the caller, the current one included.
    pub fn revoke_all_sessions(&mut self, auth: &AuthContext, now: i64) -> (r: RevokeAllResponse)
        requires
            old(self).wf(),
        ensures
            final(self).wf(),
            final(self).users() == old(self).users(),
            final(self).sessions().len() == old(self).sessions().len(),
            forall|k: int|
                0 <= k < old(self).sessions().len() ==> #[trigger] final(self).sessions()[k]
                    == after_revocation(old(self).sessions()[k], auth.user_id, None, false, now),
            r.data.ok,
            r.data.revoked_count == count_revocable(
                old(self).sessions(),
                auth.user_id,
                None,
                false,
                now as int,
            ),
    {
        let n = self.revoke_matching(auth.user_id, None, false, now);
        RevokeAllResponse { data: RevokeAllData { ok: true, revoked_count: n } }
    }

    /// Staff login on the user portal.
    pub fn login(&mut self, req: &LoginRequest, now: i64) -> (r: Result<LoginResponse, ApiError>)
        requires
            old(self).wf(),
        ensures
            final(self).wf(),
            final(self).users() == old(self).users(),
            r is Err ==> final(self).sessions() == old(self).sessions(),
            login_outcome(
                old(self).users(),
                old(self).sessions(),
                old(self).ttl_hours(),
                *req,
                SESSION_TYPE_USER_PORTAL,
                None,
                now,
                r,
            ),
            r is Ok ==> login_refusal(
                old(self).users(),
                req.username@,
                req.password@,
                SESSION_TYPE_USER_PORTAL,
                None,
            ) is None && login_opened(
                old(self).users(),
                old(self).sessions(),
                final(self).sessions(),
                old(self).ttl_hours(),
                old(self).clinic(),
                *req,
                SESSION_TYPE_USER_PORTAL,
                now,
                r->Ok_0.data,
            ),
    {
        self.login_with_type(req, SESSION_TYPE_USER_PORTAL, None, now)
    }

    /// Patient-portal login: admits patient accounts only.
    pub fn patient_login(&mut self, req: &LoginRequest, now: i64) -> (r: Result<LoginResponse, ApiError>)
        requires
            old(self).wf(),
        ensures
            final(self).wf(),
            final(self).users() == old(self).users(),
            r is Err ==> final(self).sessions() == old(self).sessions(),
            login_outcome(
                old(self).users(),
                old(self).sessions(),
                old(self).ttl_hours(),
                *req,
                SESSION_TYPE_PATIENT_WEB,
                Some(0),
                now,
                r,
            ),
            r is Ok ==> login_refusal(
                old(self).users(),
                req.username@,
                req.password@,
                SESSION_TYPE_PATIENT_WEB,
                Some(0),
            ) is None && login_opened(
                old(self).users(),
                old(self).sessions(),
                final(self).sessions(),
                old(self).ttl_hours(),
                old(self).clinic(),
                *req,
                SESSION_TYPE_PATIENT_WEB,
                now,
                r->Ok_0.data,
            ),
    {
        self.login_with_type(req, SESSION_TYPE_PATIENT_WEB, Some(0), now)
    }

    /// Replaces the secret of the caller's live session with `token`, in one
    /// step: from then on only `token` resolves to the session.
    pub fn rotate_token(&mut self, auth: &AuthContext, token: String, now: i64) -> (r: Result<
        RefreshResponse,
        ApiError,
    >)
        requires
            old(self).wf(),
        ensures
            final(self).wf(),
            final(self).users() == old(self).users(),
            r is Ok <==> live_owned(
                old(self).users(),
                old(self).sessions(),
                auth.user_id,
                auth.session_token_id,
                now as int,
            ) && !has_token_hash(old(self).sessions(), token_digest(token@)),
            r is Err ==> final(self).sessions() == old(self).sessions(),
            r is Err ==> (if live_owned(
                old(self).users(),
                old(self).sessions(),
                auth.user_id,
                auth.session_token_id,
                now as int,
            ) {
                r->Err_0 is Internal
            } else {
                r->Err_0 is SessionExpired
            }),
            r is Ok ==> {
                let i = session_at(old(self).sessions(), auth.session_token_id);
                let row = final(self).sessions()[i];
                &&& final(self).sessions() == old(self).sessions().update(i, row)
                &&& row == SessionTokenRow {
                    token_hash: row.token_hash,
                    last_seen_at: Some(now),
                    ..old(self).sessions()[i]
                }
                &&& row.token_hash@ == token_digest(token@)
                &&& r->Ok_0.data.ok
                &&& r->Ok_0.data.access_token == token
                &&& r->Ok_0.data.expires_at == row.expires_at
                &&& r->Ok_0.data.session_token_id == auth.session_token_id
            },
    {
        let i = match self.find_session_by_id(auth.session_token_id) {
            Some(i) => i,
            None => {
                return Err(ApiError::session_expired());
            },
        };
        let uid = self.sessions[i].user_id;
        if uid != auth.user_id || self.sessions[i].revoked_at.is_some() || now
            >= self.sessions[i].expires_at {
            return Err(ApiError::session_expired());
        }
        match self.find_user_by_id(uid) {
            Some(u) => {
                if !self.users[u].is_active {
                    return Err(ApiError::session_expired());
                }
            },
            None => {
                return Err(ApiError::session_expired());
            },
        }
        let hash = hash_access_token(token.as_str());
        if self.find_session_by_hash(&hash).is_some() {
            return Err(ApiError::Internal("session token collision"));
        }
        let ghost start = self.sessions@;
        let mut row = Self::copy_session_row(&self.sessions[i]);
        row.token_hash = hash;
        row.last_seen_at = Some(now);
        let expires_at = row.expires_at;
        self.set_session_row(i, row);
        proof {
            assert forall|a: int, b: int|
                0 <= a < self.sessions@.len() && 0 <= b < self.sessions@.len() && a != b
                    implies #[trigger] self.sessions@[a].token_hash@
                    != #[trigger] self.sessions@[b].token_hash@ by {
                if a == i {
                    assert(start[b].token_hash@ == self.sessions@[b].token_hash@);
                } else if b == i {
                    assert(start[a].token_hash@ == self.sessions@[a].token_hash@);
                } else {
                    assert(start[a] == self.sessions@[a] && start[b] == self.sessions@[b]);
                }
            }
            assert forall|a: int| 0 <= a < self.sessions@.len() implies
                #[trigger] self.sessions@[a].session_token_id == start[a].session_token_id by {}
        }
        Ok(
            RefreshResponse {
                data: RefreshData {
                    ok: true,
                    access_token: token,
                    expires_at,
                    session_token_id: auth.session_token_id,
                },
            },
        )
    }

    /// Rotates the secret of the caller's current session; the old secret stops
    /// resolving at once.
    pub fn refresh(&mut self, auth: &AuthContext, now: i64) -> (r: Result<RefreshResponse, ApiError>)
        requires
            old(self).wf(),
        ensures
            final(self).wf(),
            final(self).users() == old(self).users(),
            r is Err ==> final(self).sessions() == old(self).sessions(),
            !live_owned(
                old(self).users(),
                old(self).sessions(),
                auth.user_id,
                auth.session_token_id,
                now as int,
            ) ==> r is Err && r->Err_0 is SessionExpired,
            live_owned(
                old(self).users(),
                old(self).sessions(),
                auth.user_id,
                auth.session_token_id,
                now as int,
            ) && r is Err ==> r->Err_0 is Internal && some_token_digest_stored(old(self).sessions()),
            r is Ok ==> {
                let i = session_at(old(self).sessions(), auth.session_token_id);
                let row = final(self).sessions()[i];
                &&& live_owned(
                    old(self).users(),
                    old(self).sessions(),
                    auth.user_id,
                    auth.session_token_id,
                    now as int,
                )
                &&& final(self).sessions() == old(self).sessions().update(i, row)
                &&& row == SessionTokenRow {
                    token_hash: row.token_hash,
                    last_seen_at: Some(now),
                    ..old(self).sessions()[i]
                }
                &&& row.token_hash@ == token_digest(r->Ok_0.data.access_token@)
                &&& !has_token_hash(old(self).sessions(), row.token_hash@)
                &&& is_opaque_token(r->Ok_0.data.access_token@)
                &&& r->Ok_0.data.expires_at == row.expires_at
                &&& r->Ok_0.data.session_token_id == auth.session_token_id
                &&& r->Ok_0.data.ok
            },
    {
        let token = generate_access_token();
        let ghost t = token@;
        let r = self.rotate_token(auth, token, now);
        proof {
            if r is Err && live_owned(
                old(self).users(),
                old(self).sessions(),
                auth.user_id,
                auth.session_token_id,
                now as int,
            ) {
                assert(is_opaque_token(t) && has_token_hash(old(self).sessions(), token_digest(t)));
            }
        }
        r
    }

    /// Moves the expiry of a session forward: to the later of its expiry and now,
    /// plus the requested hours, but never past now plus the extension cap.
    pub fn extend_session(
        &mut self,
        auth: &AuthContext,
        session_token_id: u128,
        req: &ExtendSessionRequest,
        now: i64,
    ) -> (r: Result<ExtendSessionResponse, ApiError>)
        requires
            old(self).wf(),
        ensures
            final(self).wf(),
            final(self).users() == old(self).users(),
            r is Err ==> final(self).sessions() == old(self).sessions(),
            ({
                let h = requested_hours(req.extend_hours, auth.role, old(self).ttl_hours());
                let sessions = old(self).sessions();
                let i = session_at(sessions, session_token_id);
                &&& !(0 < h <= MAX_EXTEND_HOURS) ==> r is Err && r->Err_0 is ValidationError
                &&& 0 < h <= MAX_EXTEND_HOURS && !extendable_by(sessions, *auth, session_token_id)
                    ==> r is Err && r->Err_0 is NotFound
                &&& 0 < h <= MAX_EXTEND_HOURS && extendable_by(sessions, *auth, session_token_id)
                    ==> (r is Ok <==> fits_i64(
                    extended_expiry(sessions[i].expires_at as int, now as int, h as int),
                ))
                &&& r is Err && 0 < h <= MAX_EXTEND_HOURS && extendable_by(sessions, *auth, session_token_id)
                    ==> r->Err_0 is Internal
                &&& r is Ok ==> {
                    &&& 0 < h <= MAX_EXTEND_HOURS
                    &&& extendable_by(sessions, *auth, session_token_id)
                    &&& r->Ok_0.data.ok
                    &&& r->Ok_0.data.session_token_id == session_token_id
                    &&& r->Ok_0.data.expires_at == extended_expiry(
                        sessions[i].expires_at as int,
                        now as int,
                        h as int,
                    )
                    &&& final(self).sessions() == sessions.update(
                        i,
                        SessionTokenRow { expires_at: r->Ok_0.data.expires_at, ..sessions[i] },
                    )
                }
            }),
    {
        let requested = match req.extend_hours {
            Some(h) => h,
            None => if auth.role == 0 {
                DEFAULT_PATIENT_TTL_HOURS
            } else {
                self.session_ttl_hours
            },
        };
        if requested <= 0 {
            return Err(ApiError::ValidationError("extend_hours must be positive"));
        }
        if requested > MAX_EXTEND_HOURS {
            return Err(ApiError::ValidationError("extend_hours too large (max 720)"));
        }
        let i = match self.find_session_by_id(session_token_id) {
            Some(i) => i,
            None => {
                return Err(ApiError::NotFound("session not found, revoked, or not allowed"));
            },
        };
        if self.sessions[i].revoked_at.is_some() || (!is_privileged(auth.role)
            && self.sessions[i].user_id != auth.user_id) {
            return Err(ApiError::NotFound("session not found, revoked, or not allowed"));
        }
        let expires_at = match extend_expiry(self.sessions[i].expires_at, now, requested) {
            Some(t) => t,
            None => {
                return Err(ApiError::Internal("session expiry out of range"));
            },
        };
        let ghost start = self.sessions@;
        let mut row = Self::copy_session_row(&self.sessions[i]);
        row.expires_at = expires_at;
        self.set_session_row(i, row);
        proof {
            assert forall|a: int| 0 <= a < self.sessions@.len() implies
                #[trigger] self.sessions@[a].session_token_id == start[a].session_token_id
                && self.sessions@[a].token_hash == start[a].token_hash by {}
        }
        Ok(
            ExtendSessionResponse {
                data: ExtendSessionData { ok: true, session_token_id, expires_at },
            },
        )
    }

    /// Opens a short-lived session for `target_user_id` on an admin's authority,
    /// recording both parties. Later requests with its token act as the target.
    pub fn impersonate(&mut self, auth: &AuthContext, target_user_id: u128, now: i64) -> (r: Result<
        ImpersonateResponse,
        ApiError,
    >)
        requires
            old(self).wf(),
        ensures
            final(self).wf(),
            final(self).users() == old(self).users(),
            r is Err ==> final(self).sessions() == old(self).sessions(),
            auth.role != ROLE_ADMIN ==> r is Err && r->Err_0 is Forbidden,
            auth.role == ROLE_ADMIN && !account_active(old(self).users(), target_user_id) ==> r is Err
                && r->Err_0 is NotFound,
            auth.role == ROLE_ADMIN && account_active(old(self).users(), target_user_id) && r is Err
                ==> r->Err_0 is Internal && (!fits_i64(
                hours_after(now as int, IMPERSONATION_TTL_HOURS as int),
            ) || collision_possible(old(self).sessions())),
            auth.role == ROLE_ADMIN && account_active(old(self).users(), target_user_id) && !fits_i64(
                hours_after(now as int, IMPERSONATION_TTL_HOURS as int),
            ) ==> r is Err,
            r is Ok ==> {
                let users = old(self).users();
                let u = user_at(users, target_user_id);
                let data = r->Ok_0.data;
                &&& auth.role == ROLE_ADMIN
                &&& account_active(users, target_user_id)
                &&& is_opaque_token(data.access_token@)
                &&& data.expires_at == hours_after(now as int, IMPERSONATION_TTL_HOURS as int)
                &&& data.dcms_user.user_id == target_user_id
                &&& data.dcms_user.username@ == users[u].username@
                &&& data.dcms_user.roles@.len() == 1
                &&& data.dcms_user.roles@[0]@ == role_name(users[u].roles)
                &&& data.expires_at > now
                &&& final(self).sessions().len() == old(self).sessions().len() + 1
                &&& final(self).sessions().drop_last() == old(self).sessions()
                &&& !has_session(old(self).sessions(), final(self).sessions().last().session_token_id)
                &&& final(self).sessions().last().token_hash@.len() == DIGEST_CHARS
                &&& opened_row(
                    final(self).sessions().last(),
                    target_user_id,
                    token_digest(data.access_token@),
                    SESSION_TYPE_USER_PORTAL,
                    now,
                    data.expires_at,
                    Some(auth.user_id),
                )
                &&& final(self).sessions().last().device_name is Some
                &&& final(self).sessions().last().device_name->Some_0@ == "impersonation"@
            },
    {
        match ensure_admin(auth.role) {
            Ok(()) => {},
            Err(e) => {
                return Err(e);
            },
        }
        let u = match self.find_user_by_id(target_user_id) {
            Some(u) => u,
            None => {
                return Err(ApiError::NotFound("target user not found"));
            },
        };
        if !self.users[u].is_active {
            return Err(ApiError::NotFound("target user is disabled"));
        }
        let expires_at = match expiry_after(now, IMPERSONATION_TTL_HOURS) {
            Some(t) => t,
            None => {
                return Err(ApiError::Internal("session expiry out of range"));
            },
        };
        let profile = UserProfile {
            user_id: target_user_id,
            username: self.users[u].username.clone(),
            display_name: self.users[u].display_name.clone(),
            roles: vec![role_to_string(self.users[u].roles)],
        };
        let access_token = generate_access_token();
        match self.open_session(
            random_id(),
            target_user_id,
            access_token.as_str(),
            SESSION_TYPE_USER_PORTAL,
            Some(String::from_str("impersonation")),
            expires_at,
            Some(auth.user_id),
            now,
        ) {
            Ok(_) => {},
            Err(e) => {
                return Err(e);
            },
        }
        Ok(
            ImpersonateResponse {
                data: ImpersonateData {
                    access_token,
                    expires_at,
                    dcms_user: profile,
                    clinic: ClinicProfile { clinic_name: self.clinic_name.clone() },
                },
            },
        )
    }

    /// The caller's profile and current session, if both are still valid.
    pub fn me(&self, auth: &AuthContext, now: i64) -> (r: Result<MeResponse, ApiError>)
        requires
            self.wf(),
        ensures
            r is Ok <==> live_owned(
                self.users(),
                self.sessions(),
                auth.user_id,
                auth.session_token_id,
                now as int,
            ),
            r is Err ==> r->Err_0 is SessionExpired,
            r is Ok ==> {
                let u = self.users()[user_at(self.users(), auth.user_id)];
                let s = self.sessions()[session_at(self.sessions(), auth.session_token_id)];
                let data = r->Ok_0.data;
                &&& data.dcms_user.user_id == u.user_id
                &&& data.dcms_user.username@ == u.username@
                &&& data.dcms_user.display_name@ == u.display_name@
                &&& data.dcms_user.roles@.len() == 1
                &&& data.dcms_user.roles@[0]@ == role_name(u.roles)
                &&& data.clinic.clinic_name@ == self.clinic()
                &&& data.session.session_token_id == auth.session_token_id
                &&& data.session.expires_at == s.expires_at
            },
    {
        let u = match self.find_user_by_id(auth.user_id) {
            Some(u) => u,
            None => {
                return Err(ApiError::session_expired());
            },
        };
        if !self.users[u].is_active {
            return Err(ApiError::session_expired());
        }
        let i = match self.find_session_by_id(auth.session_token_id) {
            Some(i) => i,
            None => {
                return Err(ApiError::session_expired());
            },
        };
        if self.sessions[i].user_id != auth.user_id || self.sessions[i].revoked_at.is_some() || now
            >= self.sessions[i].expires_at {
            return Err(ApiError::session_expired());
        }
        Ok(
            MeResponse {
                data: MeResponseData {
                    dcms_user: UserProfile {
                        user_id: self.users[u].user_id,
                        username: self.users[u].username.clone(),
                        display_name: self.users[u].display_name.clone(),
                        roles: vec![role_to_string(self.users[u].roles)],
                    },
                    clinic: ClinicProfile { clinic_name: self.clinic_name.clone() },
                    session: SessionInfo {
                        session_token_id: auth.session_token_id,
                        expires_at: self.sessions[i].expires_at,
                    },
                    message: String::from_str("login success"),
                },
            },
        )
    }

    /// One session by id: any session for admins and managers, otherwise only
    /// the caller's own.
    pub fn get_session(&self, auth: &AuthContext, session_token_id: u128) -> (r: Result<
        GetSessionResponse,
        ApiError,
    >)
        requires
            self.wf(),
        ensures
            r is Ok <==> has_session(self.sessions(), session_token_id) && (privileged(auth.role)
                || self.sessions()[session_at(self.sessions(), session_token_id)].user_id
                == auth.user_id),
            r is Err ==> r->Err_0 is NotFound,
            r is Ok ==> r->Ok_0.data.session == detail_of(
                self.sessions()[session_at(self.sessions(), session_token_id)],
            ),
    {
        let i = match self.find_session_by_id(session_token_id) {
            Some(i) => i,
            None => {
                return Err(ApiError::NotFound("session not found"));
            },
        };
        let row = &self.sessions[i];
        if !is_privileged(auth.role) && row.user_id != auth.user_id {
            return Err(ApiError::NotFound("session not found"));
        }
        let session = SessionDetail {
            session_token_id: row.session_token_id,
            user_id: row.user_id,
            session_type: row.session_type,
            device_name: match &row.device_name {
                Some(d) => Some(d.clone()),
                None => None,
            },
            expires_at: row.expires_at,
            created_at: row.created_at,
            last_seen_at: row.last_seen_at,
            revoked_at: row.revoked_at,
        };
        Ok(GetSessionResponse { data: GetSessionData { session } })
    }

    /// The caller's live sessions, in table order.
    fn live_sessions_of(&self, user_id: u128, now: i64) -> (r: Vec<SessionListItem>)
        requires
            self.wf(),
        ensures
            r@ == live_items(self.sessions(), self.users(), user_id, now as int),
    {
        let active = match self.find_user_by_id(user_id) {
            Some(u) => self.users[u].is_active,
            None => false,
        };
        let mut out: Vec<SessionListItem> = Vec::new();
        let mut i: usize = 0;
        while i < self.sessions.len()
            invariant
                self.wf(),
                i <= self.sessions@.len(),
                active == account_active(self.users@, user_id),
                out@ == live_items(self.sessions@.subrange(0, i as int), self.users@, user_id, now as int),
            decreases self.sessions@.len() - i,
        {
            let row = &self.sessions[i];
            if row.user_id == user_id && active && row.revoked_at.is_none() && now < row.expires_at {
                out.push(
                    SessionListItem {
                        session_token_id: row.session_token_id,
                        session_type: row.session_type,
                        device_name: match &row.device_name {
                            Some(d) => Some(d.clone()),
                            None => None,
                        },
                        expires_at: row.expires_at,
                        last_seen_at: row.last_seen_at,
                        created_at: row.created_at,
                    },
                );
            }
            proof {
                assert(self.sessions@.subrange(0, i + 1).drop_last() =~= self.sessions@.subrange(
                    0,
                    i as int,
                ));
            }
            i = i + 1;
        }
        proof {
            assert(self.sessions@.subrange(0, self.sessions@.len() as int) =~= self.sessions@);
        }
        out
    }

    fn seen_rank_of(t: Option<i64>) -> (r: i128)
        ensures
            r == seen_rank(t),
    {
        match t {
            Some(v) => v as i128,
            None => i64::MIN as i128 - 1,
        }
    }

    fn is_listed_before(a: &SessionListItem, b: &SessionListItem) -> (r: bool)
        ensures
            r == listed_before(*a, *b),
    {
        let ra = Self::seen_rank_of(a.last_seen_at);
        let rb = Self::seen_rank_of(b.last_seen_at);
        ra > rb || (ra == rb && a.created_at >= b.created_at)
    }

    /// Orders a listing most recent first; items that tie keep their order.
    pub fn sort_by_recency(items: Vec<SessionListItem>) -> (r: Vec<SessionListItem>)
        ensures
            by_recency(r@),
            r@.to_multiset() == items@.to_multiset(),
    {
        broadcast use vstd::seq_lib::group_to_multiset_ensures;

        let mut out: Vec<SessionListItem> = Vec::new();
        let mut rest = items;
        let ghost all = rest@;
        while rest.len() > 0
            invariant
                by_recency(out@),
                out@.to_multiset().add(rest@.to_multiset()) == all.to_multiset(),
            decreases rest@.len(),
        {
            let ghost rest_before = rest@;
            let x = rest.remove(0);
            proof {
                rest_before.to_multiset_ensures();
                assert(rest@ == rest_before.remove(0));
            }
            let mut p: usize = 0;
            while p < out.len() && Self::is_listed_before(&out[p], &x)
                invariant
                    p <= out@.len(),
                    by_recency(out@),
                    forall|k: int| 0 <= k < p ==> listed_before(#[trigger] out@[k], x),
                decreases out@.len() - p,
            {
                p = p + 1;
            }
            let ghost before = out@;
            out.insert(p, x);
            proof {
                assert(out@ == before.insert(p as int, x));
                assert(out@.remove(p as int) =~= before);
                assert(out@[p as int] == x);
                assert(out@.to_multiset() =~= before.to_multiset().insert(x)) by {
                    out@.to_multiset_ensures();
                    assert(out@.remove(p as int).to_multiset() =~= out@.to_multiset().remove(x));
                    assert(out@.contains(x));
                    assert(out@.to_multiset().count(x) > 0);
                }
                assert forall|a: int, b: int| 0 <= a < b < out@.len() implies listed_before(
                    #[trigger] out@[a],
                    #[trigger] out@[b],
                ) by {
                    if b < p {
                        assert(out@[a] == before[a] && out@[b] == before[b]);
                    } else if b == p {
                        assert(out@[a] == before[a]);
                    } else if a == p {
                        assert(out@[b] == before[b - 1]);
                        if p < before.len() {
                            assert(!listed_before(before[p as int], x));
                            if b - 1 > p {
                                assert(listed_before(before[p as int], before[b - 1]));
                            }
                        }
                    } else if a < p {
                        assert(out@[a] == before[a] && out@[b] == before[b - 1]);
                        if p < before.len() {
                            assert(listed_before(before[a], x));
                        }
                    } else {
                        assert(out@[a] == before[a - 1] && out@[b] == before[b - 1]);
                    }
                }
            }
        }
        out
    }

    /// The caller's live sessions, most recently seen first (never-seen last),
    /// then most recently created.
    pub fn list_sessions(&self, auth: &AuthContext, now: i64) -> (r: ListSessionsResponse)
        requires
            self.wf(),
        ensures
            by_recency(r.data.sessions@),
            r.data.sessions@.to_multiset() == live_items(
                self.sessions(),
                self.users(),
                auth.user_id,
                now as int,
            ).to_multiset(),
            r.data.current_session_token_id == auth.session_token_id,
    {
        let items = self.live_sessions_of(auth.user_id, now);
        let sessions = Self::sort_by_recency(items);
        ListSessionsResponse {
            data: ListSessionsData { sessions, current_session_token_id: auth.session_token_id },
        }
    }
}

} // verus!
