use vstd::prelude::*;

use crate::credentials::{password_matches, token_digest};
use crate::error::ErrorKind;
use crate::model::{
    extended_expiry, hours_after, known_session_type, AuthContext, SessionTokenRow, UserRow,
    MAX_EXTEND_HOURS,
};
use crate::store::sessions::login_refusal;
use crate::store::{
    account_active, after_revocation, has_token_hash, has_username, lemma_user_at, live_owned,
    opened_row, owned_unrevoked, principal_of, resolvable, resolves_at, session_at, session_live,
    tables_wf, user_at, username_at,
};
use crate::validation::trimmed;

verus! {

/// A session created under the digest of `token` is the only session that
/// holds that digest, so the token resolves to it and to nothing else.
pub proof fn law_issued_token_is_unique(
    users: Seq<UserRow>,
    sessions: Seq<SessionTokenRow>,
    token: Seq<char>,
    now: int,
)
    requires
        tables_wf(users, sessions),
        sessions.len() > 0,
        sessions.last().token_hash@ == token_digest(token),
    ensures
        forall|i: int|
            0 <= i < sessions.len() - 1 ==> #[trigger] sessions[i].token_hash@ != token_digest(token),
        forall|i: int| resolves_at(users, sessions, token_digest(token), now, i) ==> i == sessions.len() - 1,
{
    let n = sessions.len() - 1;
    assert forall|i: int| 0 <= i < sessions.len() - 1 implies #[trigger] sessions[i].token_hash@
        != token_digest(token) by {
        assert(sessions[i].token_hash@ != sessions[n].token_hash@);
    }
}

/// After a refresh of the session that `old_token` resolved to, `old_token`
/// resolves to nothing at any time, and `new_token` resolves to that session.
pub proof fn law_refresh_replaces_token(
    users: Seq<UserRow>,
    s0: Seq<SessionTokenRow>,
    s1: Seq<SessionTokenRow>,
    auth: AuthContext,
    old_token: Seq<char>,
    new_token: Seq<char>,
    now: i64,
    t: int,
)
    requires
        tables_wf(users, s0),
        live_owned(users, s0, auth.user_id, auth.session_token_id, now as int),
        s0[session_at(s0, auth.session_token_id)].token_hash@ == token_digest(old_token),
        !has_token_hash(s0, token_digest(new_token)),
        ({
            let i = session_at(s0, auth.session_token_id);
            let row = s1[i];
            &&& s1 == s0.update(i, row)
            &&& row == SessionTokenRow { token_hash: row.token_hash, last_seen_at: Some(now), ..s0[i] }
            &&& row.token_hash@ == token_digest(new_token)
        }),
    ensures
        !resolvable(users, s1, token_digest(old_token), t),
        resolves_at(users, s1, token_digest(new_token), now as int, session_at(s0, auth.session_token_id)),
{
    let i = session_at(s0, auth.session_token_id);
    assert forall|k: int| !resolves_at(users, s1, token_digest(old_token), t, k) by {
        if 0 <= k < s1.len() && k != i {
            assert(s1[k] == s0[k]);
            assert(s0[k].token_hash@ != s0[i].token_hash@);
        }
        if k == i {
            assert(s0[i].token_hash@ == token_digest(old_token));
            assert(!has_token_hash(s0, token_digest(new_token)));
        }
    }
}

/// An extension never sets an expiry past now plus the extension cap, and
/// always one in the future.
pub proof fn law_extend_is_capped(current: int, now: int, hours: int)
    requires
        0 < hours <= MAX_EXTEND_HOURS,
    ensures
        extended_expiry(current, now, hours) <= hours_after(now, MAX_EXTEND_HOURS as int),
        extended_expiry(current, now, hours) > now,
{
}

/// An extension never moves an expiry backwards, for any expiry within the
/// cap (a longer one is brought down to the cap).
pub proof fn law_extend_never_shortens(current: int, now: int, hours: int)
    requires
        0 < hours <= MAX_EXTEND_HOURS,
        current <= hours_after(now, MAX_EXTEND_HOURS as int),
    ensures
        extended_expiry(current, now, hours) >= current,
{
}

/// Revoking one session ends it for good, and leaves the resolution of every
/// other session as it was.
pub proof fn law_revoke_one_is_targeted(
    users: Seq<UserRow>,
    s0: Seq<SessionTokenRow>,
    s1: Seq<SessionTokenRow>,
    user_id: u128,
    id: u128,
    now: i64,
    hash: Seq<char>,
    t: int,
    j: int,
)
    requires
        tables_wf(users, s0),
        owned_unrevoked(s0, user_id, id),
        s1 == s0.update(
            session_at(s0, id),
            SessionTokenRow { revoked_at: Some(now), ..s0[session_at(s0, id)] },
        ),
    ensures
        !resolvable(users, s1, s0[session_at(s0, id)].token_hash@, t),
        j != session_at(s0, id) ==> (resolves_at(users, s1, hash, t, j) <==> resolves_at(
            users,
            s0,
            hash,
            t,
            j,
        )),
{
    let i = session_at(s0, id);
    assert forall|k: int| !resolves_at(users, s1, s0[i].token_hash@, t, k) by {
        if 0 <= k < s1.len() && k != i {
            assert(s1[k] == s0[k]);
            assert(s0[k].token_hash@ != s0[i].token_hash@);
        }
    }
    if 0 <= j < s0.len() && j != i {
        assert(s1[j] == s0[j]);
    }
}

/// A change of the password hash alone keeps every account's standing.
proof fn lemma_same_standing(
    u0: Seq<UserRow>,
    u1: Seq<UserRow>,
    sessions: Seq<SessionTokenRow>,
    u: int,
    id: u128,
)
    requires
        tables_wf(u0, sessions),
        0 <= u < u0.len(),
        u1 == u0.update(u, UserRow { password_hash: u1[u].password_hash, ..u0[u] }),
    ensures
        account_active(u1, id) == account_active(u0, id),
{
    assert(tables_wf(u1, sessions)) by {
        assert forall|a: int| 0 <= a < u1.len() implies #[trigger] u1[a].user_id == u0[a].user_id
            && u1[a].username == u0[a].username && u1[a].is_active == u0[a].is_active by {}
    }
    if account_active(u0, id) {
        let k = user_at(u0, id);
        lemma_user_at(u0, sessions, k);
        lemma_user_at(u1, sessions, k);
    }
    if account_active(u1, id) {
        let k = user_at(u1, id);
        lemma_user_at(u1, sessions, k);
        lemma_user_at(u0, sessions, k);
    }
}

/// After a password change, the caller's current session stays live and every
/// other session of the account that was live is ended for good.
pub proof fn law_change_password_keeps_only_current(
    u0: Seq<UserRow>,
    u1: Seq<UserRow>,
    s0: Seq<SessionTokenRow>,
    s1: Seq<SessionTokenRow>,
    auth: AuthContext,
    now: i64,
    t: int,
    k: int,
)
    requires
        tables_wf(u0, s0),
        account_active(u0, auth.user_id),
        u1 == u0.update(
            user_at(u0, auth.user_id),
            UserRow {
                password_hash: u1[user_at(u0, auth.user_id)].password_hash,
                ..u0[user_at(u0, auth.user_id)]
            },
        ),
        s1.len() == s0.len(),
        forall|a: int|
            0 <= a < s0.len() ==> #[trigger] s1[a] == after_revocation(
                s0[a],
                auth.user_id,
                Some(auth.session_token_id),
                false,
                now,
            ),
        0 <= k < s0.len(),
    ensures
        s0[k].session_token_id == auth.session_token_id && session_live(s0[k], u0, now as int)
            ==> session_live(s1[k], u1, now as int),
        s0[k].session_token_id != auth.session_token_id && s0[k].user_id == auth.user_id
            && session_live(s0[k], u0, now as int) ==> !session_live(s1[k], u1, t),
{
    lemma_same_standing(u0, u1, s0, user_at(u0, auth.user_id), s0[k].user_id);
    assert(s1[k] == after_revocation(s0[k], auth.user_id, Some(auth.session_token_id), false, now));
}

/// After a password reset, no session of the target account is live, at any time.
pub proof fn law_reset_ends_every_session(
    users: Seq<UserRow>,
    s0: Seq<SessionTokenRow>,
    s1: Seq<SessionTokenRow>,
    target: u128,
    now: i64,
    t: int,
    k: int,
)
    requires
        s1.len() == s0.len(),
        forall|a: int|
            0 <= a < s0.len() ==> #[trigger] s1[a] == after_revocation(s0[a], target, None, true, now),
        0 <= k < s1.len(),
        s1[k].user_id == target,
    ensures
        !session_live(s1[k], users, t),
{
    assert(s1[k] == after_revocation(s0[k], target, None, true, now));
}

/// The token of an impersonation session resolves, while it lasts, to a
/// principal whose user is the target, not the admin.
pub proof fn law_impersonation_acts_as_target(
    users: Seq<UserRow>,
    sessions: Seq<SessionTokenRow>,
    token: Seq<char>,
    target: u128,
    admin: u128,
    session_type: i16,
    now: i64,
    expires_at: i64,
)
    requires
        tables_wf(users, sessions),
        sessions.len() > 0,
        opened_row(
            sessions.last(),
            target,
            token_digest(token),
            session_type,
            now,
            expires_at,
            Some(admin),
        ),
        account_active(users, target),
        now < expires_at,
    ensures
        resolvable(users, sessions, token_digest(token), now as int),
        forall|i: int|
            resolves_at(users, sessions, token_digest(token), now as int, i) ==> #[trigger] principal_of(
                users,
                sessions,
                i,
            ).user_id == target,
{
    let n = sessions.len() - 1;
    assert(resolves_at(users, sessions, token_digest(token), now as int, n));
    law_issued_token_is_unique(users, sessions, token, now as int);
}

/// A wrong password for a usable account and an unknown username are refused
/// alike, with `InvalidCredentials`. A refused login leaves both tables as they
/// were, so the same attempt repeated is refused the same way, with no lockout.
pub proof fn law_wrong_password_is_invalid_credentials(
    users: Seq<UserRow>,
    username: Seq<char>,
    password: Seq<char>,
    session_type: i16,
    required_role: Option<i16>,
)
    requires
        trimmed(username).len() > 0,
        password.len() > 0,
        known_session_type(session_type),
        !has_username(users, trimmed(username)) || ({
            let u = users[username_at(users, trimmed(username))];
            &&& u.is_active
            &&& (required_role is None || u.roles == required_role->Some_0)
            &&& !password_matches(password, u.password_hash@)
        }),
    ensures
        login_refusal(users, username, password, session_type, required_role) == Some(
            ErrorKind::InvalidCredentials,
        ),
{
}

} // verus!
