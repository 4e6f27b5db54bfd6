//! Password change and administrative reset, each with the session
//! revocation that goes with it.

use vstd::prelude::*;

use crate::credentials::{
    MAX_PASSWORD_BYTES, TEMP_PASSWORD_CHARS, all_url_safe, generate_temp_password, hash_password,
    lemma_url_safe_text, password_matches, verify_password,
};
use crate::error::{ApiError, ErrorKind, kind_of};
use crate::model::{
    AuthContext, ChangePasswordRequest, ChangePasswordResponse, OkData, ResetPasswordData,
    ResetPasswordRequest, ResetPasswordResponse, UserRow,
};
use crate::roles::{ensure_admin_or_manager, privileged};
use crate::validation::{
    MIN_PASSWORD_LEN, byte_len, lemma_trimmed_idempotent, trim, trimmed, validate_new_password,
};
use super::{SessionManager, account_active, after_revocation, has_username, user_at, username_at};

verus! {

/// Why a password change is refused, checked in this order: a blank field, a
/// weak new password, a caller whose account is gone or disabled, a wrong
/// current password.
pub open spec fn change_password_refusal(
    users: Seq<UserRow>,
    user_id: u128,
    old_password: Seq<char>,
    new_password: Seq<char>,
) -> Option<ErrorKind> {
    if old_password.len() == 0 || new_password.len() == 0 {
        Some(ErrorKind::ValidationError)
    } else if byte_len(trimmed(new_password)) < MIN_PASSWORD_LEN {
        Some(ErrorKind::ValidationError)
    } else if !account_active(users, user_id) {
        Some(ErrorKind::SessionExpired)
    } else if !password_matches(old_password, users[user_at(users, user_id)].password_hash@) {
        Some(ErrorKind::InvalidCredentials)
    } else {
        None
    }
}

/// The password that a reset sets explicitly: the given one, trimmed, unless
/// it is absent or blank.
pub open spec fn explicit_password(new_password: Option<String>) -> Option<Seq<char>> {
    match new_password {
        Some(pw) => if trimmed(pw@).len() > 0 {
            Some(trimmed(pw@))
        } else {
            None
        },
        None => None,
    }
}

/// Why a password reset is refused before the target is looked up: a caller
/// who is neither admin nor manager, a blank username, a weak explicit password.
pub open spec fn reset_refusal(role: i16, username: Seq<char>, new_password: Option<String>) -> Option<
    ErrorKind,
> {
    if !privileged(role) {
        Some(ErrorKind::Forbidden)
    } else if trimmed(username).len() == 0 {
        Some(ErrorKind::ValidationError)
    } else if explicit_password(new_password) is Some && byte_len(
        explicit_password(new_password)->Some_0,
    ) < MIN_PASSWORD_LEN {
        Some(ErrorKind::ValidationError)
    } else {
        None
    }
}

impl SessionManager {
    /// Changes the caller's password after re-checking the current one, and in
    /// the same step ends every other live session of the account.
    pub fn change_password(&mut self, auth: &AuthContext, req: &ChangePasswordRequest, now: i64) -> (r:
        Result<ChangePasswordResponse, ApiError>)
        requires
            old(self).wf(),
        ensures
            final(self).wf(),
            r is Err ==> final(self).users() == old(self).users() && final(self).sessions()
                == old(self).sessions(),
            ({
                let refusal = change_password_refusal(
                    old(self).users(),
                    auth.user_id,
                    req.old_password@,
                    req.new_password@,
                );
                &&& refusal is Some ==> r is Err && kind_of(r->Err_0) == refusal->Some_0
                &&& refusal is None && r is Err ==> r->Err_0 is Internal && byte_len(
                    req.new_password@,
                ) > MAX_PASSWORD_BYTES
            }),
            r is Ok ==> {
                let users = old(self).users();
                let u = user_at(users, auth.user_id);
                let row = final(self).users()[u];
                &&& change_password_refusal(
                    users,
                    auth.user_id,
                    req.old_password@,
                    req.new_password@,
                ) is None
                &&& r->Ok_0.data.ok
                &&& final(self).users() == users.update(u, row)
                &&& row == UserRow { password_hash: row.password_hash, ..users[u] }
                &&& password_matches(req.new_password@, row.password_hash@)
                &&& final(self).sessions().len() == old(self).sessions().len()
                &&& forall|k: int|
                    0 <= k < old(self).sessions().len() ==> #[trigger] final(self).sessions()[k]
                        == after_revocation(
                        old(self).sessions()[k],
                        auth.user_id,
                        Some(auth.session_token_id),
                        false,
                        now,
                    )
            },
    {
        if req.old_password.as_str().is_empty() || req.new_password.as_str().is_empty() {
            return Err(ApiError::ValidationError("old_password and new_password are required"));
        }
        match validate_new_password(req.new_password.as_str()) {
            Ok(()) => {},
            Err(e) => {
                return Err(e);
            },
        }
        let u = match self.find_user_by_id(auth.user_id) {
            Some(u) => u,
            None => {
                return Err(ApiError::session_expired());
            },
        };
        if !self.users[u].is_active {
            return Err(ApiError::session_expired());
        }
        if !verify_password(req.old_password.as_str(), self.users[u].password_hash.as_str()) {
            return Err(ApiError::invalid_credentials());
        }
        let new_hash = match hash_password(req.new_password.as_str()) {
            Ok(h) => h,
            Err(_) => {
                return Err(ApiError::Internal("password hashing failed"));
            },
        };
        self.store_password_hash(u, new_hash);
        self.revoke_matching(auth.user_id, Some(auth.session_token_id), false, now);
        Ok(ChangePasswordResponse { data: OkData { ok: true } })
    }

    /// An admin or manager sets a new password for the account `username`, or
    /// a generated temporary one that is returned once, and in the same step
    /// ends every session of that account.
    pub fn reset_password(&mut self, auth: &AuthContext, req: &ResetPasswordRequest, now: i64) -> (r:
        Result<ResetPasswordResponse, ApiError>)
        requires
            old(self).wf(),
        ensures
            final(self).wf(),
            r is Err ==> final(self).users() == old(self).users() && final(self).sessions()
                == old(self).sessions(),
            ({
                let refusal = reset_refusal(auth.role, req.username@, req.new_password);
                let found = has_username(old(self).users(), trimmed(req.username@));
                &&& refusal is Some ==> r is Err && kind_of(r->Err_0) == refusal->Some_0
                &&& refusal is None && !found ==> r is Err && r->Err_0 is NotFound
                &&& refusal is None && found && r is Err ==> r->Err_0 is Internal
                    && explicit_password(req.new_password) is Some && byte_len(
                    explicit_password(req.new_password)->Some_0,
                ) > MAX_PASSWORD_BYTES
            }),
            r is Ok ==> {
                let users = old(self).users();
                let u = username_at(users, trimmed(req.username@));
                let row = final(self).users()[u];
                let data = r->Ok_0.data;
                &&& reset_refusal(auth.role, req.username@, req.new_password) is None
                &&& has_username(users, trimmed(req.username@))
                &&& data.ok
                &&& data.user_id == users[u].user_id
                &&& data.username@ == users[u].username@
                &&& final(self).users() == users.update(u, row)
                &&& row == UserRow { password_hash: row.password_hash, ..users[u] }
                &&& match explicit_password(req.new_password) {
                    Some(p) => data.temporary_password is None && password_matches(
                        p,
                        row.password_hash@,
                    ),
                    None => data.temporary_password is Some && all_url_safe(
                        data.temporary_password->Some_0@,
                    ) && data.temporary_password->Some_0@.len() == TEMP_PASSWORD_CHARS
                        && password_matches(data.temporary_password->Some_0@, row.password_hash@),
                }
                &&& final(self).sessions().len() == old(self).sessions().len()
                &&& forall|k: int|
                    0 <= k < old(self).sessions().len() ==> #[trigger] final(self).sessions()[k]
                        == after_revocation(old(self).sessions()[k], users[u].user_id, None, true, now)
            },
    {
        match ensure_admin_or_manager(auth.role) {
            Ok(()) => {},
            Err(e) => {
                return Err(e);
            },
        }
        let username = trim(req.username.as_str());
        if username.is_empty() {
            return Err(ApiError::ValidationError("username is required"));
        }
        let explicit: Option<&str> = match &req.new_password {
            Some(pw) => {
                let t = trim(pw.as_str());
                if t.is_empty() {
                    None
                } else {
                    Some(t)
                }
            },
            None => None,
        };
        proof {
            if req.new_password is Some {
                lemma_trimmed_idempotent(req.new_password->Some_0@);
            }
        }
        let (new_pw, return_pw) = match explicit {
            Some(t) => {
                match validate_new_password(t) {
                    Ok(()) => {},
                    Err(e) => {
                        return Err(e);
                    },
                }
                (String::from_str(t), None)
            },
            None => {
                let temp = generate_temp_password();
                proof {
                    lemma_url_safe_text(temp@);
                }
                match validate_new_password(temp.as_str()) {
                    Ok(()) => {},
                    Err(e) => {
                        return Err(e);
                    },
                }
                (temp.clone(), Some(temp))
            },
        };
        let name = String::from_str(username);
        let u = match self.find_user_by_name(&name) {
            Some(u) => u,
            None => {
                return Err(ApiError::NotFound("user not found"));
            },
        };
        let new_hash = match hash_password(new_pw.as_str()) {
            Ok(h) => h,
            Err(_) => {
                return Err(ApiError::Internal("password hashing failed"));
            },
        };
        let user_id = self.users[u].user_id;
        let target_name = self.users[u].username.clone();
        self.store_password_hash(u, new_hash);
        self.revoke_matching(user_id, None, true, now);
        Ok(
            ResetPasswordResponse {
                data: ResetPasswordData {
                    ok: true,
                    user_id,
                    username: target_name,
                    temporary_password: return_pw,
                },
            },
        )
    }
}

} // verus!
