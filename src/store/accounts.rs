//! Provisioning and administration of accounts.

use vstd::prelude::*;

use crate::credentials::{MAX_PASSWORD_BYTES, hash_password, password_matches};
use crate::error::{ApiError, ErrorKind, kind_of};
use crate::model::{
    AuthContext, CreateUserRequest, CreateUserResponse, OkData, OkResponse, UpdateUserRequest,
    UpdateUserResponse, UserGetResponse, UserPublicRow, UserRow, UsersListData, UsersListResponse,
};
use crate::roles::{ensure_admin, ensure_admin_or_manager, ROLE_ADMIN, privileged, valid_role, validate_role};
use crate::validation::{
    MIN_PASSWORD_LEN, MIN_USERNAME_LEN, byte_len, trim, trimmed, validate_display_name,
    validate_password, validate_username,
};
use super::{random_id, SessionManager, has_user, has_username, public_row_of, user_at};

verus! {

/// Most accounts that one listing returns.
pub const MAX_LISTED_USERS: usize = 200;

/// The public rows of the newest `count` accounts of `users`, newest first.
pub open spec fn newest_rows(users: Seq<UserRow>, count: int) -> Seq<UserPublicRow> {
    Seq::new(count as nat, |k: int| public_row_of(users[users.len() - 1 - k]))
}

/// Why creating an account is refused before anything is stored, checked in
/// this order: a caller who is not an admin, a short username, a
/// blank display name, a weak password, a role outside the enumeration.
pub open spec fn create_user_refusal(role: i16, req: CreateUserRequest) -> Option<ErrorKind> {
    if role != ROLE_ADMIN {
        Some(ErrorKind::Forbidden)
    } else if byte_len(trimmed(req.username@)) < MIN_USERNAME_LEN {
        Some(ErrorKind::ValidationError)
    } else if trimmed(req.display_name@).len() == 0 {
        Some(ErrorKind::ValidationError)
    } else if byte_len(trimmed(req.password@)) < MIN_PASSWORD_LEN {
        Some(ErrorKind::ValidationError)
    } else if !valid_role(req.roles) {
        Some(ErrorKind::ValidationError)
    } else {
        None
    }
}

impl SessionManager {
    /// Admin-only provisioning of an account, with a hashed password.
    pub fn create_user(&mut self, auth: &AuthContext, req: &CreateUserRequest, now: i64) -> (r:
        Result<CreateUserResponse, ApiError>)
        requires
            old(self).wf(),
        ensures
            final(self).wf(),
            final(self).sessions() == old(self).sessions(),
            r is Err ==> final(self).users() == old(self).users(),
            ({
                let refusal = create_user_refusal(auth.role, *req);
                let taken = has_username(old(self).users(), trimmed(req.username@));
                &&& refusal is Some ==> r is Err && kind_of(r->Err_0) == refusal->Some_0
                &&& refusal is None && taken ==> r is Err && r->Err_0 is ValidationError
                &&& refusal is None && !taken && r is Err ==> r->Err_0 is Internal && (byte_len(
                    trimmed(req.password@),
                ) > MAX_PASSWORD_BYTES || old(self).users().len() > 0)
            }),
            r is Ok ==> {
                let row = final(self).users().last();
                &&& create_user_refusal(auth.role, *req) is None
                &&& final(self).users().len() == old(self).users().len() + 1
                &&& final(self).users().drop_last() == old(self).users()
                &&& !has_user(old(self).users(), row.user_id)
                &&& row.username@ == trimmed(req.username@)
                &&& row.display_name@ == trimmed(req.display_name@)
                &&& password_matches(trimmed(req.password@), row.password_hash@)
                &&& row.roles == req.roles
                &&& row.is_active == (req.is_active != Some(false))
                &&& row.created_at == now
                &&& r->Ok_0.data == public_row_of(row)
            },
    {
        match ensure_admin(auth.role) {
            Ok(()) => {},
            Err(e) => {
                return Err(e);
            },
        }
        match validate_username(req.username.as_str()) {
            Ok(()) => {},
            Err(e) => {
                return Err(e);
            },
        }
        match validate_display_name(req.display_name.as_str()) {
            Ok(()) => {},
            Err(e) => {
                return Err(e);
            },
        }
        match validate_password(req.password.as_str()) {
            Ok(()) => {},
            Err(e) => {
                return Err(e);
            },
        }
        match validate_role(req.roles) {
            Ok(()) => {},
            Err(e) => {
                return Err(e);
            },
        }
        let username = String::from_str(trim(req.username.as_str()));
        let display_name = String::from_str(trim(req.display_name.as_str()));
        let is_active = match req.is_active {
            Some(a) => a,
            None => true,
        };
        if self.find_user_by_name(&username).is_some() {
            return Err(ApiError::ValidationError("username already exists"));
        }
        let pw_hash = match hash_password(trim(req.password.as_str())) {
            Ok(h) => h,
            Err(_) => {
                return Err(ApiError::Internal("password hashing failed"));
            },
        };
        let u = self.users.len();
        match self.insert_user(random_id(), username, display_name, pw_hash, req.roles, is_active, now) {
            Ok(_) => {},
            Err(e) => {
                return Err(e);
            },
        }
        let data = self.public_row(u);
        Ok(CreateUserResponse { data })
    }

    /// Changes an account's display name, role or active flag; absent or blank
    /// fields keep their value. Disabling an account ends the liveness of all
    /// its sessions at once.
    pub fn update_user(&mut self, auth: &AuthContext, user_id: u128, req: &UpdateUserRequest) -> (r:
        Result<UpdateUserResponse, ApiError>)
        requires
            old(self).wf(),
        ensures
            final(self).wf(),
            final(self).sessions() == old(self).sessions(),
            r is Err ==> final(self).users() == old(self).users(),
            !privileged(auth.role) ==> r is Err && r->Err_0 is Forbidden,
            privileged(auth.role) && !has_user(old(self).users(), user_id) ==> r is Err
                && r->Err_0 is NotFound,
            privileged(auth.role) && has_user(old(self).users(), user_id) ==> (r is Ok <==> (
            req.roles is None || valid_role(req.roles->Some_0))),
            r is Err && privileged(auth.role) && has_user(old(self).users(), user_id)
                ==> r->Err_0 is ValidationError,
            r is Ok ==> {
                let users = old(self).users();
                let u = user_at(users, user_id);
                let row = final(self).users()[u];
                &&& final(self).users() == users.update(u, row)
                &&& row.user_id == users[u].user_id
                &&& row.username == users[u].username
                &&& row.password_hash == users[u].password_hash
                &&& row.created_at == users[u].created_at
                &&& row.display_name@ == (if req.display_name is Some && trimmed(
                    req.display_name->Some_0@,
                ).len() > 0 {
                    trimmed(req.display_name->Some_0@)
                } else {
                    users[u].display_name@
                })
                &&& row.roles == (if req.roles is Some {
                    req.roles->Some_0
                } else {
                    users[u].roles
                })
                &&& row.is_active == (if req.is_active is Some {
                    req.is_active->Some_0
                } else {
                    users[u].is_active
                })
                &&& r->Ok_0.data == public_row_of(row)
            },
    {
        match ensure_admin_or_manager(auth.role) {
            Ok(()) => {},
            Err(e) => {
                return Err(e);
            },
        }
        let u = match self.find_user_by_id(user_id) {
            Some(u) => u,
            None => {
                return Err(ApiError::NotFound("user not found"));
            },
        };
        let roles = match req.roles {
            Some(r) => {
                match validate_role(r) {
                    Ok(()) => {},
                    Err(e) => {
                        return Err(e);
                    },
                }
                r
            },
            None => self.users[u].roles,
        };
        let ghost start = self.users@;
        let mut row = Self::copy_user_row(&self.users[u]);
        match &req.display_name {
            Some(d) => {
                let t = trim(d.as_str());
                if !t.is_empty() {
                    row.display_name = String::from_str(t);
                }
            },
            None => {},
        }
        row.roles = roles;
        row.is_active = match req.is_active {
            Some(a) => a,
            None => row.is_active,
        };
        self.set_user_row(u, row);
        proof {
            assert forall|a: int| 0 <= a < self.users@.len() implies
                #[trigger] self.users@[a].user_id == start[a].user_id
                && self.users@[a].username == start[a].username by {}
        }
        let data = self.public_row(u);
        Ok(UpdateUserResponse { data })
    }

    /// Sets whether account `user_id` may authenticate.
    fn set_active(&mut self, auth: &AuthContext, user_id: u128, is_active: bool) -> (r: Result<
        OkResponse,
        ApiError,
    >)
        requires
            old(self).wf(),
        ensures
            final(self).wf(),
            final(self).sessions() == old(self).sessions(),
            r is Err ==> final(self).users() == old(self).users(),
            !privileged(auth.role) ==> r is Err && r->Err_0 is Forbidden,
            privileged(auth.role) ==> (r is Ok <==> has_user(old(self).users(), user_id)),
            r is Err && privileged(auth.role) ==> r->Err_0 is NotFound,
            r is Ok ==> r->Ok_0.data.ok && final(self).users() == old(self).users().update(
                user_at(old(self).users(), user_id),
                UserRow { is_active, ..old(self).users()[user_at(old(self).users(), user_id)] },
            ),
    {
        match ensure_admin_or_manager(auth.role) {
            Ok(()) => {},
            Err(e) => {
                return Err(e);
            },
        }
        let u = match self.find_user_by_id(user_id) {
            Some(u) => u,
            None => {
                return Err(ApiError::NotFound("user not found"));
            },
        };
        let ghost start = self.users@;
        let mut row = Self::copy_user_row(&self.users[u]);
        row.is_active = is_active;
        self.set_user_row(u, row);
        proof {
            assert forall|a: int| 0 <= a < self.users@.len() implies
                #[trigger] self.users@[a].user_id == start[a].user_id
                && self.users@[a].username == start[a].username by {}
        }
        Ok(OkResponse { data: OkData { ok: true } })
    }

    /// Disables an account: none of its sessions is live from now on.
    pub fn disable_user(&mut self, auth: &AuthContext, user_id: u128) -> (r: Result<OkResponse, ApiError>)
        requires
            old(self).wf(),
        ensures
            final(self).wf(),
            final(self).sessions() == old(self).sessions(),
            r is Err ==> final(self).users() == old(self).users(),
            !privileged(auth.role) ==> r is Err && r->Err_0 is Forbidden,
            privileged(auth.role) ==> (r is Ok <==> has_user(old(self).users(), user_id)),
            r is Err && privileged(auth.role) ==> r->Err_0 is NotFound,
            r is Ok ==> final(self).users() == old(self).users().update(
                user_at(old(self).users(), user_id),
                UserRow { is_active: false, ..old(self).users()[user_at(old(self).users(), user_id)] },
            ),
    {
        self.set_active(auth, user_id, false)
    }

    /// Enables an account again.
    pub fn enable_user(&mut self, auth: &AuthContext, user_id: u128) -> (r: Result<OkResponse, ApiError>)
        requires
            old(self).wf(),
        ensures
            final(self).wf(),
            final(self).sessions() == old(self).sessions(),
            r is Err ==> final(self).users() == old(self).users(),
            !privileged(auth.role) ==> r is Err && r->Err_0 is Forbidden,
            privileged(auth.role) ==> (r is Ok <==> has_user(old(self).users(), user_id)),
            r is Err && privileged(auth.role) ==> r->Err_0 is NotFound,
            r is Ok ==> final(self).users() == old(self).users().update(
                user_at(old(self).users(), user_id),
                UserRow { is_active: true, ..old(self).users()[user_at(old(self).users(), user_id)] },
            ),
    {
        self.set_active(auth, user_id, true)
    }

    /// One account's public fields, for admins and managers.
    pub fn get_user(&self, auth: &AuthContext, user_id: u128) -> (r: Result<UserGetResponse, ApiError>)
        requires
            self.wf(),
        ensures
            !privileged(auth.role) ==> r is Err && r->Err_0 is Forbidden,
            privileged(auth.role) ==> (r is Ok <==> has_user(self.users(), user_id)),
            r is Err && privileged(auth.role) ==> r->Err_0 is NotFound,
            r is Ok ==> r->Ok_0.data == public_row_of(self.users()[user_at(self.users(), user_id)]),
    {
        match ensure_admin_or_manager(auth.role) {
            Ok(()) => {},
            Err(e) => {
                return Err(e);
            },
        }
        let u = match self.find_user_by_id(user_id) {
            Some(u) => u,
            None => {
                return Err(ApiError::NotFound("user not found"));
            },
        };
        Ok(UserGetResponse { data: self.public_row(u) })
    }

    /// The public rows of the accounts, newest first, at most two hundred.
    pub fn list_users(&self, auth: &AuthContext) -> (r: Result<UsersListResponse, ApiError>)
        requires
            self.wf(),
        ensures
            r is Ok <==> privileged(auth.role),
            r is Err ==> r->Err_0 is Forbidden,
            r is Ok ==> r->Ok_0.data.users@ == newest_rows(
                self.users(),
                if self.users().len() < MAX_LISTED_USERS {
                    self.users().len() as int
                } else {
                    MAX_LISTED_USERS as int
                },
            ),
    {
        match ensure_admin_or_manager(auth.role) {
            Ok(()) => {},
            Err(e) => {
                return Err(e);
            },
        }
        let n = self.users.len();
        let count = if n < MAX_LISTED_USERS {
            n
        } else {
            MAX_LISTED_USERS
        };
        let mut users: Vec<UserPublicRow> = Vec::new();
        let mut k: usize = 0;
        while k < count
            invariant
                n == self.users@.len(),
                count <= n,
                k <= count,
                users@ == newest_rows(self.users@, k as int),
            decreases count - k,
        {
            users.push(self.public_row(n - 1 - k));
            proof {
                assert(users@ =~= newest_rows(self.users@, k + 1));
            }
            k = k + 1;
        }
        Ok(UsersListResponse { data: UsersListData { users } })
    }
}

} // verus!
