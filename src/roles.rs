use vstd::prelude::*;

use crate::error::ApiError;
use crate::model::{AuthContext, HomeData, HomeResponse};

verus! {

pub const ROLE_PATIENT: i16 = 0;
pub const ROLE_ADMIN: i16 = 1;
pub const ROLE_MANAGER: i16 = 2;
pub const ROLE_DOCTOR: i16 = 3;
pub const ROLE_RECEPTIONIST: i16 = 4;

/// A role is one of the five values of the closed role enumeration.
pub open spec fn valid_role(role: i16) -> bool {
    0 <= role <= 4
}

/// Admins and managers may act on sessions and accounts other than their own.
pub open spec fn privileged(role: i16) -> bool {
    role == ROLE_ADMIN || role == ROLE_MANAGER
}

/// The name of a role; values outside the enumeration are "unknown".
pub open spec fn role_name(role: i16) -> Seq<char> {
    if role == 0 {
        "patient"@
    } else if role == 1 {
        "admin"@
    } else if role == 2 {
        "manager"@
    } else if role == 3 {
        "doctor"@
    } else if role == 4 {
        "receptionist"@
    } else {
        "unknown"@
    }
}

pub fn role_to_string(role: i16) -> (r: String)
    ensures
        r@ == role_name(role),
{
    let name = match role {
        0 => "patient",
        1 => "admin",
        2 => "manager",
        3 => "doctor",
        4 => "receptionist",
        _ => "unknown",
    };
    String::from_str(name)
}

pub fn is_admin(role: i16) -> (r: bool)
    ensures
        r == (role == ROLE_ADMIN),
{
    role == ROLE_ADMIN
}

pub fn is_manager(role: i16) -> (r: bool)
    ensures
        r == (role == ROLE_MANAGER),
{
    role == ROLE_MANAGER
}

pub fn is_doctor(role: i16) -> (r: bool)
    ensures
        r == (role == ROLE_DOCTOR),
{
    role == ROLE_DOCTOR
}

pub fn is_receptionist(role: i16) -> (r: bool)
    ensures
        r == (role == ROLE_RECEPTIONIST),
{
    role == ROLE_RECEPTIONIST
}

pub fn is_patient(role: i16) -> (r: bool)
    ensures
        r == (role == ROLE_PATIENT),
{
    role == ROLE_PATIENT
}

/// Admins and managers: the roles that may act on other users' sessions.
pub fn is_privileged(role: i16) -> (r: bool)
    ensures
        r == privileged(role),
{
    is_admin(role) || is_manager(role)
}

/// Scheduling resources are managed by admins, managers and receptionists.
pub fn can_manage_appointments(role: i16) -> (r: bool)
    ensures
        r == (role == ROLE_ADMIN || role == ROLE_MANAGER || role == ROLE_RECEPTIONIST),
{
    is_admin(role) || is_manager(role) || is_receptionist(role)
}

/// Tasks are managed by admins, managers and receptionists.
pub fn can_manage_tasks(role: i16) -> (r: bool)
    ensures
        r == (role == ROLE_ADMIN || role == ROLE_MANAGER || role == ROLE_RECEPTIONIST),
{
    is_admin(role) || is_manager(role) || is_receptionist(role)
}

/// Every staff role may create tasks: those who manage them, and doctors.
pub fn can_create_tasks(role: i16) -> (r: bool)
    ensures
        r == (role == ROLE_ADMIN || role == ROLE_MANAGER || role == ROLE_RECEPTIONIST
            || role == ROLE_DOCTOR),
{
    can_manage_tasks(role) || is_doctor(role)
}

/// Accepts exactly the five values of the role enumeration.
pub fn validate_role(roles: i16) -> (r: Result<(), ApiError>)
    ensures
        r is Ok <==> valid_role(roles),
        r is Err ==> r->Err_0 is ValidationError,
{
    if roles < 0 || roles > 4 {
        return Err(ApiError::ValidationError("roles must be one of 0..4"));
    }
    Ok(())
}

pub fn ensure_admin(role: i16) -> (r: Result<(), ApiError>)
    ensures
        r is Ok <==> role == ROLE_ADMIN,
        r is Err ==> r->Err_0 is Forbidden,
{
    if is_admin(role) {
        Ok(())
    } else {
        Err(ApiError::Forbidden("Only admin can perform this action"))
    }
}

pub fn ensure_admin_or_manager(role: i16) -> (r: Result<(), ApiError>)
    ensures
        r is Ok <==> privileged(role),
        r is Err ==> r->Err_0 is Forbidden,
{
    if is_privileged(role) {
        Ok(())
    } else {
        Err(ApiError::Forbidden("Only admin/manager can perform this action"))
    }
}

/// The landing view for the caller: the name of the caller's role.
pub fn home(auth: &AuthContext) -> (r: HomeResponse)
    ensures
        r.data.view@ == role_name(auth.role),
{
    HomeResponse {
        data: HomeData {
            view: role_to_string(auth.role),
            message: String::from_str("placeholder home payload (role-based)"),
        },
    }
}

} // verus!
