use vstd::prelude::*;

verus! {

pub const SESSION_TYPE_UNDEFINED: i16 = 0;
pub const SESSION_TYPE_USER_PORTAL: i16 = 1;
pub const SESSION_TYPE_PATIENT_WEB: i16 = 2;
pub const SESSION_TYPE_DCMSHQ: i16 = 3;

/// Upper bound on a single extension, and on how far past `now` any extension may reach.
pub const MAX_EXTEND_HOURS: i64 = 720;
/// Lifetime of patient-portal sessions.
pub const DEFAULT_PATIENT_TTL_HOURS: i64 = 72;
/// Lifetime of staff sessions opened with "remember me".
pub const REMEMBER_ME_TTL_HOURS: i64 = 168;
/// Lifetime of impersonation sessions, whatever the target's usual policy.
pub const IMPERSONATION_TTL_HOURS: i64 = 2;
pub const SECONDS_PER_HOUR: i64 = 3600;

/// Process configuration; the session core reads the default session lifetime.
pub struct Config {
    pub database_url: String,
    pub bind_addr: String,
    pub session_ttl_hours: i64,
}

/// The authenticated principal of one request: `{ user_id, role, session_id }`.
#[derive(Clone, Copy, Debug, PartialEq, Eq, Structural)]
pub struct AuthContext {
    pub user_id: u128,
    pub role: i16,
    pub session_token_id: u128,
}

/// An account: identity, credential hash, role and whether it may authenticate.
pub struct UserRow {
    pub user_id: u128,
    pub username: String,
    pub display_name: String,
    pub password_hash: String,
    pub roles: i16,
    pub is_active: bool,
    pub created_at: i64,
}

/// A session row. Times are Unix seconds; `revoked_at` being set is terminal.
pub struct SessionTokenRow {
    pub session_token_id: u128,
    pub user_id: u128,
    pub token_hash: String,
    pub session_type: i16,
    pub device_name: Option<String>,
    pub created_at: i64,
    pub last_seen_at: Option<i64>,
    pub expires_at: i64,
    pub revoked_at: Option<i64>,
    pub impersonator_user_id: Option<u128>,
    pub impersonated_user_id: Option<u128>,
}

pub struct LoginRequest {
    pub username: String,
    pub password: String,
    pub device_name: Option<String>,
    pub remember_me: Option<bool>,
}

pub struct LoginResponse {
    pub data: LoginResponseData,
}

pub struct LoginResponseData {
    pub access_token: String,
    pub expires_at: i64,
    pub dcms_user: UserProfile,
    pub clinic: ClinicProfile,
}

pub struct UserProfile {
    pub user_id: u128,
    pub username: String,
    pub display_name: String,
    pub roles: Vec<String>,
}

pub struct ClinicProfile {
    pub clinic_name: String,
}

pub struct SessionInfo {
    pub session_token_id: u128,
    pub expires_at: i64,
}

pub struct MeResponse {
    pub data: MeResponseData,
}

pub struct MeResponseData {
    pub dcms_user: UserProfile,
    pub clinic: ClinicProfile,
    pub session: SessionInfo,
    pub message: String,
}

pub struct OkResponse {
    pub data: OkData,
}

pub struct OkData {
    pub ok: bool,
}

pub struct RefreshResponse {
    pub data: RefreshData,
}

pub struct RefreshData {
    pub ok: bool,
    pub access_token: String,
    pub expires_at: i64,
    pub session_token_id: u128,
}

pub struct SessionListItem {
    pub session_token_id: u128,
    pub session_type: i16,
    pub device_name: Option<String>,
    pub expires_at: i64,
    pub last_seen_at: Option<i64>,
    pub created_at: i64,
}

pub struct ListSessionsResponse {
    pub data: ListSessionsData,
}

pub struct ListSessionsData {
    pub sessions: Vec<SessionListItem>,
    pub current_session_token_id: u128,
}

pub struct SessionDetail {
    pub session_token_id: u128,
    pub user_id: u128,
    pub session_type: i16,
    pub device_name: Option<String>,
    pub expires_at: i64,
    pub created_at: i64,
    pub last_seen_at: Option<i64>,
    pub revoked_at: Option<i64>,
}

pub struct GetSessionResponse {
    pub data: GetSessionData,
}

pub struct GetSessionData {
    pub session: SessionDetail,
}

pub struct ExtendSessionRequest {
    /// Hours to extend by, counted from the later of now and the current expiry.
    /// When absent, the default lifetime for the caller's role.
    pub extend_hours: Option<i64>,
}

pub struct ExtendSessionResponse {
    pub data: ExtendSessionData,
}

pub struct ExtendSessionData {
    pub ok: bool,
    pub session_token_id: u128,
    pub expires_at: i64,
}

pub struct RevokeOneResponse {
    pub data: RevokeOneData,
}

pub struct RevokeOneData {
    pub ok: bool,
    pub revoked_session_token_id: u128,
}

pub struct RevokeAllResponse {
    pub data: RevokeAllData,
}

pub struct RevokeAllData {
    pub ok: bool,
    pub revoked_count: usize,
}

pub struct ImpersonateResponse {
    pub data: ImpersonateData,
}

pub struct ImpersonateData {
    pub access_token: String,
    pub expires_at: i64,
    pub dcms_user: UserProfile,
    pub clinic: ClinicProfile,
}

pub struct ChangePasswordRequest {
    pub old_password: String,
    pub new_password: String,
}

pub struct ChangePasswordResponse {
    pub data: OkData,
}

pub struct ResetPasswordRequest {
    pub username: String,
    /// When absent or blank, a temporary password is generated and returned once.
    pub new_password: Option<String>,
}

pub struct ResetPasswordResponse {
    pub data: ResetPasswordData,
}

pub struct ResetPasswordData {
    pub ok: bool,
    pub user_id: u128,
    pub username: String,
    pub temporary_password: Option<String>,
}

pub struct UserPublicRow {
    pub user_id: u128,
    pub username: String,
    pub display_name: String,
    pub roles: i16,
    pub is_active: bool,
    pub created_at: i64,
}

pub struct UserGetResponse {
    pub data: UserPublicRow,
}

pub struct UsersListResponse {
    pub data: UsersListData,
}

pub struct UsersListData {
    pub users: Vec<UserPublicRow>,
}

pub struct CreateUserRequest {
    pub username: String,
    pub display_name: String,
    pub password: String,
    pub roles: i16,
    /// Defaults to active.
    pub is_active: Option<bool>,
}

pub struct CreateUserResponse {
    pub data: UserPublicRow,
}

pub struct UpdateUserRequest {
    pub display_name: Option<String>,
    pub roles: Option<i16>,
    pub is_active: Option<bool>,
}

pub struct UpdateUserResponse {
    pub data: UserPublicRow,
}

/// The landing payload, chosen by role.
pub struct HomeResponse {
    pub data: HomeData,
}

pub struct HomeData {
    pub view: String,
    pub message: String,
}

pub open spec fn known_session_type(st: i16) -> bool {
    SESSION_TYPE_UNDEFINED <= st <= SESSION_TYPE_DCMSHQ
}

pub fn is_known_session_type(st: i16) -> (r: bool)
    ensures
        r == known_session_type(st),
{
    st == SESSION_TYPE_UNDEFINED || st == SESSION_TYPE_USER_PORTAL || st
        == SESSION_TYPE_PATIENT_WEB || st == SESSION_TYPE_DCMSHQ
}

pub open spec fn fits_i64(x: int) -> bool {
    i64::MIN <= x <= i64::MAX
}

/// The instant `hours` hours after `t`.
pub open spec fn hours_after(t: int, hours: int) -> int {
    t + hours * SECONDS_PER_HOUR
}

/// The expiry that an extension by `hours` sets: counted from the later of the
/// current expiry and now, and never past now plus the extension cap.
pub open spec fn extended_expiry(current: int, now: int, hours: int) -> int {
    let base = if current > now {
        current
    } else {
        now
    };
    let wanted = hours_after(base, hours);
    let cap = hours_after(now, MAX_EXTEND_HOURS as int);
    if wanted < cap {
        wanted
    } else {
        cap
    }
}

/// `hours` after `now`, or `None` where that instant is not representable.
pub fn expiry_after(now: i64, hours: i64) -> (r: Option<i64>)
    ensures
        r is Some <==> fits_i64(hours_after(now as int, hours as int)),
        r is Some ==> r->Some_0 == hours_after(now as int, hours as int),
{
    let t: i128 = now as i128 + (hours as i128) * (SECONDS_PER_HOUR as i128);
    if t < i64::MIN as i128 || t > i64::MAX as i128 {
        None
    } else {
        Some(t as i64)
    }
}

/// The expiry after an extension, or `None` where it is not representable.
pub fn extend_expiry(current: i64, now: i64, hours: i64) -> (r: Option<i64>)
    requires
        0 < hours <= MAX_EXTEND_HOURS,
    ensures
        r is Some <==> fits_i64(extended_expiry(current as int, now as int, hours as int)),
        r is Some ==> r->Some_0 == extended_expiry(current as int, now as int, hours as int),
{
    let base: i128 = if current > now {
        current as i128
    } else {
        now as i128
    };
    let wanted: i128 = base + (hours as i128) * (SECONDS_PER_HOUR as i128);
    let cap: i128 = now as i128 + (MAX_EXTEND_HOURS as i128) * (SECONDS_PER_HOUR as i128);
    let t: i128 = if wanted < cap {
        wanted
    } else {
        cap
    };
    if t < i64::MIN as i128 || t > i64::MAX as i128 {
        None
    } else {
        Some(t as i64)
    }
}

} // verus!
