use dcms_auth::credentials::hash_password;
use dcms_auth::error::ErrorKind;
use dcms_auth::model::{
    AuthContext, ChangePasswordRequest, Config, CreateUserRequest, ExtendSessionRequest,
    LoginRequest, ResetPasswordRequest, UpdateUserRequest,
};
use dcms_auth::store::SessionManager;

const NOW: i64 = 1_700_000_000;
const HOUR: i64 = 3600;

fn fresh_id() -> u128 {
    uuid::Uuid::new_v4().as_u128()
}

fn manager_with_ttl(hours: i64) -> SessionManager {
    let config = Config {
        database_url: String::new(),
        bind_addr: String::from("127.0.0.1:8080"),
        session_ttl_hours: hours,
    };
    SessionManager::new(&config, String::from("Bright Smiles"))
}

fn manager() -> SessionManager {
    manager_with_ttl(24)
}

fn add_user(m: &mut SessionManager, username: &str, password: &str, role: i16, active: bool) -> u128 {
    let hash = hash_password(password).unwrap();
    let id = fresh_id();
    m.insert_user(id, username.to_string(), format!("{username} display"), hash, role, active, NOW)
        .unwrap();
    id
}

/// An account whose password is never used in the test.
fn add_account(m: &mut SessionManager, username: &str, role: i16) -> u128 {
    let id = fresh_id();
    m.insert_user(id, username.to_string(), username.to_string(), String::from("unused"), role, true, NOW)
        .unwrap();
    id
}

fn login_request(username: &str, password: &str) -> LoginRequest {
    LoginRequest {
        username: username.to_string(),
        password: password.to_string(),
        device_name: None,
        remember_me: None,
    }
}

fn login(m: &mut SessionManager, username: &str, password: &str) -> String {
    m.login(&login_request(username, password), NOW).ok().unwrap().data.access_token
}

fn bearer(token: &str) -> String {
    format!("Bearer {token}")
}

fn resolve(m: &mut SessionManager, token: &str, at: i64) -> Option<AuthContext> {
    m.resolve(Some(bearer(token).as_str()), at).ok()
}

fn admin(user_id: u128) -> AuthContext {
    AuthContext { user_id, role: 1, session_token_id: 0 }
}

#[test]
fn doctor_login_then_resolve() {
    let mut m = manager();
    let id = add_user(&mut m, "drsmith", "s3cret-pass", 3, true);
    let resp = m.login(&login_request("drsmith", "s3cret-pass"), NOW).ok().unwrap();
    assert!(!resp.data.access_token.is_empty());
    assert!(resp.data.expires_at > NOW);
    assert_eq!(resp.data.expires_at, NOW + 24 * HOUR);
    assert_eq!(resp.data.dcms_user.user_id, id);
    assert_eq!(resp.data.dcms_user.roles, vec![String::from("doctor")]);
    assert_eq!(resp.data.clinic.clinic_name, "Bright Smiles");
    let p = resolve(&mut m, &resp.data.access_token, NOW + 1).unwrap();
    assert_eq!(p.role, 3);
    assert_eq!(p.user_id, id);
}

#[test]
fn wrong_password_three_times_is_always_invalid_credentials() {
    let mut m = manager();
    add_user(&mut m, "drsmith", "s3cret-pass", 3, true);
    for _ in 0..3 {
        let e = m.login(&login_request("drsmith", "wrong-pass"), NOW).err().unwrap();
        assert_eq!(e.kind(), ErrorKind::InvalidCredentials);
    }
    let e = m.login(&login_request("nobody", "wrong-pass"), NOW).err().unwrap();
    assert_eq!(e.kind(), ErrorKind::InvalidCredentials);
}

#[test]
fn login_refusals() {
    let mut m = manager();
    add_user(&mut m, "off", "password-1", 2, false);
    let e = m.login(&login_request("  ", "x"), NOW).err().unwrap();
    assert_eq!(e.kind(), ErrorKind::ValidationError);
    let e = m.login(&login_request("off", ""), NOW).err().unwrap();
    assert_eq!(e.kind(), ErrorKind::ValidationError);
    let e = m.login_with_type(&login_request("off", "x"), 9, None, NOW).err().unwrap();
    assert_eq!(e.kind(), ErrorKind::ValidationError);
    let e = m.login(&login_request("off", "password-1"), NOW).err().unwrap();
    assert_eq!(e.kind(), ErrorKind::Forbidden);
}

#[test]
fn patient_portal_admits_patients_only() {
    let mut m = manager();
    add_user(&mut m, "doc", "password-1", 3, true);
    add_user(&mut m, "pat", "password-2", 0, true);
    let e = m.patient_login(&login_request("doc", "password-1"), NOW).err().unwrap();
    assert_eq!(e.kind(), ErrorKind::Forbidden);
    let r = m.patient_login(&login_request("pat", "password-2"), NOW).ok().unwrap();
    assert_eq!(r.data.expires_at, NOW + 72 * HOUR);
}

#[test]
fn remember_me_and_trimmed_username() {
    let mut m = manager();
    add_user(&mut m, "recep", "password-1", 4, true);
    let mut req = login_request("  recep ", "password-1");
    req.remember_me = Some(true);
    req.device_name = Some(String::from("front desk"));
    let r = m.login(&req, NOW).ok().unwrap();
    assert_eq!(r.data.expires_at, NOW + 168 * HOUR);
}

#[test]
fn issued_token_resolves_to_its_own_session_only() {
    let mut m = manager();
    add_user(&mut m, "alice", "password-1", 2, true);
    let t1 = login(&mut m, "alice", "password-1");
    let p1 = resolve(&mut m, &t1, NOW).unwrap();
    assert!(resolve(&mut m, "not-a-token", NOW).is_none());
    assert!(m.resolve(None, NOW).is_err());
    assert!(m.resolve(Some("Basic abc"), NOW).is_err());
    let detail = m.get_session(&p1, p1.session_token_id).ok().unwrap().data.session;
    assert_eq!(detail.user_id, p1.user_id);
    assert_eq!(detail.last_seen_at, Some(NOW));
    // expired after its lifetime
    assert!(resolve(&mut m, &t1, NOW + 24 * HOUR).is_none());
}

#[test]
fn refresh_replaces_the_token() {
    let mut m = manager();
    add_user(&mut m, "alice", "password-1", 2, true);
    let old = login(&mut m, "alice", "password-1");
    let p = resolve(&mut m, &old, NOW).unwrap();
    let r = m.refresh(&p, NOW + 5).ok().unwrap();
    assert_ne!(r.data.access_token, old);
    assert_eq!(r.data.session_token_id, p.session_token_id);
    assert!(resolve(&mut m, &old, NOW + 6).is_none());
    let q = resolve(&mut m, &r.data.access_token, NOW + 6).unwrap();
    assert_eq!(q.session_token_id, p.session_token_id);
}

#[test]
fn extend_moves_forward_and_is_capped() {
    let mut m = manager();
    add_user(&mut m, "alice", "password-1", 4, true);
    let t = login(&mut m, "alice", "password-1");
    let p = resolve(&mut m, &t, NOW).unwrap();
    let sid = p.session_token_id;
    let r = m.extend_session(&p, sid, &ExtendSessionRequest { extend_hours: Some(10) }, NOW).ok().unwrap();
    assert_eq!(r.data.expires_at, NOW + 34 * HOUR);
    let r = m.extend_session(&p, sid, &ExtendSessionRequest { extend_hours: None }, NOW).ok().unwrap();
    assert_eq!(r.data.expires_at, NOW + 58 * HOUR);
    for _ in 0..3 {
        let r = m.extend_session(&p, sid, &ExtendSessionRequest { extend_hours: Some(720) }, NOW).ok().unwrap();
        assert_eq!(r.data.expires_at, NOW + 720 * HOUR);
    }
    let e = m.extend_session(&p, sid, &ExtendSessionRequest { extend_hours: Some(0) }, NOW).err().unwrap();
    assert_eq!(e.kind(), ErrorKind::ValidationError);
    let e = m.extend_session(&p, sid, &ExtendSessionRequest { extend_hours: Some(721) }, NOW).err().unwrap();
    assert_eq!(e.kind(), ErrorKind::ValidationError);
    let stranger = AuthContext { user_id: 999, role: 3, session_token_id: 0 };
    let e = m.extend_session(&stranger, sid, &ExtendSessionRequest { extend_hours: Some(1) }, NOW).err().unwrap();
    assert_eq!(e.kind(), ErrorKind::NotFound);
    let manager_role = AuthContext { user_id: 999, role: 2, session_token_id: 0 };
    let r = m.extend_session(&manager_role, sid, &ExtendSessionRequest { extend_hours: Some(1) }, NOW + HOUR).ok().unwrap();
    assert_eq!(r.data.expires_at, NOW + 721 * HOUR);
}

#[test]
fn extend_from_past_the_cap_comes_down_to_the_cap() {
    let mut m = manager_with_ttl(1000);
    add_user(&mut m, "alice", "password-1", 4, true);
    let t = login(&mut m, "alice", "password-1");
    let p = resolve(&mut m, &t, NOW).unwrap();
    let r = m.extend_session(&p, p.session_token_id, &ExtendSessionRequest { extend_hours: Some(1) }, NOW).ok().unwrap();
    assert_eq!(r.data.expires_at, NOW + 720 * HOUR);
}

#[test]
fn revoke_one_leaves_siblings() {
    let mut m = manager();
    add_user(&mut m, "alice", "password-1", 3, true);
    let a = login(&mut m, "alice", "password-1");
    let b = login(&mut m, "alice", "password-1");
    let pa = resolve(&mut m, &a, NOW).unwrap();
    let pb = resolve(&mut m, &b, NOW).unwrap();
    let r = m.revoke_session(&pa, pb.session_token_id, NOW).ok().unwrap();
    assert_eq!(r.data.revoked_session_token_id, pb.session_token_id);
    assert!(resolve(&mut m, &b, NOW + 1).is_none());
    assert!(resolve(&mut m, &a, NOW + 1).is_some());
    let e = m.revoke_session(&pa, pb.session_token_id, NOW).err().unwrap();
    assert_eq!(e.kind(), ErrorKind::NotFound);
    let other = AuthContext { user_id: 12345, role: 1, session_token_id: 0 };
    let e = m.revoke_session(&other, pa.session_token_id, NOW).err().unwrap();
    assert_eq!(e.kind(), ErrorKind::NotFound);
}

#[test]
fn logout_and_logout_others() {
    let mut m = manager();
    add_user(&mut m, "alice", "password-1", 3, true);
    let a = login(&mut m, "alice", "password-1");
    let b = login(&mut m, "alice", "password-1");
    let c = login(&mut m, "alice", "password-1");
    let pa = resolve(&mut m, &a, NOW).unwrap();
    let r = m.logout_all_except_current(&pa, NOW);
    assert_eq!(r.data.revoked_count, 2);
    assert!(resolve(&mut m, &b, NOW).is_none());
    assert!(resolve(&mut m, &c, NOW).is_none());
    let me = m.me(&pa, NOW).ok().unwrap();
    assert_eq!(me.data.session.session_token_id, pa.session_token_id);
    assert_eq!(me.data.dcms_user.username, "alice");
    assert!(m.logout(&pa, NOW).is_ok());
    assert!(resolve(&mut m, &a, NOW).is_none());
    assert_eq!(m.logout(&pa, NOW).err().unwrap().kind(), ErrorKind::SessionExpired);
    assert_eq!(m.me(&pa, NOW).err().unwrap().kind(), ErrorKind::SessionExpired);
}

#[test]
fn revoke_all_ends_the_current_session_too() {
    let mut m = manager();
    add_user(&mut m, "alice", "password-1", 3, true);
    add_user(&mut m, "bob", "password-2", 3, true);
    let a = login(&mut m, "alice", "password-1");
    let b = login(&mut m, "alice", "password-1");
    let other = login(&mut m, "bob", "password-2");
    let pa = resolve(&mut m, &a, NOW).unwrap();
    assert_eq!(m.revoke_all_sessions(&pa, NOW).data.revoked_count, 2);
    assert!(resolve(&mut m, &a, NOW).is_none());
    assert!(resolve(&mut m, &b, NOW).is_none());
    assert!(resolve(&mut m, &other, NOW).is_some());
    assert_eq!(m.revoke_all_sessions(&pa, NOW).data.revoked_count, 0);
}

#[test]
fn session_listing_is_most_recent_first() {
    let mut m = manager();
    add_user(&mut m, "alice", "password-1", 3, true);
    let a = login(&mut m, "alice", "password-1");
    let b = login(&mut m, "alice", "password-1");
    login(&mut m, "alice", "password-1");
    let pb = resolve(&mut m, &b, NOW + 10).unwrap();
    // never seen, and created at the same instant: the third session, listed last
    let unseen: Vec<u128> = m.list_sessions(&pb, NOW + 10).data.sessions.iter().map(|s| s.session_token_id).collect();
    assert_eq!(unseen.len(), 3);
    assert_eq!(unseen[0], pb.session_token_id);
    let pa = resolve(&mut m, &a, NOW + 20).unwrap();
    assert_eq!(unseen[1], pa.session_token_id);
    let pc_id = unseen[2];
    let list = m.list_sessions(&pa, NOW + 30);
    let ids: Vec<u128> = list.data.sessions.iter().map(|s| s.session_token_id).collect();
    assert_eq!(ids, vec![pa.session_token_id, pb.session_token_id, pc_id]);
    assert_eq!(list.data.current_session_token_id, pa.session_token_id);
    assert!(m.revoke_session(&pa, pb.session_token_id, NOW + 30).is_ok());
    let ids: Vec<u128> = m.list_sessions(&pa, NOW + 30).data.sessions.iter().map(|s| s.session_token_id).collect();
    assert_eq!(ids, vec![pa.session_token_id, pc_id]);
}

#[test]
fn change_password_keeps_only_the_current_session() {
    let mut m = manager();
    add_user(&mut m, "alice", "old-password", 3, true);
    let a = login(&mut m, "alice", "old-password");
    let b = login(&mut m, "alice", "old-password");
    let pa = resolve(&mut m, &a, NOW).unwrap();
    let req = ChangePasswordRequest {
        old_password: String::from("old-password"),
        new_password: String::from("new-password"),
    };
    assert!(m.change_password(&pa, &req, NOW).is_ok());
    assert!(resolve(&mut m, &a, NOW + 1).is_some());
    assert!(resolve(&mut m, &b, NOW + 1).is_none());
}

#[test]
fn change_password_swaps_the_credential() {
    let mut m = manager();
    add_user(&mut m, "alice", "old-password", 3, true);
    let a = login(&mut m, "alice", "old-password");
    let pa = resolve(&mut m, &a, NOW).unwrap();
    let weak = ChangePasswordRequest {
        old_password: String::from("old-password"),
        new_password: String::from("short"),
    };
    assert_eq!(m.change_password(&pa, &weak, NOW).err().unwrap().kind(), ErrorKind::ValidationError);
    let wrong = ChangePasswordRequest {
        old_password: String::from("not-the-password"),
        new_password: String::from("new-password"),
    };
    assert_eq!(m.change_password(&pa, &wrong, NOW).err().unwrap().kind(), ErrorKind::InvalidCredentials);
    let req = ChangePasswordRequest {
        old_password: String::from("old-password"),
        new_password: String::from("new-password"),
    };
    assert!(m.change_password(&pa, &req, NOW).is_ok());
    assert!(m.login(&login_request("alice", "new-password"), NOW).is_ok());
    let e = m.login(&login_request("alice", "old-password"), NOW).err().unwrap();
    assert_eq!(e.kind(), ErrorKind::InvalidCredentials);
}

#[test]
fn reset_password_ends_every_session() {
    let mut m = manager();
    let admin_id = add_account(&mut m, "boss", 1);
    add_user(&mut m, "alice", "old-password", 3, true);
    let a = login(&mut m, "alice", "old-password");
    let b = login(&mut m, "alice", "old-password");
    let req = ResetPasswordRequest { username: String::from(" alice "), new_password: None };
    let r = m.reset_password(&admin(admin_id), &req, NOW).ok().unwrap();
    assert_eq!(r.data.username, "alice");
    assert!(resolve(&mut m, &a, NOW).is_none());
    assert!(resolve(&mut m, &b, NOW).is_none());
    let temp = r.data.temporary_password.unwrap();
    assert_eq!(temp.len(), 20);
    assert!(m.login(&login_request("alice", &temp), NOW).is_ok());
}

#[test]
fn reset_password_refusals() {
    let mut m = manager();
    let doctor = AuthContext { user_id: 7, role: 3, session_token_id: 0 };
    let req = ResetPasswordRequest { username: String::from("alice"), new_password: None };
    assert_eq!(m.reset_password(&doctor, &req, NOW).err().unwrap().kind(), ErrorKind::Forbidden);
    let blank = ResetPasswordRequest { username: String::from("  "), new_password: None };
    assert_eq!(m.reset_password(&admin(1), &blank, NOW).err().unwrap().kind(), ErrorKind::ValidationError);
    let weak = ResetPasswordRequest {
        username: String::from("alice"),
        new_password: Some(String::from(" short ")),
    };
    assert_eq!(m.reset_password(&admin(1), &weak, NOW).err().unwrap().kind(), ErrorKind::ValidationError);
    let missing = ResetPasswordRequest {
        username: String::from("nobody"),
        new_password: Some(String::from("long-enough")),
    };
    assert_eq!(m.reset_password(&admin(1), &missing, NOW).err().unwrap().kind(), ErrorKind::NotFound);
}

#[test]
fn impersonation_acts_as_the_target() {
    let mut m = manager();
    let admin_id = add_account(&mut m, "boss", 1);
    let target = add_account(&mut m, "alice", 4);
    let off = fresh_id();
    m.insert_user(off, String::from("gone"), String::from("Gone"), String::from("x"), 3, false, NOW)
        .unwrap();
    let doctor = AuthContext { user_id: target, role: 3, session_token_id: 0 };
    assert_eq!(m.impersonate(&doctor, admin_id, NOW).err().unwrap().kind(), ErrorKind::Forbidden);
    assert_eq!(m.impersonate(&admin(admin_id), off, NOW).err().unwrap().kind(), ErrorKind::NotFound);
    assert_eq!(m.impersonate(&admin(admin_id), 4242, NOW).err().unwrap().kind(), ErrorKind::NotFound);
    let r = m.impersonate(&admin(admin_id), target, NOW).ok().unwrap();
    assert_eq!(r.data.expires_at, NOW + 2 * HOUR);
    assert_eq!(r.data.dcms_user.user_id, target);
    let p = resolve(&mut m, &r.data.access_token, NOW + 1).unwrap();
    assert_eq!(p.user_id, target);
    assert_eq!(p.role, 4);
    let detail = m.get_session(&admin(admin_id), p.session_token_id).ok().unwrap().data.session;
    assert_eq!(detail.device_name.as_deref(), Some("impersonation"));
    assert!(resolve(&mut m, &r.data.access_token, NOW + 2 * HOUR).is_none());
}

#[test]
fn disabling_an_account_ends_its_sessions() {
    let mut m = manager();
    let id = add_user(&mut m, "alice", "password-1", 3, true);
    let t = login(&mut m, "alice", "password-1");
    assert!(resolve(&mut m, &t, NOW).is_some());
    let doctor = AuthContext { user_id: id, role: 3, session_token_id: 0 };
    assert_eq!(m.disable_user(&doctor, id).err().unwrap().kind(), ErrorKind::Forbidden);
    assert!(m.disable_user(&admin(1), id).is_ok());
    assert!(resolve(&mut m, &t, NOW).is_none());
    assert!(m.enable_user(&admin(1), id).is_ok());
    assert!(resolve(&mut m, &t, NOW).is_some());
    assert_eq!(m.enable_user(&admin(1), 4242).err().unwrap().kind(), ErrorKind::NotFound);
}

#[test]
fn session_visibility() {
    let mut m = manager();
    add_user(&mut m, "alice", "password-1", 3, true);
    let t = login(&mut m, "alice", "password-1");
    let p = resolve(&mut m, &t, NOW).unwrap();
    let stranger = AuthContext { user_id: 999, role: 4, session_token_id: 0 };
    assert_eq!(m.get_session(&stranger, p.session_token_id).err().unwrap().kind(), ErrorKind::NotFound);
    let manager_role = AuthContext { user_id: 999, role: 2, session_token_id: 0 };
    assert!(m.get_session(&manager_role, p.session_token_id).is_ok());
    assert_eq!(m.get_session(&p, 4242).err().unwrap().kind(), ErrorKind::NotFound);
}

#[test]
fn account_provisioning() {
    let mut m = manager();
    let boss = admin(1);
    let req = CreateUserRequest {
        username: String::from(" carol "),
        display_name: String::from(" Carol C "),
        password: String::from("password-9"),
        roles: 4,
        is_active: None,
    };
    let doctor = AuthContext { user_id: 1, role: 3, session_token_id: 0 };
    assert_eq!(m.create_user(&doctor, &req, NOW).err().unwrap().kind(), ErrorKind::Forbidden);
    let row = m.create_user(&boss, &req, NOW).ok().unwrap().data;
    assert_eq!(row.username, "carol");
    assert_eq!(row.display_name, "Carol C");
    assert!(row.is_active);
    assert_eq!(m.create_user(&boss, &req, NOW).err().unwrap().kind(), ErrorKind::ValidationError);
    let bad_role = CreateUserRequest { roles: 5, username: String::from("dave"), ..req };
    assert_eq!(m.create_user(&boss, &bad_role, NOW).err().unwrap().kind(), ErrorKind::ValidationError);
    let upd = UpdateUserRequest { display_name: Some(String::from("  ")), roles: Some(2), is_active: None };
    let row2 = m.update_user(&boss, row.user_id, &upd).ok().unwrap().data;
    assert_eq!(row2.display_name, "Carol C");
    assert_eq!(row2.roles, 2);
    let upd = UpdateUserRequest { display_name: None, roles: Some(9), is_active: None };
    assert_eq!(m.update_user(&boss, row.user_id, &upd).err().unwrap().kind(), ErrorKind::ValidationError);
    assert_eq!(m.get_user(&boss, row.user_id).ok().unwrap().data.roles, 2);
    add_account(&mut m, "erin", 3);
    let listed: Vec<String> = m.list_users(&boss).ok().unwrap().data.users.into_iter().map(|u| u.username).collect();
    assert_eq!(listed, vec![String::from("erin"), String::from("carol")]);
    assert_eq!(m.list_users(&doctor).err().unwrap().kind(), ErrorKind::Forbidden);
    assert!(m.login(&login_request("carol", "password-9"), NOW).is_ok());
}

#[test]
fn bearer_header_forms() {
    let mut m = manager();
    add_user(&mut m, "alice", "password-1", 3, true);
    let t = login(&mut m, "alice", "password-1");
    assert!(m.resolve(Some(format!("bearer   {t}").as_str()), NOW).is_ok());
    assert!(m.resolve(Some(format!("BEARER {t}").as_str()), NOW).is_ok());
    assert!(m.resolve(Some(format!("Bearer\t{t}").as_str()), NOW).is_err());
    assert!(m.resolve(Some(format!("Bearer{t}").as_str()), NOW).is_err());
    assert!(m.resolve(Some(format!("Token {t}").as_str()), NOW).is_err());
    assert!(m.resolve(Some(format!("Bearer {t}\u{e9}").as_str()), NOW).is_err());
    assert!(m.resolve(Some(t.as_str()), NOW).is_err());
    assert_eq!(
        m.resolve(Some("Bearer"), NOW).err().unwrap().kind(),
        ErrorKind::SessionExpired
    );
}
