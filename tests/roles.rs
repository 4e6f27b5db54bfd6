use dcms_auth::error::ErrorKind;
use dcms_auth::model::AuthContext;
use dcms_auth::roles::{
    can_create_tasks, can_manage_appointments, can_manage_tasks, ensure_admin,
    ensure_admin_or_manager, home, is_admin, is_doctor, is_manager, is_patient, is_privileged,
    is_receptionist, role_to_string,
};

#[test]
fn role_names() {
    assert_eq!(role_to_string(0), "patient");
    assert_eq!(role_to_string(1), "admin");
    assert_eq!(role_to_string(2), "manager");
    assert_eq!(role_to_string(3), "doctor");
    assert_eq!(role_to_string(4), "receptionist");
    assert_eq!(role_to_string(5), "unknown");
    assert_eq!(role_to_string(-1), "unknown");
}

#[test]
fn single_role_predicates() {
    assert!(is_patient(0) && !is_patient(1));
    assert!(is_admin(1) && !is_admin(2));
    assert!(is_manager(2) && !is_manager(1));
    assert!(is_doctor(3) && !is_doctor(4));
    assert!(is_receptionist(4) && !is_receptionist(3));
}

#[test]
fn capability_groups() {
    let manage: Vec<i16> = (0..5).filter(|r| can_manage_appointments(*r)).collect();
    assert_eq!(manage, vec![1, 2, 4]);
    let tasks: Vec<i16> = (0..5).filter(|r| can_manage_tasks(*r)).collect();
    assert_eq!(tasks, vec![1, 2, 4]);
    let create: Vec<i16> = (0..5).filter(|r| can_create_tasks(*r)).collect();
    assert_eq!(create, vec![1, 2, 3, 4]);
    let privileged: Vec<i16> = (0..5).filter(|r| is_privileged(*r)).collect();
    assert_eq!(privileged, vec![1, 2]);
}

#[test]
fn role_guards() {
    assert!(ensure_admin(1).is_ok());
    assert_eq!(ensure_admin(2).err().unwrap().kind(), ErrorKind::Forbidden);
    assert!(ensure_admin_or_manager(2).is_ok());
    assert_eq!(ensure_admin_or_manager(3).err().unwrap().kind(), ErrorKind::Forbidden);
}

#[test]
fn home_view_follows_the_role() {
    let auth = AuthContext { user_id: 1, role: 4, session_token_id: 2 };
    assert_eq!(home(&auth).data.view, "receptionist");
    let auth = AuthContext { user_id: 1, role: 9, session_token_id: 2 };
    assert_eq!(home(&auth).data.view, "unknown");
}
