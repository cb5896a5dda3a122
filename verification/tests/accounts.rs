use cubesat_telemetry::gpu::parse_gpu_temp_output;
use cubesat_telemetry::users::{
    add_user, check_admin, default_users, delete_user, find_user, public_users, str_eq_ci,
    users_or_default, AddUserOutcome, DeleteOutcome,
};

#[test]
fn default_accounts() {
    let users = default_users();
    assert_eq!(users.len(), 3);
    assert_eq!(users[0].id, "flyboysam");
    assert_eq!(users[0].pw.as_deref(), Some("Airplane11!"));
    assert_eq!(users[0].role, "admin");
    assert_eq!(users[0].created, "SYSTEM");
    assert_eq!(users[1].id, "guest");
    assert_eq!(users[2].id, "SRG");
}

#[test]
fn find_user_ignores_identifier_case_only() {
    let users = default_users();
    assert_eq!(find_user(&users, "FLYBOYSAM", "Airplane11!"), Some(0));
    assert_eq!(find_user(&users, "flyboysam", "airplane11!"), None);
    assert_eq!(find_user(&users, "guest", "guest123"), Some(1));
    assert_eq!(find_user(&users, "nobody", "guest123"), None);
}

#[test]
fn admin_check() {
    let users = default_users();
    assert!(check_admin(&users, "flyboysam", "Airplane11!"));
    assert!(!check_admin(&users, "guest", "guest123"));
    assert!(!check_admin(&users, "flyboysam", "wrong"));
}

#[test]
fn add_user_requires_admin() {
    let mut users = default_users();
    let r = add_user(
        &mut users,
        "guest",
        "guest123",
        "newbie",
        "secret99",
        "guest",
        "2026-03-01".to_string(),
    );
    assert_eq!(r, AddUserOutcome::AdminRequired);
    assert_eq!(users.len(), 3);
}

#[test]
fn add_user_validates_lengths() {
    let mut users = default_users();
    let r = add_user(
        &mut users,
        "flyboysam",
        "Airplane11!",
        "ab",
        "secret99",
        "",
        "2026-03-01".to_string(),
    );
    assert_eq!(r, AddUserOutcome::UsernameTooShort);
    let r2 = add_user(
        &mut users,
        "flyboysam",
        "Airplane11!",
        "abc",
        "12345",
        "",
        "2026-03-01".to_string(),
    );
    assert_eq!(r2, AddUserOutcome::PasswordTooShort);
    assert_eq!(users.len(), 3);
}

#[test]
fn add_user_rejects_taken_identifier_case_insensitively() {
    let mut users = default_users();
    let r = add_user(
        &mut users,
        "flyboysam",
        "Airplane11!",
        "GUEST",
        "secret99",
        "",
        "2026-03-01".to_string(),
    );
    assert_eq!(r, AddUserOutcome::UsernameTaken);
    assert_eq!(users.len(), 3);
}

#[test]
fn add_user_appends_with_guest_role_by_default() {
    let mut users = default_users();
    let r = add_user(
        &mut users,
        "flyboysam",
        "Airplane11!",
        "newbie",
        "secret99",
        "",
        "2026-03-01".to_string(),
    );
    assert_eq!(r, AddUserOutcome::Added);
    assert_eq!(users.len(), 4);
    assert_eq!(users[3].id, "newbie");
    assert_eq!(users[3].pw.as_deref(), Some("secret99"));
    assert_eq!(users[3].role, "guest");
    assert_eq!(users[3].created, "2026-03-01");
}

#[test]
fn delete_user_outcomes() {
    let mut users = default_users();
    assert_eq!(
        delete_user(&mut users, "guest", "guest123", "SRG"),
        DeleteOutcome::AdminRequired
    );
    assert_eq!(
        delete_user(&mut users, "flyboysam", "Airplane11!", "FlyBoySam"),
        DeleteOutcome::ProtectedUser
    );
    assert_eq!(users.len(), 3);
    let mut users2 = default_users();
    assert_eq!(
        delete_user(&mut users2, "flyboysam", "Airplane11!", "guest"),
        DeleteOutcome::Deleted
    );
    assert_eq!(users2.len(), 2);
    assert_eq!(users2[0].id, "flyboysam");
    assert_eq!(users2[1].id, "SRG");
}

#[test]
fn delete_user_refuses_own_account() {
    let mut users = default_users();
    let r = add_user(
        &mut users,
        "flyboysam",
        "Airplane11!",
        "chief",
        "secret99",
        "admin",
        "2026-03-01".to_string(),
    );
    assert_eq!(r, AddUserOutcome::Added);
    assert_eq!(
        delete_user(&mut users, "chief", "secret99", "CHIEF"),
        DeleteOutcome::SelfDelete
    );
    assert_eq!(users.len(), 4);
}

#[test]
fn users_or_default_falls_back_on_empty_or_missing() {
    let loaded = vec![cubesat_telemetry::users::User {
        id: "solo".to_string(),
        pw: Some("pass".to_string()),
        role: "guest".to_string(),
        created: "2026-01-01".to_string(),
    }];
    let kept = users_or_default(Some(loaded));
    assert_eq!(kept.len(), 1);
    assert_eq!(kept[0].id, "solo");
    let defaulted = users_or_default(Some(Vec::new()));
    assert_eq!(defaulted.len(), 3);
    let defaulted2 = users_or_default(None);
    assert_eq!(defaulted2.len(), 3);
    assert_eq!(defaulted2[0].id, "flyboysam");
}

#[test]
fn public_users_drop_passwords() {
    let users = default_users();
    let public = public_users(&users);
    assert_eq!(public.len(), 3);
    for (u, p) in users.iter().zip(public.iter()) {
        assert_eq!(u.id, p.id);
        assert_eq!(u.role, p.role);
        assert_eq!(u.created, p.created);
        assert!(p.pw.is_none());
    }
}

#[test]
fn case_insensitive_comparison() {
    assert!(str_eq_ci("AbC", "aBc"));
    assert!(!str_eq_ci("abc", "abd"));
    assert!(!str_eq_ci("abc", "ab"));
    assert!(str_eq_ci("", ""));
}

#[test]
fn gpu_probe_output_parsing() {
    assert_eq!(parse_gpu_temp_output("temp=45.6'C\n").as_deref(), Some("45.6"));
    assert!(parse_gpu_temp_output("temp='C\n").is_none());
    assert!(parse_gpu_temp_output("temp=abc'C\n").is_none());
    assert!(parse_gpu_temp_output("45.6").is_none());
    assert!(parse_gpu_temp_output("temp=45.6'C").is_none());
    assert!(parse_gpu_temp_output("").is_none());
}
