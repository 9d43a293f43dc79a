use clubsite::auth::{
    login_user, new_user, try_login_user, user_id_cookie, user_id_from_cookie, Admin, Login,
    LoginError, NewUser, SuperAdmin, User,
};
use argon2rs::verifier::Encoded;
use argon2rs::{Argon2, Variant};
use clubsite::password::{hash_password, is_usable_stored_hash};

/// A hash that `argon2rs` encodes for the password `argon2i!`.
const KNOWN_HASH: &str =
    "$argon2i$m=4096,t=3,p=1$dG9kbzogZnV6eiB0ZXN0cw$Eh1lW3mjkhlMLRQdE7vXZnvwDXSGLBfXa6BGK4a1J3s";

fn user(id: i32, password: &str, admin: bool, superadmin: bool) -> User {
    User {
        id,
        name: "ann".to_string(),
        password: password.to_string(),
        admin,
        superadmin,
        created: 1_500_000_000,
    }
}

#[test]
fn admin_guard_admits_admins_and_superadmins() {
    assert!(Admin::from_user(user(1, "", true, false)).is_some());
    assert!(Admin::from_user(user(1, "", false, true)).is_some());
    assert!(Admin::from_user(user(1, "", true, true)).is_some());
    assert!(Admin::from_user(user(1, "", false, false)).is_none());
    assert_eq!(Admin::from_user(user(9, "", true, false)).unwrap().0.id, 9);
}

#[test]
fn superadmin_guard_admits_only_superadmins() {
    assert!(SuperAdmin::from_user(user(1, "", true, false)).is_none());
    assert!(SuperAdmin::from_user(user(1, "", false, true)).is_some());
    assert!(SuperAdmin::from_user(user(1, "", false, false)).is_none());
}

#[test]
fn session_cookie_names_the_user() {
    let u = user(31, "", false, false);
    let cookie = user_id_cookie(&u);
    assert_eq!(cookie, "31");
    assert_eq!(user_id_from_cookie(&cookie), Some(31));
    assert_eq!(user_id_from_cookie("abc"), None);
    assert_eq!(user_id_from_cookie(""), None);
}

#[test]
fn login_accepts_the_right_password() {
    let u = user(7, KNOWN_HASH, true, false);
    match login_user(Some(&u), "argon2i!") {
        Login::Accepted { user_id } => assert_eq!(user_id, "7"),
        Login::Refused => panic!("refused the right password"),
    }
    assert_eq!(login_user(Some(&u), "argon2i!").redirect(), "/admin");
}

#[test]
fn login_refuses_a_wrong_password() {
    let u = user(7, KNOWN_HASH, true, false);
    let r = login_user(Some(&u), "nope");
    assert!(matches!(r, Login::Refused));
    assert_eq!(r.redirect(), "/login");
}

#[test]
fn login_refuses_an_unknown_user() {
    assert!(matches!(login_user(None, "argon2i!"), Login::Refused));
    assert!(matches!(try_login_user(None, "x"), Ok(Login::Refused)));
}

#[test]
fn try_login_reports_unreadable_hashes() {
    let plain = user(3, "secret", false, false);
    assert!(matches!(try_login_user(Some(&plain), "secret"), Err(LoginError::UnreadableStoredHash)));
    let bad_base64 = user(3, "$argon2i$m=4096,t=3,p=1$!!!!!!!!!!!!$abcd", false, false);
    assert!(matches!(try_login_user(Some(&bad_base64), "x"), Err(LoginError::UnreadableStoredHash)));
    let good = user(3, KNOWN_HASH, false, false);
    assert!(matches!(try_login_user(Some(&good), "argon2i!"), Ok(Login::Accepted { .. })));
    assert!(matches!(try_login_user(Some(&good), "nope"), Ok(Login::Refused)));
}

#[test]
fn usable_stored_hash_check() {
    assert!(is_usable_stored_hash(KNOWN_HASH));
    assert!(!is_usable_stored_hash(""));
    assert!(!is_usable_stored_hash("$argon2"));
    assert!(!is_usable_stored_hash("$argon2i"));
    assert!(!is_usable_stored_hash("$argon2i$m=4096,t=3,p=1"));
    assert!(!is_usable_stored_hash("$argon2i$m=4096,t=3,p=1$"));
    assert!(!is_usable_stored_hash("$argon2i$m=4096,t=3,p=1$short$hash"));
    assert!(!is_usable_stored_hash("$argon2i$m=4096,t=3,p=1$longenoughsalt"));
    assert!(!is_usable_stored_hash("$argon2x$m=4096,t=3,p=1$dG9kbzogZnV6eiB0ZXN0cw$x"));
    assert!(is_usable_stored_hash("$argon2d$m=4096,t=3,p=1$dG9kbzogZnV6eiB0ZXN0cw$x"));
    assert!(is_usable_stored_hash("$argon2i$m=4096,t=3,p=1$12345678901$"));
    assert!(is_usable_stored_hash("$argon2i$m=64,t=1,p=2,keyid=a2V5,data=ZGF0YQ$c2FsdHNhbHQ$aGFzaA"));
    // a key text that decodes to more than 32 bytes
    let long_key = "A".repeat(44);
    let h = format!("$argon2i$m=64,t=1,p=2,keyid={}$c2FsdHNhbHQ$aGFzaA", long_key);
    assert!(!is_usable_stored_hash(&h));
    // a key text that runs to the end
    assert!(!is_usable_stored_hash("$argon2i$m=64,t=1,p=2,keyid=a2V5"));
}

#[test]
fn login_with_other_argon2_parameters() {
    // Argon2d, other parameters, a key and associated data.
    let argon = Argon2::new(1, 2, 64, Variant::Argon2d).unwrap();
    let enc = Encoded::new(argon, b"pw", b"saltsalt", b"key", b"data").to_u8();
    let hash = String::from_utf8(enc).unwrap();
    assert!(hash.contains(",keyid=") && hash.contains(",data="));
    assert!(is_usable_stored_hash(&hash));
    let u = user(4, &hash, false, false);
    assert!(matches!(try_login_user(Some(&u), "pw"), Ok(Login::Accepted { .. })));
    assert!(matches!(try_login_user(Some(&u), "px"), Ok(Login::Refused)));
    assert!(matches!(login_user(Some(&u), "pw"), Login::Accepted { .. }));
}

#[test]
fn login_with_argon2d_hash_that_does_not_match() {
    let u = user(4, "$argon2d$m=4096,t=3,p=1$c2FsdHNhbHQ$aGFzaA", false, false);
    let r = try_login_user(Some(&u), "anything");
    assert!(matches!(r, Ok(Login::Refused)));
    assert_eq!(r.ok().unwrap().redirect(), "/login");
}

#[test]
fn hash_password_then_login() {
    let pw = "disc golf".to_string();
    let h = hash_password(&pw);
    assert_ne!(h, pw);
    assert!(h.starts_with("$argon2i$m=4096,t=3,p=1$"));
    assert!(is_usable_stored_hash(&h));
    let u = user(12, &h, false, false);
    assert!(matches!(login_user(Some(&u), "disc golf"), Login::Accepted { .. }));
    assert!(matches!(login_user(Some(&u), "disc golf!"), Login::Refused));
}

#[test]
fn hash_password_salts_every_hash() {
    let pw = "same".to_string();
    assert_ne!(hash_password(&pw), hash_password(&pw));
}

#[test]
fn new_user_hashes_the_password() {
    let form = NewUser {
        name: "bob".to_string(),
        password: "hunter2".to_string(),
        admin: true,
        superadmin: false,
    };
    let stored = new_user(&form);
    assert_eq!(stored.name, "bob");
    assert!(stored.admin);
    assert!(!stored.superadmin);
    assert_ne!(stored.password, "hunter2");
    let u = user(5, &stored.password, true, false);
    match login_user(Some(&u), "hunter2") {
        Login::Accepted { user_id } => assert_eq!(user_id, "5"),
        Login::Refused => panic!("new user cannot log in"),
    }
}
