use karcis::auth_flow::{
    check_otp, forgot_password_decision, login_check, logout, profile_response, register,
    reset_password_check, session_claims,
};
use karcis::balance::BalanceStore;
use karcis::models::{CheckOTP, LoginCredentials, RegisterPayload, ResetPassword};
use karcis::otp::OtpStore;
use karcis::token::TokenStore;
use karcis::user_repository::UserRepository;

fn payload(
    first: &str,
    last: &str,
    username: &str,
    email: &str,
    password: &str,
    phone: &str,
) -> RegisterPayload {
    RegisterPayload {
        first_name: first.to_string(),
        last_name: last.to_string(),
        username: username.to_string(),
        email: email.to_string(),
        password: password.to_string(),
        phone: phone.to_string(),
        title: "Member".to_string(),
        image: "default.png".to_string(),
    }
}

#[test]
fn test_login() {
    let mut repo = UserRepository::new();
    let mut balances = BalanceStore::new();
    let p = payload(
        "Test",
        "User",
        "testuser",
        "test@example.com",
        "password123",
        "1234567890",
    );
    register(&mut repo, &mut balances, &p, 0, 3600).expect("Failed to create test user");

    // valid login succeeds
    let ok = login_check(
        &repo,
        &LoginCredentials {
            username: "testuser".to_string(),
            password: "password123".to_string(),
        },
    );
    assert!(ok.is_ok());

    // wrong password is rejected with 401 and yields no user
    let bad = login_check(
        &repo,
        &LoginCredentials {
            username: "testuser".to_string(),
            password: "wrongpassword".to_string(),
        },
    );
    match bad {
        Ok(_) => panic!("login with a wrong password must fail"),
        Err((status, resp)) => {
            assert_eq!(status, 401);
            assert!(!resp.success);
            assert_eq!(resp.message, "Invalid credentials");
        }
    }
}

#[test]
fn test_register() {
    let mut repo = UserRepository::new();
    let mut balances = BalanceStore::new();
    let p = payload(
        "New",
        "User",
        "newuser",
        "new@example.com",
        "newpassword123",
        "9876543210",
    );
    let created = register(&mut repo, &mut balances, &p, 0, 3600);
    assert!(created.is_ok());

    // the user is now in the store, with its zero balance
    let found = repo.find_by_username("newuser");
    assert!(found.is_some());
    let user = found.unwrap();
    assert_eq!(user.email, "new@example.com");
    let balance = balances.get_by_user(user.id).expect("balance row missing");
    assert_eq!(balance.balance, 0);
}

#[test]
fn test_get_profile() {
    let mut repo = UserRepository::new();
    let mut balances = BalanceStore::new();
    let p = payload(
        "Profile",
        "Test",
        "profiletest",
        "profile@example.com",
        "profilepass123",
        "5555555555",
    );
    let (user, _, _) =
        register(&mut repo, &mut balances, &p, 0, 3600).expect("Failed to create test user");

    let (status, resp) = profile_response(repo.find_by_id(user.id));
    assert_eq!(status, 200);
    assert!(resp.success);
    let profile = resp.data.unwrap();
    assert_eq!(profile.username, "profiletest");
    assert_eq!(profile.first_name, "Profile");

    // a non-existent user answers 404 with empty data
    let (status, resp) = profile_response(repo.find_by_id(99999));
    assert_eq!(status, 404);
    assert!(!resp.success);
    assert!(resp.data.is_none());
}

#[test]
fn register_taken_username_is_conflict() {
    let mut repo = UserRepository::new();
    let mut balances = BalanceStore::new();
    let alice = payload("Alice", "A", "alice", "a@x.com", "p", "1234567890");
    register(&mut repo, &mut balances, &alice, 0, 3600).expect("first registration");
    let rows_before = repo.users.len();

    // the same username again: a conflict envelope, not a duplicate row
    let again = payload("Alice", "B", "alice", "other@x.com", "p2", "1234567891");
    match register(&mut repo, &mut balances, &again, 1, 3600) {
        Ok(_) => panic!("a taken username must be rejected"),
        Err((status, resp)) => {
            assert_eq!(status, 409);
            assert!(!resp.success);
            assert_eq!(
                resp.message,
                "User with this username or email already exists"
            );
        }
    }
    assert_eq!(repo.users.len(), rows_before);

    // a taken mail address is a conflict too
    let mail_taken = payload("Eve", "E", "eve", "a@x.com", "p3", "1234567892");
    let r = register(&mut repo, &mut balances, &mail_taken, 2, 3600);
    assert_eq!(r.err().map(|(s, _)| s), Some(409));
    assert_eq!(repo.users.len(), rows_before);
}

#[test]
fn register_invalid_payload_is_400() {
    let mut repo = UserRepository::new();
    let mut balances = BalanceStore::new();
    let bad = payload("", "User", "u1", "not-an-email", "pw", "abc");
    match register(&mut repo, &mut balances, &bad, 0, 3600) {
        Ok(_) => panic!("an invalid payload must be rejected"),
        Err((status, resp)) => {
            assert_eq!(status, 400);
            assert!(!resp.success);
            assert!(resp.message.starts_with("Validation failed: "));
            assert!(resp.message.contains("First Name is required"));
            assert!(resp.message.contains("Invalid email format"));
            assert!(resp.message.contains("Invalid phone number format"));
        }
    }
    assert_eq!(repo.users.len(), 0);
}

#[test]
fn session_claims_carry_identity() {
    let mut repo = UserRepository::new();
    let mut balances = BalanceStore::new();
    let p = payload("Cara", "C", "cara", "c@x.com", "pw123", "1234500000");
    let (user, _, claims) =
        register(&mut repo, &mut balances, &p, 0, 7777).expect("registration");
    assert_eq!(claims.id, user.id);
    assert_eq!(claims.email, "c@x.com");
    assert_eq!(claims.exp, 7777);
    let again = session_claims(&user, 8888);
    assert_eq!(again.role_id, user.role_id);
    assert_eq!(again.exp, 8888);
}

#[test]
fn logout_revokes_and_reports_rows() {
    let mut tokens = TokenStore::new();
    tokens.create("tok-abc", 10);
    assert!(!tokens.is_token_revoked("tok-abc"));

    let (status, resp) = logout(&mut tokens, "tok-abc", 11);
    assert_eq!(status, 200);
    assert!(resp.success);
    assert_eq!(resp.data, Some(1));
    assert_eq!(resp.message, "rows affected: 1");
    assert!(tokens.is_token_revoked("tok-abc"));

    // a token the store never issued answers 401
    let (status, resp) = logout(&mut tokens, "unknown", 12);
    assert_eq!(status, 401);
    assert!(!resp.success);
}

#[test]
fn forgot_password_unknown_mail_is_404() {
    let repo = UserRepository::new();
    let missing = repo.find_by_email("ghost@x.com");
    let rejection = forgot_password_decision(&missing);
    let (status, resp) = rejection.expect("an unknown address must be rejected");
    assert_eq!(status, 404);
    assert_eq!(resp.message, "User not found");

    let mut repo = UserRepository::new();
    let mut balances = BalanceStore::new();
    let p = payload("Dan", "D", "dan", "dan@x.com", "pw", "1234511111");
    register(&mut repo, &mut balances, &p, 0, 3600).expect("registration");
    assert!(forgot_password_decision(&repo.find_by_email("dan@x.com")).is_none());
}

#[test]
fn otp_code_single_use() {
    let mut store = OtpStore::new();
    store.create("123456", 5, 1_000);
    let body = CheckOTP {
        code: "123456".to_string(),
    };

    // the live code passes once
    let (status, resp) = check_otp(&mut store, &body, 1_010);
    assert_eq!(status, 200);
    assert!(resp.success);
    assert_eq!(resp.message, "OTP check success. Your code is valid");

    // consumed: a second check can never pass again
    let (status, resp) = check_otp(&mut store, &body, 1_020);
    assert_eq!(status, 409);
    assert!(!resp.success);

    // an unknown code answers 404
    let unknown = CheckOTP {
        code: "999999".to_string(),
    };
    let (status, _) = check_otp(&mut store, &unknown, 1_030);
    assert_eq!(status, 404);
}

#[test]
fn otp_expired_code_does_not_pass() {
    let mut store = OtpStore::new();
    store.create("654321", 5, 1_000); // expires at 1_300
    let body = CheckOTP {
        code: "654321".to_string(),
    };
    let (status, _) = check_otp(&mut store, &body, 2_000);
    assert_eq!(status, 409);
}

#[test]
fn reset_password_gates() {
    let mut repo = UserRepository::new();
    let mut balances = BalanceStore::new();
    let p = payload("Eli", "E", "eli", "eli@x.com", "pw", "1234522222");
    register(&mut repo, &mut balances, &p, 0, 3600).expect("registration");

    let data = ResetPassword {
        email: "eli@x.com".to_string(),
        new_password: "fresh1".to_string(),
        confirm_password: "fresh2".to_string(),
    };
    let found = repo.find_by_email("eli@x.com");
    let (status, resp) = reset_password_check(&found, &data).expect("mismatch must be rejected");
    assert_eq!(status, 409);
    assert_eq!(resp.message, "Password not match. Please try again.");

    let matching = ResetPassword {
        email: "eli@x.com".to_string(),
        new_password: "fresh1".to_string(),
        confirm_password: "fresh1".to_string(),
    };
    assert!(reset_password_check(&found, &matching).is_none());

    let nobody = repo.find_by_email("nobody@x.com");
    let (status, _) = reset_password_check(&nobody, &matching).expect("404 expected");
    assert_eq!(status, 404);
}
