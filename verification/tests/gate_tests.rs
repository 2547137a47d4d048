use karcis::gate::{
    require_admin, require_any_role, require_roles, require_user, Authentication, Authorization,
    AuthorizationConfig, Claims, GateStep, HasRole,
};
use karcis::models::User;
use karcis::token::TokenStore;

fn claims_for(id: i64, role_id: i32) -> Claims {
    Claims {
        id,
        first_name: "Gate".to_string(),
        last_name: "Tester".to_string(),
        email: "gate@x.com".to_string(),
        role_id,
        exp: 9999,
    }
}

fn user_with_role(id: i64, role_id: i32) -> User {
    User {
        id,
        first_name: "Gate".to_string(),
        last_name: "Tester".to_string(),
        username: "gatetester".to_string(),
        email: "gate@x.com".to_string(),
        password_hash: "irrelevant".to_string(),
        title: "t".to_string(),
        image: "i".to_string(),
        phone: "1234567890".to_string(),
        role_id,
        deleted_at: None,
    }
}

#[test]
fn missing_header_is_401() {
    let auth = Authorization::new(AuthorizationConfig::default());
    assert!(matches!(
        auth.on_header(None),
        GateStep::Reject { status: 401 }
    ));
}

#[test]
fn malformed_header_is_401() {
    let auth = Authorization::new(AuthorizationConfig::default());
    assert!(matches!(
        auth.on_header(Some("Token abc")),
        GateStep::Reject { status: 401 }
    ));
    assert!(matches!(
        auth.on_header(Some("Bearer")),
        GateStep::Reject { status: 401 }
    ));
    assert!(matches!(
        auth.on_header(Some("bearer abc")),
        GateStep::Reject { status: 401 }
    ));
}

#[test]
fn well_formed_header_yields_the_token() {
    let auth = Authorization::new(AuthorizationConfig::default());
    match auth.on_header(Some("Bearer abc.def.ghi")) {
        GateStep::AskRevocation { token } => assert_eq!(token, "abc.def.ghi"),
        _ => panic!("a well-formed header must reach the revocation check"),
    }
}

#[test]
fn revoked_token_is_rejected_on_reuse() {
    // issue, then log out, then present the same token again
    let mut tokens = TokenStore::new();
    tokens.create("abc.def.ghi", 100);
    tokens.revoke_token("abc.def.ghi", 200);

    let auth = require_user();
    let step = auth.on_header(Some("Bearer abc.def.ghi"));
    match step {
        GateStep::AskRevocation { token } => {
            let revoked = tokens.is_token_revoked(&token);
            assert!(revoked);
            assert!(matches!(
                auth.on_revocation(token, revoked),
                GateStep::Reject { status: 401 }
            ));
        }
        _ => panic!("the token must reach the revocation check"),
    }
}

#[test]
fn unrevoked_token_proceeds_to_decode() {
    let mut tokens = TokenStore::new();
    tokens.create("live-token", 100);
    let auth = require_user();
    let revoked = tokens.is_token_revoked("live-token");
    assert!(!revoked);
    match auth.on_revocation("live-token".to_string(), revoked) {
        GateStep::AskDecode { token } => assert_eq!(token, "live-token"),
        _ => panic!("an unrevoked token must proceed"),
    }
}

#[test]
fn undecodable_token_is_401() {
    let auth = require_user();
    assert!(matches!(
        auth.on_decode("garbage".to_string(), None),
        GateStep::Reject { status: 401 }
    ));
}

#[test]
fn missing_user_is_401_and_wrong_role_is_403() {
    let auth = require_admin(); // requires role 1
    let claims = claims_for(7, 2);

    assert!(matches!(
        auth.on_user("t".to_string(), claims_for(7, 2), None),
        GateStep::Reject { status: 401 }
    ));

    let regular = user_with_role(7, 2);
    assert!(matches!(
        auth.on_user("t".to_string(), claims, Some(regular)),
        GateStep::Reject { status: 403 }
    ));

    let admin = user_with_role(8, 1);
    match auth.on_user("t".to_string(), claims_for(8, 1), Some(admin)) {
        GateStep::Allow { user, .. } => assert_eq!(user.id, 8),
        _ => panic!("an admin must pass the admin gate"),
    }
}

#[test]
fn empty_role_list_admits_any_role() {
    let auth = require_any_role(Vec::new());
    let user = user_with_role(9, 42);
    assert!(matches!(
        auth.on_user("t".to_string(), claims_for(9, 42), Some(user)),
        GateStep::Allow { .. }
    ));
}

#[test]
fn role_list_admits_members() {
    let auth = require_roles(vec![3, 5, 7]);
    let member = user_with_role(1, 5);
    assert!(matches!(
        auth.on_user("t".to_string(), claims_for(1, 5), Some(member)),
        GateStep::Allow { .. }
    ));
    let outsider = user_with_role(2, 4);
    assert!(matches!(
        auth.on_user("t".to_string(), claims_for(2, 4), Some(outsider)),
        GateStep::Reject { status: 403 }
    ));
}

#[test]
fn authentication_middleware_decision() {
    assert_eq!(Authentication::decide(None, false), Some(401));
    assert_eq!(Authentication::decide(Some("anything"), true), Some(401));
    assert_eq!(Authentication::decide(Some("anything"), false), None);
}

#[test]
fn has_role_compares_names() {
    let gate = HasRole::new("admin".to_string());
    assert!(gate.allows("admin"));
    assert!(!gate.allows("user"));
    assert!(!gate.allows("Admin"));
}

#[test]
fn soft_deleted_user_never_reaches_the_handler() {
    // the user lookup filters soft-deleted rows and returns nothing
    let mut repo = karcis::user_repository::UserRepository::new();
    let mut balances = karcis::balance::BalanceStore::new();
    let p = karcis::models::RegisterPayload {
        first_name: "Del".to_string(),
        last_name: "Eted".to_string(),
        username: "deleted_user".to_string(),
        email: "del@x.com".to_string(),
        password: "pw".to_string(),
        phone: "1234567890".to_string(),
        title: "t".to_string(),
        image: "i".to_string(),
    };
    let (user, _, _) =
        karcis::auth_flow::register(&mut repo, &mut balances, &p, 0, 3600).expect("registration");
    assert!(repo.delete(user.id, 50));

    let auth = require_user();
    let found = repo.find_by_id(user.id);
    assert!(found.is_none());
    assert!(matches!(
        auth.on_user("t".to_string(), claims_for(user.id, 2), found),
        GateStep::Reject { status: 401 }
    ));
}

#[test]
fn full_chain_decision() {
    let auth = require_admin();

    // a revoked token loses whatever else the evidence says
    assert!(matches!(
        auth.decide(
            Some("Bearer t"),
            true,
            Some(claims_for(1, 1)),
            Some(user_with_role(1, 1))
        ),
        GateStep::Reject { status: 401 }
    ));

    // the full happy path
    assert!(matches!(
        auth.decide(
            Some("Bearer t"),
            false,
            Some(claims_for(1, 1)),
            Some(user_with_role(1, 1))
        ),
        GateStep::Allow { .. }
    ));

    // a decodable token of the wrong role
    assert!(matches!(
        auth.decide(
            Some("Bearer t"),
            false,
            Some(claims_for(2, 2)),
            Some(user_with_role(2, 2))
        ),
        GateStep::Reject { status: 403 }
    ));

    // no header at all
    assert!(matches!(
        auth.decide(None, false, None, None),
        GateStep::Reject { status: 401 }
    ));
}
