use karcis::models::{LoginPayload, RegisterPayload, RegisterUser};
use karcis::validation::{
    check_email, check_phone, validate_register_user, AuthValidator, ValidationError,
};

fn valid_payload() -> RegisterPayload {
    RegisterPayload {
        first_name: "Ann".to_string(),
        last_name: "Lee".to_string(),
        username: "annlee".to_string(),
        email: "ann.lee-1@mail.example.com".to_string(),
        password: "secret".to_string(),
        phone: "+6281234567890".to_string(),
        title: "Member".to_string(),
        image: "ann.png".to_string(),
    }
}

#[test]
fn email_grammar_accepts_well_formed_addresses() {
    assert!(check_email("a@x.com"));
    assert!(check_email("user.name-x@mail.co.uk"));
    assert!(check_email("a_b@c-d.org"));
    assert!(check_email("1@2.3"));
}

#[test]
fn email_grammar_rejects_malformed_addresses() {
    assert!(!check_email(""));
    assert!(!check_email("ax.com"));
    assert!(!check_email("a@x"));
    assert!(!check_email("@x.com"));
    assert!(!check_email("a@.com"));
    assert!(!check_email("a@x."));
    assert!(!check_email("a@x.c om"));
    assert!(!check_email("a b@x.com"));
    assert!(!check_email("a@x_y@z.com"));
    assert!(!check_email("a@@x.com"));
}

#[test]
fn phone_grammar() {
    assert!(check_phone("1234567890"));
    assert!(check_phone("+6281234567890"));
    assert!(check_phone("12"));
    assert!(check_phone("+12"));
    assert!(!check_phone(""));
    assert!(!check_phone("+"));
    assert!(!check_phone("1"));
    assert!(!check_phone("0123456789"));
    assert!(!check_phone("1234567890123456"));
    assert!(!check_phone("12a4567890"));
}

#[test]
fn register_validator_passes_a_complete_payload() {
    assert!(AuthValidator::validate_register_payload(&valid_payload()).is_ok());
}

#[test]
fn register_validator_reports_every_failure_in_order() {
    let mut p = valid_payload();
    p.first_name = String::new();
    p.email = "bad".to_string();
    p.phone = "0x".to_string();
    match AuthValidator::validate_register_payload(&p) {
        Ok(_) => panic!("an invalid payload must fail"),
        Err(ValidationError::Multiple(errors)) => {
            assert_eq!(
                errors,
                vec![
                    "First Name is required".to_string(),
                    "Invalid email format".to_string(),
                    "Invalid phone number format".to_string(),
                ]
            );
        }
        Err(_) => panic!("the register validator reports a message list"),
    }
}

#[test]
fn register_validator_empty_email_gets_both_messages() {
    let mut p = valid_payload();
    p.email = String::new();
    match AuthValidator::validate_register_payload(&p) {
        Err(ValidationError::Multiple(errors)) => {
            assert!(errors.contains(&"Email is required".to_string()));
            assert!(errors.contains(&"Invalid email format".to_string()));
        }
        _ => panic!("an empty email must fail"),
    }
}

#[test]
fn login_validator() {
    let ok = LoginPayload {
        username: "ann".to_string(),
        password: "pw".to_string(),
    };
    assert!(AuthValidator::validate_login_payload(&ok).is_ok());

    let bad = LoginPayload {
        username: String::new(),
        password: String::new(),
    };
    match AuthValidator::validate_login_payload(&bad) {
        Err(ValidationError::Multiple(errors)) => {
            assert_eq!(
                errors,
                vec![
                    "Username is required".to_string(),
                    "Password is required".to_string(),
                ]
            );
        }
        _ => panic!("empty credentials must fail"),
    }
}

#[test]
fn register_user_helper_joins_messages() {
    let user = RegisterUser {
        first_name: String::new(),
        last_name: String::new(),
        username: "u".to_string(),
        email: "e@x.com".to_string(),
        password: "p".to_string(),
        phone: "1234567890".to_string(),
        title: "t".to_string(),
        image: "i".to_string(),
    };
    match validate_register_user(&user) {
        Err(msg) => assert_eq!(msg, "First Name is required,Last Name is required"),
        Ok(_) => panic!("missing names must fail"),
    }

    let complete = RegisterUser {
        first_name: "A".to_string(),
        last_name: "B".to_string(),
        username: "u".to_string(),
        email: "e@x.com".to_string(),
        password: "p".to_string(),
        phone: "1234567890".to_string(),
        title: "t".to_string(),
        image: "i".to_string(),
    };
    assert!(validate_register_user(&complete).is_ok());
}
