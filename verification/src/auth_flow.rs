use vstd::prelude::*;
use vstd::string::StringExecFns;
use crate::balance::{Balance, BalanceStore};
use crate::digits::{dec_digits, u64_to_dec};
use crate::errors::handle_validation_error;
use crate::models::{CheckOTP, LoginCredentials, Profile, RegisterPayload, ResetPassword, User};
use crate::otp::{spec_revoke_sweep, OtpStore};
use crate::password::{bcrypt_check, hash_cost, hash_password};
use crate::response::StandardResponse;
use crate::text::str_eq;
use crate::token::{count_matching, TokenSigning, TokenStore};
use crate::user_repository::UserRepository;
use crate::validation::{spec_register_errors, AuthValidator, ValidationError};

verus! {

/// Some active user carries the credential's username and the password
/// verifies against that user's stored hash: the exact condition under
/// which a login succeeds.
pub open spec fn spec_login_ok(repo: UserRepository, credentials: LoginCredentials) -> bool {
    exists|i: int|
        {
            &&& 0 <= i < repo.users@.len()
            &&& repo.users@[i].is_active()
            &&& repo.users@[i].username@ == credentials.username@
            &&& bcrypt_check(credentials.password@, repo.users@[i].password_hash@) == Some(true)
        }
}

/// The claims that a fresh session token carries for this user.
pub fn session_claims(user: &User, exp: usize) -> (r: TokenSigning)
    ensures
        r.id == user.id,
        r.first_name == user.first_name,
        r.last_name == user.last_name,
        r.email == user.email,
        r.role_id == user.role_id,
        r.exp == exp,
{
    TokenSigning {
        id: user.id,
        first_name: user.first_name.clone(),
        last_name: user.last_name.clone(),
        email: user.email.clone(),
        role_id: user.role_id,
        exp,
    }
}

/// The registration transaction's decision path: reject an invalid
/// payload with 400 and a taken username or mail address with 409, both
/// before anything is written; otherwise create the user with a hashed
/// password, open its zero balance in the same transaction, and hand back
/// the claims its session token will carry.
pub fn register(
    repo: &mut UserRepository,
    balances: &mut BalanceStore,
    payload: &RegisterPayload,
    now: i64,
    token_exp: usize,
) -> (r: Result<(User, Balance, TokenSigning), (u16, StandardResponse<()>)>)
    requires
        old(repo).wf(),
        old(repo).next_id < i64::MAX,
        old(balances).wf(),
        old(balances).next_balance_id < i64::MAX,
    ensures
        final(repo).wf(),
        final(balances).wf(),
        match r {
            Ok((user, balance, claims)) => {
                &&& spec_register_errors(*payload).len() == 0
                &&& !old(repo).spec_has_active_username(payload.username@)
                &&& !old(repo).spec_has_active_email(payload.email@)
                &&& final(repo).users@ == old(repo).users@.push(user)
                &&& user.username == payload.username
                &&& user.email == payload.email
                &&& user.first_name == payload.first_name
                &&& user.last_name == payload.last_name
                &&& user.phone == payload.phone
                &&& user.title == payload.title
                &&& user.image == payload.image
                &&& user.is_active()
                &&& bcrypt_check(payload.password@, user.password_hash@) == Some(true)
                &&& balance.user_id == user.id
                &&& balance.balance == 0
                &&& final(balances).balances@ == old(balances).balances@.push(balance)
                &&& final(balances).histories@ == old(balances).histories@
                &&& claims.id == user.id
                &&& claims.first_name == user.first_name
                &&& claims.last_name == user.last_name
                &&& claims.email == user.email
                &&& claims.role_id == user.role_id
                &&& claims.exp == token_exp
            },
            Err(resp) => {
                &&& !resp.1.success
                &&& resp.1.data is None
                &&& final(repo).users@ == old(repo).users@
                &&& final(repo).next_id == old(repo).next_id
                &&& final(balances).balances@ == old(balances).balances@
                &&& final(balances).histories@ == old(balances).histories@
                &&& (resp.0 == 400 || resp.0 == 409 || resp.0 == 500)
                &&& ((resp.0 == 400) <==> spec_register_errors(*payload).len() > 0)
                &&& ((resp.0 == 409) ==> (old(repo).spec_has_active_username(payload.username@)
                    || old(repo).spec_has_active_email(payload.email@)))
                &&& ((resp.0 == 409) ==> resp.1.message@
                    == "User with this username or email already exists"@)
                &&& ((resp.0 == 500) ==> !old(repo).spec_has_active_username(payload.username@)
                    && !old(repo).spec_has_active_email(payload.email@))
            },
        },
{
    if let Err(e) = AuthValidator::validate_register_payload(payload) {
        let errors = match e {
            ValidationError::Single(error) => {
                let mut es: Vec<String> = Vec::new();
                es.push(error);
                es
            },
            ValidationError::Multiple(errors) => errors,
        };
        let resp = handle_validation_error(errors);
        return Err(resp);
    }
    if duplicate_probe(repo, payload) {
        return Err(
            (
                409,
                StandardResponse::error(
                    "User with this username or email already exists".to_owned(),
                    Some("CONFLICT".to_owned()),
                ),
            ),
        );
    }
    let hashed = match hash_password(payload.password.as_str(), hash_cost()) {
        Ok(h) => h,
        Err(_) => {
            return Err(
                (
                    500,
                    StandardResponse::error(
                        "An internal error occurred".to_owned(),
                        Some("INTERNAL_ERROR".to_owned()),
                    ),
                ),
            );
        },
    };
    let user = match repo.create(payload, hashed.as_str()) {
        Ok(u) => u,
        Err(_) => {
            return Err(
                (
                    500,
                    StandardResponse::error(
                        "An internal error occurred".to_owned(),
                        Some("INTERNAL_ERROR".to_owned()),
                    ),
                ),
            );
        },
    };
    let balance = balances.create(user.id, now);
    let claims = session_claims(&user, token_exp);
    Ok((user, balance, claims))
}

/// The duplicate probe of registration.
fn duplicate_probe(repo: &UserRepository, payload: &RegisterPayload) -> (r: bool)
    ensures
        r == (repo.spec_has_active_username(payload.username@) || repo.spec_has_active_email(
            payload.email@,
        )),
{
    match repo.find_by_username_or_email(payload.username.as_str(), payload.email.as_str()) {
        Some(u) => {
            proof {
                let j = choose|j: int|
                    0 <= j < repo.users@.len() && repo.users@[j] == u;
                if u.username@ == payload.username@ {
                    assert(repo.spec_has_active_username(payload.username@));
                } else {
                    assert(repo.spec_has_active_email(payload.email@));
                }
            }
            true
        },
        None => false,
    }
}

/// The login decision: an unknown username answers 401, a wrong password
/// answers 401, and neither yields any session claims; only a verified
/// password hands the user back.
pub fn login_check(repo: &UserRepository, credentials: &LoginCredentials) -> (r: Result<
    User,
    (u16, StandardResponse<()>),
>)
    requires
        repo.wf(),
    ensures
        match r {
            Ok(user) => {
                &&& spec_login_ok(*repo, *credentials)
                &&& repo.users@.contains(user)
                &&& user.is_active()
                &&& user.username@ == credentials.username@
                &&& bcrypt_check(credentials.password@, user.password_hash@) == Some(true)
            },
            Err(resp) => {
                &&& !spec_login_ok(*repo, *credentials)
                &&& resp.0 == 401
                &&& !resp.1.success
                &&& resp.1.data is None
                &&& resp.1.message@ == "Invalid credentials"@
            },
        },
{
    let found = repo.find_by_username(credentials.username.as_str());
    match found {
        None => Err(
            (401, StandardResponse::error("Invalid credentials".to_owned(), None)),
        ),
        Some(user) => {
            if user.verify_password(credentials.password.as_str()) {
                proof {
                    let j = choose|j: int|
                        0 <= j < repo.users@.len() && repo.users@[j] == user;
                    assert(repo.users@[j].is_active() && repo.users@[j].username@
                        == credentials.username@ && bcrypt_check(
                        credentials.password@,
                        repo.users@[j].password_hash@,
                    ) == Some(true));
                }
                Ok(user)
            } else {
                proof {
                    let j = choose|j: int|
                        0 <= j < repo.users@.len() && repo.users@[j] == user;
                    if spec_login_ok(*repo, *credentials) {
                        let i = choose|i: int|
                            {
                                &&& 0 <= i < repo.users@.len()
                                &&& repo.users@[i].is_active()
                                &&& repo.users@[i].username@ == credentials.username@
                                &&& bcrypt_check(
                                    credentials.password@,
                                    repo.users@[i].password_hash@,
                                ) == Some(true)
                            };
                        if i != j {
                            assert(repo.users@[i].username@ == repo.users@[j].username@);
                        }
                    }
                }
                Err(
                    (401, StandardResponse::error("Invalid credentials".to_owned(), None)),
                )
            }
        },
    }
}

/// The envelope a logout answers with: a positive affected-row count in a
/// success envelope that names it, zero as a bare 401.
pub fn logout_response(rows_affected: u64) -> (r: (u16, StandardResponse<u64>))
    ensures
        rows_affected > 0 ==> {
            &&& r.0 == 200
            &&& r.1.success
            &&& r.1.data == Some(rows_affected)
            &&& r.1.message@ == "rows affected: "@ + dec_digits(rows_affected as nat)
        },
        rows_affected == 0 ==> {
            &&& r.0 == 401
            &&& !r.1.success
            &&& r.1.data is None
        },
{
    if rows_affected > 0 {
        let mut message = "rows affected: ".to_owned();
        let digits = u64_to_dec(rows_affected);
        message.append(digits.as_str());
        (200, StandardResponse::ok(rows_affected, Some(message)))
    } else {
        (401, StandardResponse::error("Unauthorized".to_owned(), None))
    }
}

/// The logout decision: revokes every record of the presented token; a
/// token the store never issued answers 401, otherwise the count of
/// touched records comes back in a success envelope. Revocation is
/// one-way: no record's flag is ever cleared.
pub fn logout(tokens: &mut TokenStore, token: &str, now: i64) -> (r: (
    u16,
    StandardResponse<u64>,
))
    ensures
        final(tokens).records@.len() == old(tokens).records@.len(),
        forall|i: int|
            0 <= i < old(tokens).records@.len() && old(tokens).records@[i].is_revoked
                ==> final(tokens).records@[i].is_revoked,
        ({
            let count = count_matching(old(tokens).records@, token@);
            if count > 0 {
                &&& r.0 == 200
                &&& r.1.success
                &&& (r.1.data matches Some(c) && c == count)
                &&& r.1.message@ == "rows affected: "@ + dec_digits(count)
                &&& final(tokens).spec_is_revoked(token@)
            } else {
                &&& r.0 == 401
                &&& !r.1.success
                &&& final(tokens).records@ == old(tokens).records@
            }
        }),
{
    let ghost orig = tokens.records@;
    let affected = tokens.revoke_token(token, now);
    if affected == 0 {
        proof {
            assert(tokens.records@ =~= orig);
        }
    }
    logout_response(affected)
}

/// The forgot-password gate: a mail address that no active user carries
/// answers 404; a known one lets the code generation and mail sending
/// proceed.
pub fn forgot_password_decision(found: &Option<User>) -> (r: Option<(u16, StandardResponse<()>)>)
    ensures
        match found {
            Some(_) => r is None,
            None => (r matches Some(resp) && resp.0 == 404 && !resp.1.success && resp.1.data
                is None && resp.1.message@ == "User not found"@),
        },
{
    match found {
        Some(_) => None,
        None => Some((404, StandardResponse::error("User not found".to_owned(), None))),
    }
}

/// The envelope a code check answers with, from what the store reported:
/// no such code is 404, a consumed or expired one 409, a live one 200.
pub fn check_otp_response(code_found: bool, revoked_rows: u64) -> (r: (
    u16,
    StandardResponse<()>,
))
    ensures
        !r.1.success ==> r.1.data is None,
        !code_found ==> {
            &&& r.0 == 404
            &&& !r.1.success
            &&& r.1.message@ == "OTP code not found."@
        },
        code_found && revoked_rows > 0 ==> {
            &&& r.0 == 200
            &&& r.1.success
            &&& r.1.message@ == "OTP check success. Your code is valid"@
        },
        code_found && revoked_rows == 0 ==> {
            &&& r.0 == 409
            &&& !r.1.success
        },
{
    if !code_found {
        (404, StandardResponse::error("OTP code not found.".to_owned(), None))
    } else if revoked_rows > 0 {
        (
            200,
            StandardResponse::ok((), Some("OTP check success. Your code is valid".to_owned())),
        )
    } else {
        (
            409,
            StandardResponse::error(
                "OTP check failed. Your code is expired or invalid, please try again.".to_owned(),
                None,
            ),
        )
    }
}

/// The code-check transaction: an unknown code answers 404; a known but
/// consumed or expired one answers 409; a live one is consumed — once —
/// and answers 200. After a 200 the same code can never pass again.
pub fn check_otp(store: &mut OtpStore, data: &CheckOTP, now: i64) -> (r: (
    u16,
    StandardResponse<()>,
))
    ensures
        final(store).next_id == old(store).next_id,
        !r.1.success ==> r.1.data is None,
        if !old(store).spec_contains_code(data.code@) {
            &&& r.0 == 404
            &&& !r.1.success
            &&& final(store).records@ == old(store).records@
            &&& r.1.message@ == "OTP code not found."@
        } else if old(store).spec_can_revoke(data.code@, now) {
            &&& r.0 == 200
            &&& r.1.success
            &&& final(store).records@ == spec_revoke_sweep(old(store).records@, data.code@, now)
            &&& (forall|later: i64| now <= later ==> !final(store).spec_can_revoke(data.code@, later))
            &&& r.1.message@ == "OTP check success. Your code is valid"@
        } else {
            &&& r.0 == 409
            &&& !r.1.success
            &&& final(store).records@ == spec_revoke_sweep(old(store).records@, data.code@, now)
        },
{
    match store.check_code(data.code.as_str()) {
        None => check_otp_response(false, 0),
        Some(_rec) => {
            let revoked = store.revoke_code(data.code.as_str(), now);
            check_otp_response(true, revoked)
        },
    }
}

/// The reset-password gate: an unknown mail address answers 404 and a
/// mismatched confirmation 409; only a matching pair lets the update
/// proceed.
pub fn reset_password_check(found: &Option<User>, data: &ResetPassword) -> (r: Option<
    (u16, StandardResponse<()>),
>)
    ensures
        match found {
            None => (r matches Some(resp) && resp.0 == 404 && !resp.1.success && resp.1.message@
                == "User not found. Please try again."@),
            Some(_) => {
                if data.new_password@ != data.confirm_password@ {
                    r matches Some(resp) && resp.0 == 409 && !resp.1.success && resp.1.message@
                        == "Password not match. Please try again."@
                } else {
                    r is None
                }
            },
        },
{
    match found {
        None => Some(
            (404, StandardResponse::error("User not found. Please try again.".to_owned(), None)),
        ),
        Some(_) => {
            if !str_eq(data.new_password.as_str(), data.confirm_password.as_str()) {
                Some(
                    (
                        409,
                        StandardResponse::error(
                            "Password not match. Please try again.".to_owned(),
                            None,
                        ),
                    ),
                )
            } else {
                None
            }
        },
    }
}

/// The profile read: a found user answers 200 with its public profile, a
/// missing one 404 with empty data.
pub fn profile_response(found: Option<User>) -> (r: (u16, StandardResponse<Profile>))
    ensures
        match found {
            Some(u) => {
                &&& r.0 == 200
                &&& r.1.success
                &&& (r.1.data matches Some(p) && p.id == u.id && p.username == u.username
                    && p.email == u.email && p.first_name == u.first_name && p.last_name
                    == u.last_name && p.phone == u.phone && p.title == u.title && p.image
                    == u.image && p.role_id == u.role_id)
                &&& r.1.message@ == "User found"@
            },
            None => {
                &&& r.0 == 404
                &&& !r.1.success
                &&& r.1.data is None
                &&& r.1.message@ == "User not found."@
            },
        },
{
    match found {
        Some(user) => {
            let profile = Profile::of_user(&user);
            (200, StandardResponse::ok(profile, Some("User found".to_owned())))
        },
        None => (404, StandardResponse::error("User not found.".to_owned(), None)),
    }
}

} // verus!
