use vstd::prelude::*;
use vstd::string::StrSliceExecFns;
use crate::models::{LoginPayload, RegisterPayload, RegisterUser};

verus! {

// ---------------------------------------------------------------------------
// Character classes of the validation grammar (ASCII word characters, the
// characters allowed around them in mail addresses, and decimal digits).
// ---------------------------------------------------------------------------

/// An ASCII word character: a letter, a digit or an underscore.
pub open spec fn is_word_char(c: char) -> bool {
    ||| ('a' as u32) <= (c as u32) && (c as u32) <= ('z' as u32)
    ||| ('A' as u32) <= (c as u32) && (c as u32) <= ('Z' as u32)
    ||| ('0' as u32) <= (c as u32) && (c as u32) <= ('9' as u32)
    ||| c == '_'
}

/// A character allowed in the parts of a mail address around the `@`:
/// a word character, a dot or a hyphen.
pub open spec fn is_local_char(c: char) -> bool {
    is_word_char(c) || c == '.' || c == '-'
}

/// A decimal digit.
pub open spec fn is_digit_char(c: char) -> bool {
    ('0' as u32) <= (c as u32) && (c as u32) <= ('9' as u32)
}

fn check_word_char(c: char) -> (r: bool)
    ensures
        r == is_word_char(c),
{
    let u = c as u32;
    (('a' as u32) <= u && u <= ('z' as u32)) || (('A' as u32) <= u && u <= ('Z' as u32)) || (('0'
        as u32) <= u && u <= ('9' as u32)) || c == '_'
}

fn check_local_char(c: char) -> (r: bool)
    ensures
        r == is_local_char(c),
{
    check_word_char(c) || c == '.' || c == '-'
}

fn check_digit_char(c: char) -> (r: bool)
    ensures
        r == is_digit_char(c),
{
    let u = c as u32;
    ('0' as u32) <= u && u <= ('9' as u32)
}

// ---------------------------------------------------------------------------
// The mail-address grammar: one or more local characters, an `@`, one or
// more local characters, a dot, and a trailing run of word characters.
// ---------------------------------------------------------------------------

/// `a` and `d` split `s` into a valid mail address: `s[..a]` is the
/// non-empty local part, `s[a]` is the `@`, `s[a+1..d]` is the non-empty
/// domain head, `s[d]` is the final dot, and `s[d+1..]` is the non-empty
/// all-word tail.
pub open spec fn email_split_ok(s: Seq<char>, a: int, d: int) -> bool {
    &&& 0 < a
    &&& a + 1 < d
    &&& d + 1 < s.len()
    &&& s[a] == '@'
    &&& s[d] == '.'
    &&& (forall|i: int| 0 <= i < a ==> is_local_char(s[i]))
    &&& (forall|i: int| a < i < d ==> is_local_char(s[i]))
    &&& (forall|i: int| d < i < s.len() ==> is_word_char(s[i]))
}

/// A valid mail address splits at some `@` and some final dot.
pub open spec fn is_valid_email(s: Seq<char>) -> bool {
    exists|a: int, d: int| email_split_ok(s, a, d)
}

/// Every run of local characters excludes `@`, and every run of word
/// characters excludes `.`, so a split is pinned to the first `@` of the
/// string and the last `.` of the string.
proof fn lemma_email_split_pinned(s: Seq<char>, x: int, y: int, a: int, d: int)
    requires
        email_split_ok(s, x, y),
        0 <= a < s.len(),
        s[a] == '@',
        forall|j: int| 0 <= j < a ==> s[j] != '@',
        0 <= d < s.len(),
        s[d] == '.',
        forall|j: int| d < j < s.len() ==> s[j] != '.',
    ensures
        x == a,
        y == d,
{
    assert(!is_local_char('@'));
    assert(!is_word_char('@'));
    assert(!is_word_char('.'));
    if x < a {
        assert(s[x] != '@');
    }
    if x > a {
        assert(is_local_char(s[a]));
    }
    if y < d {
        assert(is_word_char(s[d]));
    }
    if y > d {
        assert(s[y] != '.');
    }
}

fn all_local_chars(s: &str, from: usize, to: usize) -> (r: bool)
    requires
        from <= to <= s@.len(),
    ensures
        r == forall|j: int| from <= j < to ==> is_local_char(s@[j]),
{
    let mut i: usize = from;
    while i < to
        invariant
            from <= i <= to <= s@.len(),
            forall|j: int| from <= j < i ==> is_local_char(s@[j]),
        decreases to - i,
    {
        if !check_local_char(s.get_char(i)) {
            return false;
        }
        i += 1;
    }
    true
}

fn all_word_chars(s: &str, from: usize, to: usize) -> (r: bool)
    requires
        from <= to <= s@.len(),
    ensures
        r == forall|j: int| from <= j < to ==> is_word_char(s@[j]),
{
    let mut i: usize = from;
    while i < to
        invariant
            from <= i <= to <= s@.len(),
            forall|j: int| from <= j < i ==> is_word_char(s@[j]),
        decreases to - i,
    {
        if !check_word_char(s.get_char(i)) {
            return false;
        }
        i += 1;
    }
    true
}

/// Decides the mail-address grammar exactly.
pub fn check_email(s: &str) -> (r: bool)
    ensures
        r == is_valid_email(s@),
{
    let n = s.unicode_len();
    // find the first '@'
    let mut a: usize = 0;
    while a < n && s.get_char(a) != '@'
        invariant
            0 <= a <= n,
            n == s@.len(),
            forall|j: int| 0 <= j < a ==> s@[j] != '@',
        decreases n - a,
    {
        a += 1;
    }
    if a == 0 || a >= n {
        proof {
            assert forall|x: int, y: int| !email_split_ok(s@, x, y) by {
                if email_split_ok(s@, x, y) {
                    assert(!is_local_char('@'));
                    if a >= n {
                        assert(s@[x] != '@');
                    } else {
                        // a == 0, so s@[0] == '@', yet the local part covers 0
                        assert(is_local_char(s@[0]));
                    }
                }
            }
        }
        return false;
    }
    // s@[a] is the first '@'; find the last '.'
    let mut i: usize = 0;
    let mut d: usize = 0;
    let mut found_dot = false;
    while i < n
        invariant
            0 <= i <= n,
            n == s@.len(),
            found_dot ==> 0 <= d < i && s@[d as int] == '.',
            found_dot ==> forall|j: int| d < j < i ==> s@[j] != '.',
            !found_dot ==> forall|j: int| 0 <= j < i ==> s@[j] != '.',
        decreases n - i,
    {
        if s.get_char(i) == '.' {
            d = i;
            found_dot = true;
        }
        i += 1;
    }
    if !found_dot {
        proof {
            assert forall|x: int, y: int| !email_split_ok(s@, x, y) by {
                if email_split_ok(s@, x, y) {
                    assert(s@[y] != '.');
                }
            }
        }
        return false;
    }
    if d <= a + 1 || d + 1 >= n {
        proof {
            assert forall|x: int, y: int| !email_split_ok(s@, x, y) by {
                if email_split_ok(s@, x, y) {
                    lemma_email_split_pinned(s@, x, y, a as int, d as int);
                }
            }
        }
        return false;
    }
    let local_head = all_local_chars(s, 0, a);
    let local_mid = all_local_chars(s, a + 1, d);
    let word_tail = all_word_chars(s, d + 1, n);
    if local_head && local_mid && word_tail {
        proof {
            assert(email_split_ok(s@, a as int, d as int));
        }
        true
    } else {
        proof {
            assert forall|x: int, y: int| !email_split_ok(s@, x, y) by {
                if email_split_ok(s@, x, y) {
                    lemma_email_split_pinned(s@, x, y, a as int, d as int);
                }
            }
        }
        false
    }
}

// ---------------------------------------------------------------------------
// The phone grammar: an optional `+`, a leading digit `1`..`9`, and one to
// fourteen further digits.
// ---------------------------------------------------------------------------

/// The digit run of a phone number: two to fifteen characters, the first in
/// `1`..`9`, the rest digits.
pub open spec fn phone_digits_ok(t: Seq<char>) -> bool {
    &&& 2 <= t.len() <= 15
    &&& ('1' as u32) <= (t[0] as u32) && (t[0] as u32) <= ('9' as u32)
    &&& forall|i: int| 1 <= i < t.len() ==> is_digit_char(t[i])
}

/// A valid phone number: the digit run, optionally preceded by `+`.
pub open spec fn is_valid_phone(s: Seq<char>) -> bool {
    if s.len() > 0 && s[0] == '+' {
        phone_digits_ok(s.skip(1))
    } else {
        phone_digits_ok(s)
    }
}

/// Decides the phone grammar exactly.
pub fn check_phone(s: &str) -> (r: bool)
    ensures
        r == is_valid_phone(s@),
{
    let n = s.unicode_len();
    if n == 0 {
        return false;
    }
    let start: usize = if s.get_char(0) == '+' {
        1
    } else {
        0
    };
    let ghost t = if start == 1 { s@.skip(1) } else { s@ };
    proof {
        assert(t.len() == n - start);
        assert(forall|j: int| 0 <= j < t.len() ==> t[j] == s@[j + start]);
    }
    if n - start < 2 || n - start > 15 {
        return false;
    }
    let c0 = s.get_char(start);
    if !(('1' as u32) <= (c0 as u32) && (c0 as u32) <= ('9' as u32)) {
        proof {
            assert(t[0] == s@[0 + start as int]);
        }
        return false;
    }
    let mut i: usize = start + 1;
    while i < n
        invariant
            start + 1 <= i <= n,
            start <= 1,
            n == s@.len(),
            n > 0,
            (start == 1) == (s@[0] == '+'),
            t == (if start == 1 { s@.skip(1) } else { s@ }),
            t.len() == n - start,
            forall|j: int| 0 <= j < t.len() ==> t[j] == s@[j + start],
            forall|j: int| 1 <= j < i - start ==> is_digit_char(t[j]),
        decreases n - i,
    {
        if !check_digit_char(s.get_char(i)) {
            proof {
                assert(t[i - start] == s@[i as int]);
                assert(!is_digit_char(t[i - start]));
            }
            return false;
        }
        i += 1;
    }
    proof {
        assert(phone_digits_ok(t));
    }
    true
}

// ---------------------------------------------------------------------------
// Payload validation
// ---------------------------------------------------------------------------

/// A failed validation: either one message or a list of them.
pub enum ValidationError {
    Single(String),
    Multiple(Vec<String>),
}

/// A single conditional requirement message.
pub open spec fn req_msg(cond: bool, msg: Seq<char>) -> Seq<Seq<char>> {
    if cond {
        seq![msg]
    } else {
        Seq::empty()
    }
}

/// The messages that validating a registration payload produces, in order.
pub open spec fn spec_register_errors(p: RegisterPayload) -> Seq<Seq<char>> {
    req_msg(p.first_name@.len() == 0, "First Name is required"@)
        + req_msg(p.last_name@.len() == 0, "Last Name is required"@)
        + req_msg(p.username@.len() == 0, "Username is required"@)
        + req_msg(p.email@.len() == 0, "Email is required"@)
        + req_msg(!is_valid_email(p.email@), "Invalid email format"@)
        + req_msg(p.password@.len() == 0, "Password is required"@)
        + req_msg(p.phone@.len() == 0, "Phone number is required"@)
        + req_msg(p.phone@.len() > 0 && !is_valid_phone(p.phone@), "Invalid phone number format"@)
        + req_msg(p.title@.len() == 0, "Title is required"@)
        + req_msg(p.image@.len() == 0, "Image is required"@)
}

/// The messages that validating a login payload produces, in order.
pub open spec fn spec_login_errors(p: LoginPayload) -> Seq<Seq<char>> {
    req_msg(p.username@.len() == 0, "Username is required"@) + req_msg(
        p.password@.len() == 0,
        "Password is required"@,
    )
}

/// The messages of the older registration check, in its order: the mail
/// format is tested last, and always, even when the field is empty.
pub open spec fn spec_register_user_errors(u: RegisterUser) -> Seq<Seq<char>> {
    req_msg(u.first_name@.len() == 0, "First Name is required"@)
        + req_msg(u.last_name@.len() == 0, "Last Name is required"@)
        + req_msg(u.username@.len() == 0, "Username is required"@)
        + req_msg(u.email@.len() == 0, "Email is required"@)
        + req_msg(u.password@.len() == 0, "Password is required"@)
        + req_msg(u.phone@.len() == 0, "Phone number is required"@)
        + req_msg(u.phone@.len() > 0 && !is_valid_phone(u.phone@), "Invalid phone number format"@)
        + req_msg(u.title@.len() == 0, "Title is required"@)
        + req_msg(u.image@.len() == 0, "Image is required"@)
        + req_msg(!is_valid_email(u.email@), "Invalid email format"@)
}

/// The messages joined into one string, separated by commas.
pub open spec fn join_comma(msgs: Seq<Seq<char>>) -> Seq<char> {
    crate::text::join_with(msgs, seq![','])
}

/// The older registration check: every failed field is reported in one
/// comma-joined string.
pub fn validate_register_user(user_data: &RegisterUser) -> (r: Result<(), String>)
    ensures
        match r {
            Ok(_) => spec_register_user_errors(*user_data).len() == 0,
            Err(msg) => {
                &&& spec_register_user_errors(*user_data).len() > 0
                &&& msg@ == join_comma(spec_register_user_errors(*user_data))
            },
        },
{
    let mut errors: Vec<String> = Vec::new();
    push_if(&mut errors, user_data.first_name.as_str().is_empty(), "First Name is required");
    push_if(&mut errors, user_data.last_name.as_str().is_empty(), "Last Name is required");
    push_if(&mut errors, user_data.username.as_str().is_empty(), "Username is required");
    push_if(&mut errors, user_data.email.as_str().is_empty(), "Email is required");
    push_if(&mut errors, user_data.password.as_str().is_empty(), "Password is required");
    let phone_missing = user_data.phone.as_str().is_empty();
    push_if(&mut errors, phone_missing, "Phone number is required");
    let phone_bad = !phone_missing && !check_phone(user_data.phone.as_str());
    push_if(&mut errors, phone_bad, "Invalid phone number format");
    push_if(&mut errors, user_data.title.as_str().is_empty(), "Title is required");
    push_if(&mut errors, user_data.image.as_str().is_empty(), "Image is required");
    push_if(&mut errors, !check_email(user_data.email.as_str()), "Invalid email format");
    proof {
        assert(errors.deep_view() =~~= spec_register_user_errors(*user_data));
    }
    if errors.len() > 0 {
        let joined = crate::text::join_strings(&errors, ",");
        proof {
            reveal_strlit(",");
            assert(","@ =~= seq![',']);
        }
        Err(joined)
    } else {
        Ok(())
    }
}

/// Stateless validation of request payloads.
pub struct AuthValidator;

fn push_if(errors: &mut Vec<String>, cond: bool, msg: &str)
    ensures
        final(errors).deep_view() == old(errors).deep_view() + req_msg(cond, msg@),
{
    if cond {
        errors.push(msg.to_owned());
    }
    proof {
        assert(errors.deep_view() =~~= old(errors).deep_view() + req_msg(cond, msg@));
    }
}

impl AuthValidator {
    /// Checks every registration field; a payload passes exactly when no
    /// message is produced, and otherwise every message is reported, in
    /// field order.
    pub fn validate_register_payload(payload: &RegisterPayload) -> (r: Result<
        (),
        ValidationError,
    >)
        ensures
            match r {
                Ok(_) => spec_register_errors(*payload).len() == 0,
                Err(e) => {
                    &&& spec_register_errors(*payload).len() > 0
                    &&& e matches ValidationError::Multiple(es)
                    &&& es.deep_view() == spec_register_errors(*payload)
                },
            },
    {
        let mut errors: Vec<String> = Vec::new();
        push_if(&mut errors, payload.first_name.as_str().is_empty(), "First Name is required");
        push_if(&mut errors, payload.last_name.as_str().is_empty(), "Last Name is required");
        push_if(&mut errors, payload.username.as_str().is_empty(), "Username is required");
        push_if(&mut errors, payload.email.as_str().is_empty(), "Email is required");
        push_if(&mut errors, !check_email(payload.email.as_str()), "Invalid email format");
        push_if(&mut errors, payload.password.as_str().is_empty(), "Password is required");
        let phone_missing = payload.phone.as_str().is_empty();
        push_if(&mut errors, phone_missing, "Phone number is required");
        let phone_bad = !phone_missing && !check_phone(payload.phone.as_str());
        push_if(&mut errors, phone_bad, "Invalid phone number format");
        push_if(&mut errors, payload.title.as_str().is_empty(), "Title is required");
        push_if(&mut errors, payload.image.as_str().is_empty(), "Image is required");
        proof {
            assert(errors.deep_view() =~~= spec_register_errors(*payload));
        }
        if errors.len() > 0 {
            Err(ValidationError::Multiple(errors))
        } else {
            Ok(())
        }
    }

    /// Checks that a login payload names a username and a password.
    pub fn validate_login_payload(payload: &LoginPayload) -> (r: Result<(), ValidationError>)
        ensures
            match r {
                Ok(_) => spec_login_errors(*payload).len() == 0,
                Err(e) => {
                    &&& spec_login_errors(*payload).len() > 0
                    &&& e matches ValidationError::Multiple(es)
                    &&& es.deep_view() == spec_login_errors(*payload)
                },
            },
    {
        let mut errors: Vec<String> = Vec::new();
        push_if(&mut errors, payload.username.as_str().is_empty(), "Username is required");
        push_if(&mut errors, payload.password.as_str().is_empty(), "Password is required");
        proof {
            assert(errors.deep_view() =~~= spec_login_errors(*payload));
        }
        if errors.len() > 0 {
            Err(ValidationError::Multiple(errors))
        } else {
            Ok(())
        }
    }
}

} // verus!
