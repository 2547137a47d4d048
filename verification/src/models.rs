use vstd::prelude::*;

verus! {

/// A stored user record. `deleted_at` is the soft-delete marker in seconds
/// since the epoch; `None` means the user is active. Among active users,
/// `username` and `email` are unique (enforced by the credential store).
pub struct User {
    pub id: i64,
    pub first_name: String,
    pub last_name: String,
    pub username: String,
    pub email: String,
    pub password_hash: String,
    pub title: String,
    pub image: String,
    pub phone: String,
    pub role_id: i32,
    pub deleted_at: Option<i64>,
}

impl User {
    /// An active user has not been soft-deleted.
    pub open spec fn is_active(self) -> bool {
        self.deleted_at is None
    }
}

impl Clone for User {
    fn clone(&self) -> (r: Self)
        ensures
            r == *self,
    {
        User {
            id: self.id,
            first_name: self.first_name.clone(),
            last_name: self.last_name.clone(),
            username: self.username.clone(),
            email: self.email.clone(),
            password_hash: self.password_hash.clone(),
            title: self.title.clone(),
            image: self.image.clone(),
            phone: self.phone.clone(),
            role_id: self.role_id,
            deleted_at: self.deleted_at,
        }
    }
}

/// The public view of a user: every identity attribute, but never the
/// password hash or the soft-delete marker.
pub struct Profile {
    pub id: i64,
    pub first_name: String,
    pub last_name: String,
    pub username: String,
    pub email: String,
    pub phone: String,
    pub title: String,
    pub image: String,
    pub role_id: i32,
}

impl Profile {
    /// Projects a user record onto its public profile.
    pub fn of_user(user: &User) -> (p: Profile)
        ensures
            p.id == user.id,
            p.first_name == user.first_name,
            p.last_name == user.last_name,
            p.username == user.username,
            p.email == user.email,
            p.phone == user.phone,
            p.title == user.title,
            p.image == user.image,
            p.role_id == user.role_id,
    {
        Profile {
            id: user.id,
            first_name: user.first_name.clone(),
            last_name: user.last_name.clone(),
            username: user.username.clone(),
            email: user.email.clone(),
            phone: user.phone.clone(),
            title: user.title.clone(),
            image: user.image.clone(),
            role_id: user.role_id,
        }
    }
}

/// The registration request body.
pub struct RegisterUser {
    pub first_name: String,
    pub last_name: String,
    pub username: String,
    pub email: String,
    pub password: String,
    pub phone: String,
    pub title: String,
    pub image: String,
}

/// The registration request body, as the versioned API names it.
pub struct RegisterPayload {
    pub first_name: String,
    pub last_name: String,
    pub username: String,
    pub email: String,
    pub password: String,
    pub phone: String,
    pub title: String,
    pub image: String,
}

/// The login request body.
pub struct LoginCredentials {
    pub username: String,
    pub password: String,
}

/// The login request body, as the versioned API names it.
pub struct LoginPayload {
    pub username: String,
    pub password: String,
}

/// The forgot-password request body.
pub struct ForgotPassword {
    pub email: String,
}

/// The forgot-password request body, as the versioned API names it.
pub struct ForgotPasswordPayload {
    pub email: String,
}

/// The one-time-code check request body.
pub struct CheckOTP {
    pub code: String,
}

/// The password-reset request body.
pub struct ResetPassword {
    pub email: String,
    pub new_password: String,
    pub confirm_password: String,
}

} // verus!
