//! The values that the program API sends and receives.
use vstd::prelude::*;

verus! {

/// The credentials sent to log in.
#[derive(Debug)]
pub struct LoginRequest {
    pub user: String,
    pub password: String,
    pub hwid: String,
}

/// The answer to a successful login.
#[derive(Debug)]
pub struct LoginResponse {
    pub token: String,
}

/// The account and session behind a token.
#[derive(Debug)]
pub struct MeResponse {
    pub user: UserInfo,
    pub session: SessionInfo,
}

/// The programs rented by the account.
#[derive(Debug)]
pub struct RentalsResponse {
    pub rentals: Vec<Rental>,
}

/// The session of a token.
#[derive(Debug)]
pub struct SessionInfo {
    pub expires_at: String,
    pub hwid_locked: bool,
}

/// The account of a token.
#[derive(Debug)]
pub struct UserInfo {
    pub id: String,
    pub name: String,
    pub email: String,
    pub role: String,
}

/// One program rented by the account.
#[derive(Debug)]
pub struct Rental {
    pub product_id: String,
    pub product_name: String,
    pub product_status: String,
    pub product_status_label: String,
    pub rental_status: String,
    pub is_permanent: bool,
    pub started_at: String,
    pub updated_at: String,
    pub expires_at: Option<String>,
    pub remaining_seconds: Option<i64>,
}

fn clone_opt_string(o: &Option<String>) -> (r: Option<String>)
    ensures
        r == *o,
{
    match o {
        Some(s) => Some(s.clone()),
        None => None,
    }
}

impl Clone for LoginRequest {
    fn clone(&self) -> (r: Self)
        ensures
            r == *self,
    {
        LoginRequest {
            user: self.user.clone(),
            password: self.password.clone(),
            hwid: self.hwid.clone(),
        }
    }
}

impl Clone for LoginResponse {
    fn clone(&self) -> (r: Self)
        ensures
            r == *self,
    {
        LoginResponse { token: self.token.clone() }
    }
}

impl Clone for SessionInfo {
    fn clone(&self) -> (r: Self)
        ensures
            r == *self,
    {
        SessionInfo { expires_at: self.expires_at.clone(), hwid_locked: self.hwid_locked }
    }
}

impl Clone for UserInfo {
    fn clone(&self) -> (r: Self)
        ensures
            r == *self,
    {
        UserInfo {
            id: self.id.clone(),
            name: self.name.clone(),
            email: self.email.clone(),
            role: self.role.clone(),
        }
    }
}

impl Clone for MeResponse {
    fn clone(&self) -> (r: Self)
        ensures
            r == *self,
    {
        MeResponse { user: self.user.clone(), session: self.session.clone() }
    }
}

impl Clone for Rental {
    fn clone(&self) -> (r: Self)
        ensures
            r == *self,
    {
        Rental {
            product_id: self.product_id.clone(),
            product_name: self.product_name.clone(),
            product_status: self.product_status.clone(),
            product_status_label: self.product_status_label.clone(),
            rental_status: self.rental_status.clone(),
            is_permanent: self.is_permanent,
            started_at: self.started_at.clone(),
            updated_at: self.updated_at.clone(),
            expires_at: clone_opt_string(&self.expires_at),
            remaining_seconds: self.remaining_seconds,
        }
    }
}

} // verus!
