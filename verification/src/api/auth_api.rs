use vstd::prelude::*;

use crate::error::AppError;
use crate::text::str_equal;

verus! {

/// Body of an admin login request.
#[derive(Clone, Debug)]
pub struct LoginRequest {
    pub password: String,
}

/// Body of a successful admin login.
#[derive(Clone, Debug)]
pub struct LoginResponse {
    pub token: String,
}

/// Admin login: the password must equal the admin secret; the token handed
/// back is the admin secret itself.
pub fn login(req: &LoginRequest, admin_secret: &String) -> (r: Result<LoginResponse, AppError>)
    ensures
        req.password@ == admin_secret@ ==> (r matches Ok(resp) && resp.token@ == admin_secret@),
        req.password@ != admin_secret@ ==> r == Err::<LoginResponse, AppError>(AppError::Unauthorized),
{
    if !str_equal(req.password.as_str(), admin_secret.as_str()) {
        return Err(AppError::Unauthorized);
    }
    Ok(LoginResponse { token: admin_secret.clone() })
}

} // verus!
