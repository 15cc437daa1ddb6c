//! Sending the verification mail again: who is sent one, and who is not.

use vstd::prelude::*;
use crate::ids::LocalUserId;

verus! {

/// What is known of the account that an address belongs to.
#[derive(Clone, Copy, Debug, PartialEq, Eq, Structural)]
pub struct EmailAccount {
    pub local_user_id: LocalUserId,
    pub email_verified: bool,
}

/// Why no verification mail is sent.
#[derive(Clone, Copy, Debug, PartialEq, Eq, Structural)]
pub enum VerifyEmailError {
    /// No account has the address.
    EmailNotFound,
    /// The account's address is verified already.
    EmailAlreadyVerified,
}

/// Decides on a request to send the verification mail again, given the
/// account that the address belongs to, if any: the mail goes to an
/// account that exists and is not verified yet, and to no other.
pub fn send_verify_email(account: Option<EmailAccount>) -> (r: Result<
    LocalUserId,
    VerifyEmailError,
>)
    ensures
        r == match account {
            None => Err::<LocalUserId, VerifyEmailError>(VerifyEmailError::EmailNotFound),
            Some(a) => if a.email_verified {
                Err(VerifyEmailError::EmailAlreadyVerified)
            } else {
                Ok(a.local_user_id)
            },
        },
{
    match account {
        None => Err(VerifyEmailError::EmailNotFound),
        Some(a) => {
            if a.email_verified {
                Err(VerifyEmailError::EmailAlreadyVerified)
            } else {
                Ok(a.local_user_id)
            }
        },
    }
}

} // verus!
