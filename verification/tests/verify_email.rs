use post_pipeline::ids::LocalUserId;
use post_pipeline::verify_email::{send_verify_email, EmailAccount, VerifyEmailError};

#[test]
fn unknown_address_gets_no_mail() {
    assert_eq!(send_verify_email(None), Err(VerifyEmailError::EmailNotFound));
}

#[test]
fn verified_address_gets_no_mail() {
    let account = EmailAccount { local_user_id: LocalUserId(4), email_verified: true };
    assert_eq!(send_verify_email(Some(account)), Err(VerifyEmailError::EmailAlreadyVerified));
}

#[test]
fn unverified_address_gets_the_mail() {
    let account = EmailAccount { local_user_id: LocalUserId(4), email_verified: false };
    assert_eq!(send_verify_email(Some(account)), Ok(LocalUserId(4)));
}
