//! Transactional e-mail for password reset and address verification.

use vstd::prelude::*;
use crate::error::ApiError;

verus! {

/// Sends the e-mails the authentication system needs.
pub trait EmailProvider: Send + Sync {
    /// The (address, token) pairs handed to the provider so far, in order.
    spec fn outbox(&self) -> Seq<(Seq<char>, Seq<char>)>;

    fn send_password_reset(&mut self, email: &str, reset_token: &str) -> (r: Result<(), ApiError>)
        ensures
            final(self).outbox() == old(self).outbox().push((email@, reset_token@)),
    ;

    fn send_email_verification(&mut self, email: &str, verification_token: &str) -> (r: Result<(), ApiError>)
        ensures
            final(self).outbox() == old(self).outbox().push((email@, verification_token@)),
    ;
}

pub open spec fn pair_view(p: (String, String)) -> (Seq<char>, Seq<char>) {
    (p.0@, p.1@)
}

/// Mock provider for development and tests: records (address, token) pairs.
pub struct MockEmailProvider {
    pub sent_emails: Vec<(String, String)>,
}

impl MockEmailProvider {
    pub fn new() -> (r: Self)
        ensures
            r.sent_emails@.len() == 0,
    {
        MockEmailProvider { sent_emails: Vec::new() }
    }

    pub fn sent_count(&self) -> (r: usize)
        ensures
            r == self.sent_emails@.len(),
    {
        self.sent_emails.len()
    }
}

impl EmailProvider for MockEmailProvider {
    open spec fn outbox(&self) -> Seq<(Seq<char>, Seq<char>)> {
        self.sent_emails@.map_values(|p: (String, String)| pair_view(p))
    }

    fn send_password_reset(&mut self, email: &str, reset_token: &str) -> (r: Result<(), ApiError>)
        ensures
            r is Ok,
            final(self).sent_emails@.len() == old(self).sent_emails@.len() + 1,
            final(self).sent_emails@.last().0@ == email@,
            final(self).sent_emails@.last().1@ == reset_token@,
            final(self).sent_emails@.drop_last() == old(self).sent_emails@,
    {
        self.sent_emails.push((email.to_owned(), reset_token.to_owned()));
        assert(self.sent_emails@.drop_last() =~= old(self).sent_emails@);
        assert(self.outbox() =~= old(self).outbox().push((email@, reset_token@)));
        Ok(())
    }

    fn send_email_verification(&mut self, email: &str, verification_token: &str) -> (r: Result<(), ApiError>)
        ensures
            r is Ok,
            final(self).sent_emails@.len() == old(self).sent_emails@.len() + 1,
            final(self).sent_emails@.last().0@ == email@,
            final(self).sent_emails@.last().1@ == verification_token@,
            final(self).sent_emails@.drop_last() == old(self).sent_emails@,
    {
        self.sent_emails.push((email.to_owned(), verification_token.to_owned()));
        assert(self.sent_emails@.drop_last() =~= old(self).sent_emails@);
        assert(self.outbox() =~= old(self).outbox().push((email@, verification_token@)));
        Ok(())
    }
}

} // verus!
