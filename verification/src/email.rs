//! A model of the email collaborator: it records every delivered request, or
//! fails as the transport does, under an injected fault flag.
use crate::domain::SubscriberEmail;
use vstd::prelude::*;

verus! {

/// One outbound email exactly as handed to the transport.
pub struct EmailRequest {
    pub recipient: String,
    pub subject: String,
    pub html_body: String,
    pub text_body: String,
}

/// The email collaborator: the requests it has delivered, and whether the
/// transport fails.
pub struct EmailClient {
    pub sent: Vec<EmailRequest>,
    pub fail_send: bool,
}

/// Nothing was delivered between the two states.
pub open spec fn email_unchanged(pre: EmailClient, post: EmailClient) -> bool {
    post.sent@ == pre.sent@
}

impl EmailClient {
    /// A transport with the given fault behaviour that has delivered nothing.
    pub fn new(fail_send: bool) -> (r: EmailClient)
        ensures
            r.sent@ =~= Seq::<EmailRequest>::empty(),
            r.fail_send == fail_send,
    {
        EmailClient { sent: Vec::new(), fail_send }
    }

    /// Delivers one email, or fails with the transport error exactly when the
    /// transport is down; a failed send delivers nothing.
    pub fn send_email(
        &mut self,
        recipient: &SubscriberEmail,
        subject: &str,
        html_body: &str,
        text_body: &str,
    ) -> (r: Result<(), String>)
        ensures
            final(self).fail_send == old(self).fail_send,
            match r {
                Ok(()) => !old(self).fail_send && ({
                    let req = final(self).sent@.last();
                    &&& final(self).sent@ == old(self).sent@.push(req)
                    &&& req.recipient@ == recipient@
                    &&& req.subject@ == subject@
                    &&& req.html_body@ == html_body@
                    &&& req.text_body@ == text_body@
                }),
                Err(m) => old(self).fail_send && email_unchanged(*old(self), *final(self)) && m@
                    == "the email transport refused the request"@,
            },
    {
        if self.fail_send {
            return Err(String::from_str("the email transport refused the request"));
        }
        let req = EmailRequest {
            recipient: String::from_str(recipient.as_ref()),
            subject: String::from_str(subject),
            html_body: String::from_str(html_body),
            text_body: String::from_str(text_body),
        };
        self.sent.push(req);
        Ok(())
    }
}

} // verus!
