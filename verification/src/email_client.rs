use vstd::prelude::*;
use vstd::string::StringExecFns;
use crate::domain::SubscriberEmail;
use crate::domain::subscriber_email::email_valid;

verus! {

/// The email dispatcher's fixed half: the provider's base URL, the sender
/// address every email goes out under, and the bearer-style token the
/// provider authenticates by. The token is held to be sent, never logged.
pub struct EmailClient {
    base_url: String,
    sender: SubscriberEmail,
    authorization_token: String,
}

/// One outbound email, fully assembled: where to POST it, the token to
/// authenticate with, and the provider's five body fields. Sender and
/// recipient are both valid subscriber emails.
pub struct SendEmailRequest {
    pub url: String,
    pub authorization_token: String,
    pub from: String,
    pub to: String,
    pub subject: String,
    pub html_body: String,
    pub text_body: String,
}

/// Why a dispatch attempt failed: the provider was unreachable, or it
/// answered with a status outside the success range. Carried for logging
/// only; it never changes the response owed to the ingestion caller.
#[derive(Debug)]
pub enum DispatchError {
    Transport,
    UnexpectedStatus(u16),
}

impl EmailClient {
    /// The provider's base URL.
    pub closed spec fn spec_base_url(&self) -> Seq<char> {
        self.base_url@
    }

    /// The fixed sender address.
    pub closed spec fn spec_sender(&self) -> Seq<char> {
        self.sender@
    }

    /// The authorization token.
    pub closed spec fn spec_token(&self) -> Seq<char> {
        self.authorization_token@
    }

    /// Constructs a new `EmailClient` used for triggering the sending of
    /// emails to subscribers through an email provider.
    pub fn new(base_url: String, sender: SubscriberEmail, authorization_token: String) -> (c:
        EmailClient)
        ensures
            c.spec_base_url() == base_url@,
            c.spec_sender() == sender@,
            c.spec_token() == authorization_token@,
    {
        EmailClient { base_url, sender, authorization_token }
    }

    /// Assembles the single POST that one dispatch attempt sends: the
    /// provider's `/email` endpoint under the base URL, the client's token
    /// and sender, and the recipient, subject and bodies given here, all
    /// carried over unchanged.
    pub fn build_send_request(
        &self,
        recipient: &SubscriberEmail,
        subject: &str,
        html_body: &str,
        text_body: &str,
    ) -> (r: SendEmailRequest)
        ensures
            r.url@ == self.spec_base_url() + "/email"@,
            r.authorization_token@ == self.spec_token(),
            r.from@ == self.spec_sender(),
            r.to@ == recipient@,
            r.subject@ == subject@,
            r.html_body@ == html_body@,
            r.text_body@ == text_body@,
            email_valid(r.from@),
            email_valid(r.to@),
    {
        proof {
            use_type_invariant(&self.sender);
            use_type_invariant(recipient);
        }
        let mut url = self.base_url.clone();
        url.append("/email");
        SendEmailRequest {
            url,
            authorization_token: self.authorization_token.clone(),
            from: self.sender.as_ref().to_owned(),
            to: recipient.as_ref().to_owned(),
            subject: subject.to_owned(),
            html_body: html_body.to_owned(),
            text_body: text_body.to_owned(),
        }
    }
}

/// Classifies what came back from one dispatch attempt: `None` is a
/// transport failure, a status in the 2xx range is success, and any other
/// status is a failure carrying that status.
pub fn dispatch_outcome(status: Option<u16>) -> (r: Result<(), DispatchError>)
    ensures
        r is Ok <==> (status matches Some(s) && 200 <= s < 300),
        status is None ==> r == Result::<(), DispatchError>::Err(DispatchError::Transport),
        (status matches Some(s) && !(200 <= s < 300)) ==> r == Result::<(),
            DispatchError>::Err(DispatchError::UnexpectedStatus(status->Some_0)),
{
    match status {
        None => Err(DispatchError::Transport),
        Some(s) => {
            if 200 <= s && s < 300 {
                Ok(())
            } else {
                Err(DispatchError::UnexpectedStatus(s))
            }
        },
    }
}

} // verus!
