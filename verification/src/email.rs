//! Construction of the confirmation email.
//!
//! The notifier builds the confirmation link and the two bodies here, in
//! full, and hands the finished request to the opaque delivery transport.
//! The transport's answer is injected as a `fault` argument, so the
//! contract pins what is handed over for every behaviour of the transport;
//! a delivery failure can never touch anything already committed.

use vstd::prelude::*;
use vstd::string::*;

use crate::domain::NewSubscriber;
use crate::errors::EmailDeliveryError;

verus! {

/// The confirmation link: `{base_url}/subscriptions/confirm?subscription_token={token}`.
pub open spec fn confirmation_link_spec(base_url: Seq<char>, token: Seq<char>) -> Seq<char> {
    base_url + "/subscriptions/confirm?subscription_token="@ + token
}

/// The plain-text body, which contains the confirmation link.
pub open spec fn text_body_spec(link: Seq<char>) -> Seq<char> {
    "Welcome to our newsletter!\nVisit "@ + link + " to confirm your subscription."@
}

/// The HTML body, which contains the confirmation link.
pub open spec fn html_body_spec(link: Seq<char>) -> Seq<char> {
    "Welcome to our newsletter!<br />Click <a href=\""@ + link
        + "\">here</a> to confirm your subscription."@
}

/// One outbound send request for the opaque email capability.
#[derive(Debug)]
pub struct EmailRequest {
    pub recipient: String,
    pub subject: String,
    pub html_body: String,
    pub text_body: String,
}

/// Builds the confirmation link for a base URL and token.
pub fn build_confirmation_link(base_url: &str, subscription_token: &str) -> (r: String)
    ensures
        r@ == confirmation_link_spec(base_url@, subscription_token@),
{
    let mut link = String::from_str(base_url);
    link.append("/subscriptions/confirm?subscription_token=");
    link.append(subscription_token);
    link
}

/// Builds the confirmation email for the subscriber — subject `Welcome!`,
/// both bodies carrying the confirmation link — and hands it to the
/// transport. `fault` is the transport's answer: on `None` the request
/// went out and is returned as built; on `Some` the transport's message
/// comes back as a delivery error.
pub fn send_confirmation_email(
    new_subscriber: &NewSubscriber,
    base_url: &str,
    subscription_token: &str,
    fault: Option<String>,
) -> (r: Result<EmailRequest, EmailDeliveryError>)
    ensures
        match r {
            Ok(req) => {
                &&& fault is None
                &&& req.recipient@ == new_subscriber.email@
                &&& req.subject@ == "Welcome!"@
                &&& req.html_body@ == html_body_spec(
                    confirmation_link_spec(base_url@, subscription_token@),
                )
                &&& req.text_body@ == text_body_spec(
                    confirmation_link_spec(base_url@, subscription_token@),
                )
            },
            Err(e) => fault matches Some(m) && e.message == m,
        },
{
    let confirmation_link = build_confirmation_link(base_url, subscription_token);

    let mut text_body = String::from_str("Welcome to our newsletter!\nVisit ");
    text_body.append(confirmation_link.as_str());
    text_body.append(" to confirm your subscription.");

    let mut html_body = String::from_str("Welcome to our newsletter!<br />Click <a href=\"");
    html_body.append(confirmation_link.as_str());
    html_body.append("\">here</a> to confirm your subscription.");

    match fault {
        None => Ok(
            EmailRequest {
                recipient: String::from_str(new_subscriber.email.as_str()),
                subject: String::from_str("Welcome!"),
                html_body,
                text_body,
            },
        ),
        Some(m) => Err(EmailDeliveryError { message: m }),
    }
}

} // verus!
