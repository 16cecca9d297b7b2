//! The error taxonomy of a registration attempt.
//!
//! Two top-level kinds: a validation failure caused by the caller's input,
//! and an unexpected failure of the storage layer, the transaction
//! machinery, or the email transport. The latter always carries a context
//! message plus the chain of underlying causes, outermost first, so a
//! diagnostic report can print the message and then walk the causes.

use vstd::prelude::*;
use vstd::string::*;

verus! {

/// A failure of the storage layer or the transaction machinery, carrying
/// the storage engine's own diagnostic message.
#[derive(Debug)]
pub struct InfrastructureError {
    pub message: String,
}

/// A failure while persisting the confirmation token; wraps the underlying
/// storage failure so diagnostics can tell it from a failed subscriber
/// insert.
#[derive(Debug)]
pub struct StoreTokenError(pub InfrastructureError);

/// A failure of the outbound email transport.
#[derive(Debug)]
pub struct EmailDeliveryError {
    pub message: String,
}

/// The formatted report of a message followed by its chain of causes:
/// the message, a blank line, then one `Caused by:` paragraph per cause.
pub open spec fn chain_fmt(message: Seq<char>, causes: Seq<Seq<char>>) -> Seq<char>
    decreases causes.len(),
{
    if causes.len() == 0 {
        message + "\n\n"@
    } else {
        chain_fmt(message, causes.drop_last()) + "Caused by:\n\t"@ + causes.last() + "\n"@
    }
}

/// Renders an error message and its causes, outermost cause first, in the
/// shape `chain_fmt` describes.
pub fn error_chain_fmt(message: &str, causes: &Vec<String>) -> (r: String)
    ensures
        r@ == chain_fmt(message@, causes.deep_view()),
{
    let mut out = String::from_str(message);
    out.append("\n\n");
    proof {
        assert(causes.deep_view().take(0) =~= Seq::<Seq<char>>::empty());
    }
    let mut i: usize = 0;
    while i < causes.len()
        invariant
            i <= causes.len(),
            out@ == chain_fmt(message@, causes.deep_view().take(i as int)),
        decreases causes.len() - i,
    {
        out.append("Caused by:\n\t");
        out.append(causes[i].as_str());
        out.append("\n");
        proof {
            let dv = causes.deep_view();
            assert(dv.take(i + 1).drop_last() =~= dv.take(i as int));
            assert(dv.take(i + 1).last() == dv[i as int]);
            assert(dv[i as int] == causes@[i as int]@);
        }
        i += 1;
    }
    proof {
        assert(causes.deep_view().take(causes.len() as int) =~= causes.deep_view());
    }
    out
}

impl StoreTokenError {
    /// The fixed description this kind prints for itself.
    pub fn message(&self) -> (r: String)
        ensures
            r@ == "A database error occurred while trying to store the subscription token."@,
    {
        String::from_str("A database error occurred while trying to store the subscription token.")
    }

    /// The underlying storage failure, preserved as the next cause in the
    /// chain.
    pub fn source(&self) -> (r: &InfrastructureError)
        ensures
            r == &self.0,
    {
        &self.0
    }

    /// The diagnostic report: this kind's description, then the underlying
    /// storage failure as its cause.
    pub fn chain_report(&self) -> (r: String)
        ensures
            r@ == chain_fmt(
                "A database error occurred while trying to store the subscription token."@,
                seq![self.0.message@],
            ),
    {
        let message = self.message();
        let mut causes: Vec<String> = Vec::new();
        causes.push(self.0.message.clone());
        let report = error_chain_fmt(message.as_str(), &causes);
        proof {
            assert(causes.deep_view() =~= seq![self.0.message@]);
        }
        report
    }
}

/// The outcome kind of a failed registration attempt.
#[derive(Debug)]
pub enum SubscribeError {
    /// Malformed caller input; carries the human-readable reason and never
    /// wraps an inner cause.
    ValidationError(String),
    /// A storage, transaction, or email-transport failure: the chain of
    /// underlying causes, outermost first, then the context message.
    UnexpectedError(Vec<String>, String),
}

impl SubscribeError {
    /// Wraps an infrastructure failure with the pipeline's context message.
    pub fn from_infrastructure(cause: InfrastructureError, context: String) -> (r: Self)
        ensures
            r matches SubscribeError::UnexpectedError(chain, ctx) && chain.deep_view() =~= seq![
                cause.message@,
            ] && ctx == context,
    {
        let mut chain: Vec<String> = Vec::new();
        chain.push(cause.message);
        SubscribeError::UnexpectedError(chain, context)
    }

    /// Wraps a token-store failure: the sub-kind's own description comes
    /// first in the chain, the storage engine's message after it.
    pub fn from_store_token(cause: StoreTokenError, context: String) -> (r: Self)
        ensures
            r matches SubscribeError::UnexpectedError(chain, ctx) && chain.deep_view() =~= seq![
                "A database error occurred while trying to store the subscription token."@,
                cause.0.message@,
            ] && ctx == context,
    {
        let mut chain: Vec<String> = Vec::new();
        chain.push(cause.message());
        chain.push(cause.0.message);
        SubscribeError::UnexpectedError(chain, context)
    }

    /// Wraps an email-delivery failure with the pipeline's context message.
    pub fn from_email_delivery(cause: EmailDeliveryError, context: String) -> (r: Self)
        ensures
            r matches SubscribeError::UnexpectedError(chain, ctx) && chain.deep_view() =~= seq![
                cause.message@,
            ] && ctx == context,
    {
        let mut chain: Vec<String> = Vec::new();
        chain.push(cause.message);
        SubscribeError::UnexpectedError(chain, context)
    }

    /// The headline message: the validation reason, or the context of an
    /// unexpected failure.
    pub fn message(&self) -> (r: String)
        ensures
            match self {
                SubscribeError::ValidationError(m) => r@ == m@,
                SubscribeError::UnexpectedError(_, ctx) => r@ == ctx@,
            },
    {
        match self {
            SubscribeError::ValidationError(m) => m.clone(),
            SubscribeError::UnexpectedError(_, ctx) => ctx.clone(),
        }
    }

    /// The HTTP-status-equivalent of the outcome: a client error for
    /// rejected input, a server error for everything else.
    pub fn status_code(&self) -> (r: u16)
        ensures
            self matches SubscribeError::ValidationError(_) ==> r == 400,
            self matches SubscribeError::UnexpectedError(..) ==> r == 500,
    {
        match self {
            SubscribeError::ValidationError(_) => 400,
            SubscribeError::UnexpectedError(..) => 500,
        }
    }

    /// The diagnostic report: the headline message, then every preserved
    /// cause in order.
    pub fn chain_report(&self) -> (r: String)
        ensures
            match self {
                SubscribeError::ValidationError(m) => r@ == chain_fmt(m@, Seq::empty()),
                SubscribeError::UnexpectedError(chain, ctx) => r@ == chain_fmt(
                    ctx@,
                    chain.deep_view(),
                ),
            },
    {
        match self {
            SubscribeError::ValidationError(m) => {
                let causes: Vec<String> = Vec::new();
                let report = error_chain_fmt(m.as_str(), &causes);
                proof {
                    assert(causes.deep_view() =~= Seq::<Seq<char>>::empty());
                }
                report
            },
            SubscribeError::UnexpectedError(chain, ctx) => error_chain_fmt(ctx.as_str(), chain),
        }
    }
}

impl From<String> for SubscribeError {
    /// A bare string always denotes a validation failure.
    fn from(e: String) -> (r: Self) {
        SubscribeError::ValidationError(e)
    }
}

impl vstd::std_specs::convert::FromSpecImpl<String> for SubscribeError {
    open spec fn obeys_from_spec() -> bool {
        true
    }

    open spec fn from_spec(e: String) -> Self {
        SubscribeError::ValidationError(e)
    }
}

} // verus!
