//! The closed set of registration failure kinds, each carrying the text of
//! its underlying cause, with the status mapping and the chain-printing
//! routine that walks the causes top to bottom.
use vstd::prelude::*;

verus! {

/// A storage failure met while storing a subscription token; wraps the text
/// of the underlying storage error as its cause.
pub struct StoreTokenError {
    pub cause: String,
}

pub open spec fn store_token_message() -> Seq<char> {
    "A database error was encountered while trying to store a subscription token."@
}

impl StoreTokenError {
    pub fn message(&self) -> (r: &'static str)
        ensures
            r@ == store_token_message(),
    {
        "A database error was encountered while trying to store a subscription token."
    }

    /// The underlying cause of this error.
    pub fn source(&self) -> (r: &String)
        ensures
            r@ == self.cause@,
    {
        &self.cause
    }
}

/// Everything that can go wrong while handling one registration request.
pub enum SubscribeError {
    ValidationError(String),
    StoreTokenError(StoreTokenError),
    SendEmailError(String),
    PoolError(String),
    InsertSubscriberError(String),
    TransactionCommitError(String),
}

/// The one-line description of an error, the top of its diagnostic chain.
pub open spec fn spec_message(e: SubscribeError) -> Seq<char> {
    match e {
        SubscribeError::ValidationError(m) => m@,
        SubscribeError::PoolError(_) => "Failed to acquire a Postgres connection from the pool"@,
        SubscribeError::InsertSubscriberError(
            _,
        ) => "Failed to insert new subscriber in the database."@,
        SubscribeError::TransactionCommitError(
            _,
        ) => "Failed to commit SQL transaction to store a new subscriber."@,
        SubscribeError::StoreTokenError(
            _,
        ) => "Failed to store the confirmation token for a new subscriber."@,
        SubscribeError::SendEmailError(_) => "Failed to send a confirmation email."@,
    }
}

/// One rendered layer of an error's cause chain.
pub open spec fn spec_caused_by(m: Seq<char>) -> Seq<char> {
    "Caused by:\n\t"@ + m + "\n"@
}

/// The full diagnostic report of an error: its own description, then every
/// cause below it, top to bottom.
pub open spec fn spec_chain_report(e: SubscribeError) -> Seq<char> {
    spec_message(e) + "\n\n"@ + match e {
        SubscribeError::ValidationError(_) => Seq::<char>::empty(),
        SubscribeError::PoolError(c) => spec_caused_by(c@),
        SubscribeError::InsertSubscriberError(c) => spec_caused_by(c@),
        SubscribeError::TransactionCommitError(c) => spec_caused_by(c@),
        SubscribeError::SendEmailError(c) => spec_caused_by(c@),
        SubscribeError::StoreTokenError(st) => spec_caused_by(store_token_message())
            + spec_caused_by(st.cause@),
    }
}

impl SubscribeError {
    /// The one-line description of this error.
    pub fn message(&self) -> (r: String)
        ensures
            r@ == spec_message(*self),
    {
        match self {
            SubscribeError::ValidationError(m) => m.clone(),
            SubscribeError::PoolError(_) => String::from_str(
                "Failed to acquire a Postgres connection from the pool",
            ),
            SubscribeError::InsertSubscriberError(_) => String::from_str(
                "Failed to insert new subscriber in the database.",
            ),
            SubscribeError::TransactionCommitError(_) => String::from_str(
                "Failed to commit SQL transaction to store a new subscriber.",
            ),
            SubscribeError::StoreTokenError(_) => String::from_str(
                "Failed to store the confirmation token for a new subscriber.",
            ),
            SubscribeError::SendEmailError(_) => String::from_str(
                "Failed to send a confirmation email.",
            ),
        }
    }

    /// The text of the immediate underlying cause; validation failures are
    /// their own root cause.
    pub fn source(&self) -> (r: Option<&String>)
        ensures
            match *self {
                SubscribeError::ValidationError(_) => r is None,
                SubscribeError::PoolError(c) => r == Some(&c),
                SubscribeError::InsertSubscriberError(c) => r == Some(&c),
                SubscribeError::TransactionCommitError(c) => r == Some(&c),
                SubscribeError::SendEmailError(c) => r == Some(&c),
                SubscribeError::StoreTokenError(st) => r == Some(&st.cause),
            },
    {
        match self {
            SubscribeError::ValidationError(_) => None,
            SubscribeError::PoolError(c) => Some(c),
            SubscribeError::InsertSubscriberError(c) => Some(c),
            SubscribeError::TransactionCommitError(c) => Some(c),
            SubscribeError::SendEmailError(c) => Some(c),
            SubscribeError::StoreTokenError(st) => Some(&st.cause),
        }
    }

    /// The HTTP-like status class of this error: bad input for validation
    /// failures, server error for every infrastructure failure.
    pub fn status_code(&self) -> (r: u16)
        ensures
            self is ValidationError <==> r == 400,
            !(self is ValidationError) <==> r == 500,
    {
        match self {
            SubscribeError::ValidationError(_) => 400,
            _ => 500,
        }
    }
}

impl From<StoreTokenError> for SubscribeError {
    fn from(e: StoreTokenError) -> (r: SubscribeError) {
        SubscribeError::StoreTokenError(e)
    }
}

impl vstd::std_specs::convert::FromSpecImpl<StoreTokenError> for SubscribeError {
    open spec fn obeys_from_spec() -> bool {
        true
    }

    open spec fn from_spec(e: StoreTokenError) -> SubscribeError {
        SubscribeError::StoreTokenError(e)
    }
}

impl From<String> for SubscribeError {
    fn from(m: String) -> (r: SubscribeError) {
        SubscribeError::ValidationError(m)
    }
}

impl vstd::std_specs::convert::FromSpecImpl<String> for SubscribeError {
    open spec fn obeys_from_spec() -> bool {
        true
    }

    open spec fn from_spec(m: String) -> SubscribeError {
        SubscribeError::ValidationError(m)
    }
}

/// Renders an error's full diagnostic chain, each cause on its own layer.
pub fn error_chain_fmt(e: &SubscribeError) -> (r: String)
    ensures
        r@ == spec_chain_report(*e),
{
    let mut out = e.message();
    out.append("\n\n");
    match e {
        SubscribeError::ValidationError(_) => {},
        SubscribeError::PoolError(c) => {
            out.append("Caused by:\n\t");
            out.append(c.as_str());
            out.append("\n");
        },
        SubscribeError::InsertSubscriberError(c) => {
            out.append("Caused by:\n\t");
            out.append(c.as_str());
            out.append("\n");
        },
        SubscribeError::TransactionCommitError(c) => {
            out.append("Caused by:\n\t");
            out.append(c.as_str());
            out.append("\n");
        },
        SubscribeError::SendEmailError(c) => {
            out.append("Caused by:\n\t");
            out.append(c.as_str());
            out.append("\n");
        },
        SubscribeError::StoreTokenError(st) => {
            out.append("Caused by:\n\t");
            out.append(st.message());
            out.append("\n");
            out.append("Caused by:\n\t");
            out.append(st.source().as_str());
            out.append("\n");
        },
    }
    assert(out@ =~= spec_chain_report(*e));
    out
}

} // verus!
