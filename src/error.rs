use vstd::prelude::*;

verus! {

/// The name under which a service is known.
pub type ServerId = String;

/// Why a service failed: at start, while processing a message, or in a client
/// exchange with a remote party.
#[derive(Debug, Clone)]
pub enum ServerError {
    /// `start` failed; carries the reason and the failing service's name.
    StartError(String, ServerId),
    /// A message could not be processed.
    RuntimeError(String),
    /// A client or transport exchange failed.
    ClientError(String),
}

/// The kernel-wide error: a failing service, a channel that could not carry a
/// message, or a call made where it cannot run. Each carries its reason.
#[derive(Debug, Clone)]
pub enum KernelError {
    /// A supervised service failed.
    Server(ServerError),
    /// The channel to a service is closed.
    ChannelError(String),
    /// No runtime was there to run a service on.
    NoRuntime(String),
    /// A blocking send was asked for where blocking would stall a runtime.
    BlockingNotAllowed(String),
}

/// The reason carried by an error, whatever its kind.
pub open spec fn reason_of(e: KernelError) -> String {
    match e {
        KernelError::Server(ServerError::StartError(r, _)) => r,
        KernelError::Server(ServerError::RuntimeError(r)) => r,
        KernelError::Server(ServerError::ClientError(r)) => r,
        KernelError::ChannelError(r) => r,
        KernelError::NoRuntime(r) => r,
        KernelError::BlockingNotAllowed(r) => r,
    }
}

impl KernelError {
    /// The reason this error carries.
    pub fn into_reason(self) -> (r: String)
        ensures
            r == reason_of(self),
    {
        match self {
            KernelError::Server(ServerError::StartError(r, _)) => r,
            KernelError::Server(ServerError::RuntimeError(r)) => r,
            KernelError::Server(ServerError::ClientError(r)) => r,
            KernelError::ChannelError(r) => r,
            KernelError::NoRuntime(r) => r,
            KernelError::BlockingNotAllowed(r) => r,
        }
    }
}

pub type Res<T> = Result<T, KernelError>;

pub type VoidRes = Result<(), KernelError>;

impl From<ServerError> for KernelError {
    fn from(e: ServerError) -> (r: KernelError)
        ensures
            r == KernelError::Server(e),
    {
        KernelError::Server(e)
    }
}

impl vstd::std_specs::convert::FromSpecImpl<ServerError> for KernelError {
    open spec fn obeys_from_spec() -> bool {
        true
    }

    open spec fn from_spec(e: ServerError) -> KernelError {
        KernelError::Server(e)
    }
}

#[verifier::external_type_specification]
#[verifier::external_body]
pub struct ExSshError(russh::Error);

#[verifier::external_type_specification]
#[verifier::external_body]
#[verifier::reject_recursive_types(T)]
pub struct ExPoisonError<T>(std::sync::PoisonError<T>);

/// Relies on the `Display` impl of `russh::Error` for the text of a transport
/// failure.
#[verifier::external_body]
fn ssh_error_text(e: &russh::Error) -> String {
    e.to_string()
}

/// The text std's `Display` gives every `PoisonError`.
pub const POISONED_LOCK: &'static str = "poisoned lock: another task failed inside";

/// Relies on the `Display` impl of `std::sync::PoisonError`: the one fixed
/// sentence for a lock left poisoned by a panicking holder.
#[verifier::external_body]
fn poison_text<T>(e: &std::sync::PoisonError<T>) -> (r: String)
    ensures
        r@ == POISONED_LOCK@,
{
    e.to_string()
}

/// A poisoned lock is a runtime failure of the service that holds it.
impl<T> From<std::sync::PoisonError<T>> for ServerError {
    fn from(error: std::sync::PoisonError<T>) -> (r: ServerError)
        ensures
            r matches ServerError::RuntimeError(t) && t@ == POISONED_LOCK@,
    {
        ServerError::RuntimeError(poison_text(&error))
    }
}

/// A failure of the SSH transport is a client failure.
impl From<russh::Error> for ServerError {
    fn from(e: russh::Error) -> (r: ServerError)
        ensures
            r is ClientError,
    {
        ServerError::ClientError(ssh_error_text(&e))
    }
}

// The text of these conversions comes from an outside `Display`, which
// their contracts state where it is fixed.
impl<T> vstd::std_specs::convert::FromSpecImpl<std::sync::PoisonError<T>> for ServerError {
    open spec fn obeys_from_spec() -> bool {
        false
    }

    open spec fn from_spec(error: std::sync::PoisonError<T>) -> ServerError {
        vstd::pervasive::arbitrary()
    }
}

impl vstd::std_specs::convert::FromSpecImpl<russh::Error> for ServerError {
    open spec fn obeys_from_spec() -> bool {
        false
    }

    open spec fn from_spec(e: russh::Error) -> ServerError {
        vstd::pervasive::arbitrary()
    }
}

} // verus!
