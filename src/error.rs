use vstd::prelude::*;

verus! {

/// Declares futures' two-way sum, the failure of the handshake/service join.
#[verifier::external_type_specification]
#[verifier::reject_recursive_types(A)]
#[verifier::reject_recursive_types(B)]
pub struct ExEither<A, B>(futures::future::Either<A, B>);

/// Error produced by a `Connection`.
///
/// `P` is the protocol engine's error (h2's), `I` the error of service
/// instantiation, `S` the error of the service.
pub enum Error<P, I, S> {
    /// Error produced during the HTTP/2.0 handshake.
    Handshake(P),
    /// Error produced by the HTTP/2.0 stream.
    Protocol(P),
    /// Error produced when obtaining the service.
    NewService(I),
    /// Error produced by the service.
    Service(S),
    /// Error produced when attempting to spawn a task.
    Execute,
}

/// The variant of an `Error`, without its cause.
#[derive(PartialEq, Eq, Structural, Clone, Copy, Debug)]
pub enum ErrorKind {
    Handshake,
    Protocol,
    NewService,
    Service,
    Execute,
}

impl<P, I, S> Error<P, I, S> {
    /// The variant of this error.
    pub open spec fn kind_of(&self) -> ErrorKind {
        match self {
            Error::Handshake(_) => ErrorKind::Handshake,
            Error::Protocol(_) => ErrorKind::Protocol,
            Error::NewService(_) => ErrorKind::NewService,
            Error::Service(_) => ErrorKind::Service,
            Error::Execute => ErrorKind::Execute,
        }
    }

    /// Classifies the failure of the handshake/service join: the left side is
    /// the handshake's error, the right side the instantiation's.
    pub fn from_init(err: futures::future::Either<P, I>) -> (r: Self)
        ensures
            match err {
                futures::future::Either::A(e) => r == Error::<P, I, S>::Handshake(e),
                futures::future::Either::B(e) => r == Error::<P, I, S>::NewService(e),
            },
    {
        match err {
            futures::future::Either::A(e) => Error::Handshake(e),
            futures::future::Either::B(e) => Error::NewService(e),
        }
    }

    /// The variant of this error.
    pub fn kind(&self) -> (r: ErrorKind)
        ensures
            r == self.kind_of(),
    {
        match self {
            Error::Handshake(_) => ErrorKind::Handshake,
            Error::Protocol(_) => ErrorKind::Protocol,
            Error::NewService(_) => ErrorKind::NewService,
            Error::Service(_) => ErrorKind::Service,
            Error::Execute => ErrorKind::Execute,
        }
    }

    /// Whether this error carries a cause; every variant but `Execute` does.
    pub fn has_cause(&self) -> (r: bool)
        ensures
            r == !(self is Execute),
    {
        !matches!(self, Error::Execute)
    }

    /// A short description of the error, by variant.
    pub fn description(&self) -> (r: &'static str)
        ensures
            r@ == description_of(self.kind_of()),
    {
        match self {
            Error::Handshake(_) => "error occurred during HTTP/2.0 handshake",
            Error::Protocol(_) => "error produced by HTTP/2.0 stream",
            Error::NewService(_) => "error occured while obtaining service",
            Error::Service(_) => "error returned by service",
            Error::Execute => "error occurred while attempting to spawn a task",
        }
    }
}

/// The description of each variant.
pub open spec fn description_of(k: ErrorKind) -> Seq<char> {
    match k {
        ErrorKind::Handshake => "error occurred during HTTP/2.0 handshake"@,
        ErrorKind::Protocol => "error produced by HTTP/2.0 stream"@,
        ErrorKind::NewService => "error occured while obtaining service"@,
        ErrorKind::Service => "error returned by service"@,
        ErrorKind::Execute => "error occurred while attempting to spawn a task"@,
    }
}

} // verus!
