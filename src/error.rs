use vstd::prelude::*;

verus! {

/// Every failure this library reports to its callers.
#[derive(Debug, Clone, PartialEq, Eq)]
pub enum Error {
    /// The environment holds no binding under this name.
    BindingNotFound(String),
    /// The binding exists but its value is `undefined`.
    BindingUndefined(String),
    /// The binding's runtime type name is not the expected one: (expected, actual).
    BindingTypeMismatch(String, String),
    /// The host refused the URI, method or options given for a new request.
    ConstructionError(String),
    /// The body of the request was already read, or a read was already started.
    BodyUsed,
    /// A stream was asked for but the request carries no body.
    NoBody,
    /// An operation of the host failed; the text is the host's, or a fallback.
    JsError(String),
    /// Headers or path were to be changed on a request received from the host.
    ImmutableMutationDenied,
    /// The request's URL, which the `url` crate cannot parse.
    InvalidUrl(String),
    /// The host parsed the body, but its value does not have the asked-for shape.
    Deserialization(String),
}

} // verus!
