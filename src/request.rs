use vstd::prelude::*;

use crate::error::Error;
use crate::host::{Cf, EdgeRequest, Headers, Method};
use crate::url_ext::{derive_path, parsed_path, spec_derive_path, url_path};

verus! {

/// The ways in which a request body can be read.
#[derive(Clone, Copy, Debug, PartialEq, Eq, Structural)]
pub enum BodyFormat {
    Json,
    Text,
    Bytes,
    FormData,
    Stream,
}

/// The text reported when the host fails a read in the given format and
/// gives no message of its own.
pub open spec fn spec_fallback_message(format: BodyFormat) -> Seq<char> {
    match format {
        BodyFormat::Json => "failed to get JSON for body value"@,
        BodyFormat::Text => "failed to get text for body value"@,
        BodyFormat::Bytes => "failed to read array buffer from request"@,
        BodyFormat::FormData => "failed to get form data from request"@,
        BodyFormat::Stream => "failed to read body stream from request"@,
    }
}

pub fn fallback_message(format: BodyFormat) -> (r: String)
    ensures
        r@ == spec_fallback_message(format),
{
    match format {
        BodyFormat::Json => "failed to get JSON for body value".to_owned(),
        BodyFormat::Text => "failed to get text for body value".to_owned(),
        BodyFormat::Bytes => "failed to read array buffer from request".to_owned(),
        BodyFormat::FormData => "failed to get form data from request".to_owned(),
        BodyFormat::Stream => "failed to read body stream from request".to_owned(),
    }
}

/// The error for an outcome of the host that carries the message `message`,
/// if it gave one.
pub open spec fn spec_host_error(message: Option<String>, format: BodyFormat) -> Seq<char> {
    match message {
        Some(m) => m@,
        None => spec_fallback_message(format),
    }
}

/// A read of the body that the host is to perform. It is handed out once per
/// request, and turns the host's outcome into this library's result.
#[derive(Debug)]
pub struct PendingRead {
    format: BodyFormat,
}

impl PendingRead {
    pub closed spec fn spec_format(&self) -> BodyFormat {
        self.format
    }

    /// The format in which the host is to read the body.
    pub fn format(&self) -> (r: BodyFormat)
        ensures
            r == self.spec_format(),
    {
        self.format
    }

    /// The result of the read, from the host's outcome: the value, or the
    /// host's message (`None` where it gave none).
    pub fn finish<T>(self, outcome: Result<T, Option<String>>) -> (r: Result<T, Error>)
        ensures
            match outcome {
                Ok(v) => r == Ok::<T, Error>(v),
                Err(m) => r matches Err(Error::JsError(e))
                    && e@ == spec_host_error(m, self.spec_format()),
            },
    {
        match outcome {
            Ok(v) => Ok(v),
            Err(Some(m)) => Err(Error::JsError(m)),
            Err(None) => Err(Error::JsError(fallback_message(self.format))),
        }
    }

    /// The result of a structured read: the host's outcome, then the outcome of
    /// giving the parsed value the caller's shape.
    pub fn finish_json<T>(self, outcome: Result<Result<T, String>, Option<String>>) -> (r: Result<T, Error>)
        ensures
            match outcome {
                Ok(Ok(v)) => r == Ok::<T, Error>(v),
                Ok(Err(d)) => r == Err::<T, Error>(Error::Deserialization(d)),
                Err(m) => r matches Err(Error::JsError(e))
                    && e@ == spec_host_error(m, self.spec_format()),
            },
    {
        match outcome {
            Ok(Ok(v)) => Ok(v),
            Ok(Err(d)) => Err(Error::Deserialization(d)),
            Err(Some(m)) => Err(Error::JsError(m)),
            Err(None) => Err(Error::JsError(fallback_message(self.format))),
        }
    }
}

/// An incoming or outgoing HTTP request around one host handle, whose body
/// can be read once.
#[derive(Debug)]
pub struct Request {
    method: Method,
    path: String,
    headers: Headers,
    cf: Cf,
    edge_request: EdgeRequest,
    body_used: bool,
    immutable: bool,
}

impl Request {
    pub closed spec fn spec_method(&self) -> Method {
        self.method
    }

    pub closed spec fn spec_path(&self) -> Seq<char> {
        self.path@
    }

    pub closed spec fn spec_headers(&self) -> Headers {
        self.headers
    }

    pub closed spec fn spec_cf(&self) -> Cf {
        self.cf
    }

    pub closed spec fn spec_edge(&self) -> EdgeRequest {
        self.edge_request
    }

    /// Whether a read of the body was asked for.
    pub closed spec fn spec_body_used(&self) -> bool {
        self.body_used
    }

    /// Whether headers and path are fixed.
    pub closed spec fn spec_immutable(&self) -> bool {
        self.immutable
    }

    /// What a request holds just after it was made from the handle `e`.
    pub open spec fn fresh_from(&self, e: EdgeRequest) -> bool {
        &&& self.spec_method() == e.spec_method()
        &&& self.spec_path() == spec_derive_path(e.spec_url())
        &&& self.spec_headers().spec_entries() == e.spec_headers().spec_entries()
        &&& self.spec_cf().spec_properties() == e.spec_cf().spec_properties()
        &&& self.spec_edge() == e
        &&& !self.spec_body_used()
    }

    /// The request around a handle that the host delivered; its headers and
    /// path are fixed.
    pub fn from_edge(req: EdgeRequest) -> (r: Request)
        ensures
            r.fresh_from(req),
            r.spec_immutable(),
    {
        let path = derive_path(req.url().as_str());
        Request {
            method: req.method(),
            path,
            headers: req.headers().duplicate(),
            cf: req.cf().duplicate(),
            edge_request: req,
            body_used: false,
            immutable: true,
        }
    }

    /// The outcome of building a request from what the host's constructor
    /// gave: the created handle, or the host's message (`None` where it gave
    /// none). The request is mutable; a refusal carries the host's message, or
    /// `fallback`.
    pub open spec fn construction_outcome(
        created: Result<EdgeRequest, Option<String>>,
        fallback: Seq<char>,
        r: Result<Request, Error>,
    ) -> bool {
        match created {
            Ok(e) => {
                &&& r is Ok
                &&& r->Ok_0.fresh_from(e)
                &&& !r->Ok_0.spec_immutable()
            },
            Err(m) => {
                &&& r matches Err(Error::ConstructionError(t))
                &&& r->Err_0->ConstructionError_0@ == match m {
                    Some(t) => t@,
                    None => fallback,
                }
            },
        }
    }

    /// Builds a mutable request from `created`.
    fn from_created(created: Result<EdgeRequest, Option<String>>, fallback: &str) -> (r: Result<Request, Error>)
        ensures
            Request::construction_outcome(created, fallback@, r),
    {
        match created {
            Ok(e) => {
                let mut req = Request::from_edge(e);
                req.immutable = false;
                Ok(req)
            },
            Err(Some(m)) => Err(Error::ConstructionError(m)),
            Err(None) => Err(Error::ConstructionError(fallback.to_owned())),
        }
    }

    /// A new request from the outcome of the host's constructor called with a
    /// URI and a method. It is `Ok` exactly where the host accepted them.
    pub fn new(created: Result<EdgeRequest, Option<String>>) -> (r: Result<Request, Error>)
        ensures
            Request::construction_outcome(created, "invalid URL or method for Request"@, r),
    {
        Request::from_created(created, "invalid URL or method for Request")
    }

    /// A new request from the outcome of the host's constructor called with a
    /// URI and a `RequestInit`. It is `Ok` exactly where the host accepted them.
    pub fn new_with_init(created: Result<EdgeRequest, Option<String>>) -> (r: Result<Request, Error>)
        ensures
            Request::construction_outcome(created, "invalid URL or options for Request"@, r),
    {
        Request::from_created(created, "invalid URL or options for Request")
    }

    /// What a successful start of a read leaves: the body is used and the
    /// handle disturbed, all else as before.
    pub open spec fn read_started(&self, before: Request) -> bool {
        &&& self.spec_body_used()
        &&& self.spec_edge().spec_disturbed()
        &&& self.spec_method() == before.spec_method()
        &&& self.spec_path() == before.spec_path()
        &&& self.spec_headers() == before.spec_headers()
        &&& self.spec_cf() == before.spec_cf()
        &&& self.spec_immutable() == before.spec_immutable()
        &&& self.spec_edge().spec_url() == before.spec_edge().spec_url()
        &&& self.spec_edge().spec_has_body() == before.spec_edge().spec_has_body()
    }

    /// The outcome of starting a read in `format` on `before`, which leaves
    /// `after`: refused where the body was used, and else handed out.
    pub open spec fn read_gate(before: Request, after: Request, r: Result<PendingRead, Error>, format: BodyFormat) -> bool {
        if before.spec_body_used() {
            &&& r matches Err(Error::BodyUsed)
            &&& after == before
        } else {
            &&& r matches Ok(p)
            &&& r->Ok_0.spec_format() == format
            &&& after.read_started(before)
        }
    }

    /// The outcome of a call that asks for the body in `format` on `before`,
    /// which leaves `after`. A stream is refused where the handle has no body;
    /// the body counts as used all the same.
    pub open spec fn decode_outcome(before: Request, after: Request, r: Result<PendingRead, Error>, format: BodyFormat) -> bool {
        if format == BodyFormat::Stream && !before.spec_body_used() && !before.spec_edge().spec_has_body() {
            &&& r matches Err(Error::NoBody)
            &&& after.spec_body_used()
            &&& after.spec_edge() == before.spec_edge()
            &&& after.spec_immutable() == before.spec_immutable()
            &&& after.spec_path() == before.spec_path()
            &&& after.spec_method() == before.spec_method()
            &&& after.spec_headers() == before.spec_headers()
            &&& after.spec_cf() == before.spec_cf()
        } else {
            Request::read_gate(before, after, r, format)
        }
    }

    /// Starts a read of the body in `format`. The body counts as used from
    /// here on, whatever the read's outcome.
    fn start_read(&mut self, format: BodyFormat) -> (r: Result<PendingRead, Error>)
        ensures
            Request::read_gate(*old(self), *final(self), r, format),
    {
        if self.body_used {
            return Err(Error::BodyUsed);
        }
        self.body_used = true;
        self.edge_request.disturb();
        Ok(PendingRead { format })
    }

    /// Starts a read of the body as structured data.
    pub fn json(&mut self) -> (r: Result<PendingRead, Error>)
        ensures
            Request::decode_outcome(*old(self), *final(self), r, BodyFormat::Json),
    {
        self.start_read(BodyFormat::Json)
    }

    /// Starts a read of the body as text.
    pub fn text(&mut self) -> (r: Result<PendingRead, Error>)
        ensures
            Request::decode_outcome(*old(self), *final(self), r, BodyFormat::Text),
    {
        self.start_read(BodyFormat::Text)
    }

    /// Starts a read of the body as raw bytes.
    pub fn bytes(&mut self) -> (r: Result<PendingRead, Error>)
        ensures
            Request::decode_outcome(*old(self), *final(self), r, BodyFormat::Bytes),
    {
        self.start_read(BodyFormat::Bytes)
    }

    /// Starts a read of the body as form fields and files.
    pub fn form_data(&mut self) -> (r: Result<PendingRead, Error>)
        ensures
            Request::decode_outcome(*old(self), *final(self), r, BodyFormat::FormData),
    {
        self.start_read(BodyFormat::FormData)
    }

    /// Takes the body as a stream of byte chunks. The body counts as used from
    /// here on, also where the handle has no body to give.
    pub fn stream(&mut self) -> (r: Result<PendingRead, Error>)
        ensures
            Request::decode_outcome(*old(self), *final(self), r, BodyFormat::Stream),
    {
        if self.body_used {
            return Err(Error::BodyUsed);
        }
        if !self.edge_request.has_body() {
            self.body_used = true;
            return Err(Error::NoBody);
        }
        self.start_read(BodyFormat::Stream)
    }

    /// The headers of this request.
    pub fn headers(&self) -> (r: &Headers)
        ensures
            *r == self.spec_headers(),
    {
        &self.headers
    }

    /// The headers, to be changed; refused on a request that the host delivered.
    pub fn headers_mut(&mut self) -> (r: Result<&mut Headers, Error>)
        ensures
            old(self).spec_immutable() ==> (r matches Err(Error::ImmutableMutationDenied)),
            old(self).spec_immutable() ==> *final(self) == *old(self),
            !old(self).spec_immutable() ==> (r matches Ok(h) && *h == old(self).spec_headers()
                && final(self).spec_headers() == *final(h) && !final(self).spec_immutable()
                && final(self).spec_path() == old(self).spec_path()
                && final(self).spec_method() == old(self).spec_method()
                && final(self).spec_cf() == old(self).spec_cf()
                && final(self).spec_body_used() == old(self).spec_body_used()
                && final(self).spec_edge() == old(self).spec_edge()),
    {
        if self.immutable {
            return Err(Error::ImmutableMutationDenied);
        }
        Ok(&mut self.headers)
    }

    /// The platform-specific properties of this request.
    pub fn cf(&self) -> (r: &Cf)
        ensures
            *r == self.spec_cf(),
    {
        &self.cf
    }

    /// The method of this request.
    pub fn method(&self) -> (r: Method)
        ensures
            r == self.spec_method(),
    {
        self.method
    }

    /// The path of this request.
    pub fn path(&self) -> (r: String)
        ensures
            r@ == self.spec_path(),
    {
        self.path.clone()
    }

    /// The path, to be changed; refused on a request that the host delivered.
    pub fn path_mut(&mut self) -> (r: Result<&mut String, Error>)
        ensures
            old(self).spec_immutable() ==> (r matches Err(Error::ImmutableMutationDenied)),
            old(self).spec_immutable() ==> *final(self) == *old(self),
            !old(self).spec_immutable() ==> (r matches Ok(p) && p@ == old(self).spec_path()
                && final(self).spec_path() == final(p)@ && !final(self).spec_immutable()
                && final(self).spec_method() == old(self).spec_method()
                && final(self).spec_cf() == old(self).spec_cf()
                && final(self).spec_headers() == old(self).spec_headers()
                && final(self).spec_body_used() == old(self).spec_body_used()
                && final(self).spec_edge() == old(self).spec_edge()),
    {
        if self.immutable {
            return Err(Error::ImmutableMutationDenied);
        }
        Ok(&mut self.path)
    }

    /// The outcome of cloning `src`: refused once a read of its body has
    /// started, else a fresh request around a copy of its handle.
    pub open spec fn clone_outcome(src: Request, r: Result<Request, Error>) -> bool {
        if src.spec_edge().spec_disturbed() {
            &&& r matches Err(Error::JsError(m))
            &&& r->Err_0->JsError_0@ == "request body is already used"@
        } else {
            &&& r matches Ok(q)
            &&& r->Ok_0.spec_immutable()
            &&& !r->Ok_0.spec_body_used()
            &&& !r->Ok_0.spec_edge().spec_disturbed()
            &&& r->Ok_0.spec_method() == src.spec_method()
            &&& r->Ok_0.spec_edge().spec_method() == src.spec_edge().spec_method()
            &&& r->Ok_0.spec_path() == spec_derive_path(src.spec_edge().spec_url())
            &&& r->Ok_0.spec_edge().spec_url() == src.spec_edge().spec_url()
            &&& r->Ok_0.spec_edge().spec_has_body() == src.spec_edge().spec_has_body()
        }
    }

    /// A new request around a second handle on the same host request. Its body
    /// is unread and its headers and path are fixed, as for a delivered
    /// request. The host refuses once a read of this body has started.
    pub fn clone(&self) -> (r: Result<Request, Error>)
        ensures
            Request::clone_outcome(*self, r),
    {
        match self.edge_request.clone_handle() {
            Some(e) => {
                let mut copy = Request::from_edge(e);
                copy.method = self.method;
                Ok(copy)
            },
            None => Err(Error::JsError("request body is already used".to_owned())),
        }
    }

    /// The URL of this request, where the `url` crate can parse it.
    pub fn url(&self) -> (r: Result<String, Error>)
        ensures
            r is Ok <==> parsed_path(self.spec_edge().spec_url()).is_some(),
            r matches Ok(u) ==> u@ == self.spec_edge().spec_url(),
            r matches Err(e) ==> e matches Error::InvalidUrl(u) && u@ == self.spec_edge().spec_url(),
    {
        let url = self.edge_request.url().clone();
        match url_path(url.as_str()) {
            Some(_) => Ok(url),
            None => Err(Error::InvalidUrl(url)),
        }
    }

    /// The host handle.
    pub fn inner(&self) -> (r: &EdgeRequest)
        ensures
            *r == self.spec_edge(),
    {
        &self.edge_request
    }
}

} // verus!
