use vstd::prelude::*;

use crate::url_ext::pairs_view;

verus! {

/// An HTTP request method.
#[derive(Clone, Copy, Debug, PartialEq, Eq, Structural)]
pub enum Method {
    Head,
    Get,
    Post,
    Put,
    Patch,
    Delete,
    Options,
    Connect,
    Trace,
}

/// The name of a method as it stands in a request line.
pub open spec fn method_name(m: Method) -> Seq<char> {
    match m {
        Method::Head => "HEAD"@,
        Method::Get => "GET"@,
        Method::Post => "POST"@,
        Method::Put => "PUT"@,
        Method::Patch => "PATCH"@,
        Method::Delete => "DELETE"@,
        Method::Options => "OPTIONS"@,
        Method::Connect => "CONNECT"@,
        Method::Trace => "TRACE"@,
    }
}

impl Method {
    /// The name of this method.
    pub fn as_str(&self) -> (r: &'static str)
        ensures
            r@ == method_name(*self),
    {
        match self {
            Method::Head => "HEAD",
            Method::Get => "GET",
            Method::Post => "POST",
            Method::Put => "PUT",
            Method::Patch => "PATCH",
            Method::Delete => "DELETE",
            Method::Options => "OPTIONS",
            Method::Connect => "CONNECT",
            Method::Trace => "TRACE",
        }
    }

    /// The method called `s`; names are matched exactly, upper case.
    pub fn from_name(s: &str) -> (r: Option<Method>)
        ensures
            r matches Some(m) ==> method_name(m) == s@,
            r is None ==> forall|m: Method| method_name(m) != s@,
    {
        let name = s.to_owned();
        if name == "HEAD".to_owned() {
            return Some(Method::Head);
        }
        if name == "GET".to_owned() {
            return Some(Method::Get);
        }
        if name == "POST".to_owned() {
            return Some(Method::Post);
        }
        if name == "PUT".to_owned() {
            return Some(Method::Put);
        }
        if name == "PATCH".to_owned() {
            return Some(Method::Patch);
        }
        if name == "DELETE".to_owned() {
            return Some(Method::Delete);
        }
        if name == "OPTIONS".to_owned() {
            return Some(Method::Options);
        }
        if name == "CONNECT".to_owned() {
            return Some(Method::Connect);
        }
        if name == "TRACE".to_owned() {
            return Some(Method::Trace);
        }
        None
    }
}

/// An ordered list of header names and values.
#[derive(Debug)]
pub struct Headers {
    entries: Vec<(String, String)>,
}

impl Headers {
    pub closed spec fn spec_entries(&self) -> Seq<(Seq<char>, Seq<char>)> {
        pairs_view(self.entries@)
    }

    /// An empty header list.
    pub fn new() -> (r: Headers)
        ensures
            r.spec_entries().len() == 0,
    {
        Headers { entries: Vec::new() }
    }

    /// Adds `value` under `name` after the entries already there.
    pub fn append(&mut self, name: &str, value: &str)
        ensures
            final(self).spec_entries() == old(self).spec_entries().push((name@, value@)),
    {
        self.entries.push((name.to_owned(), value.to_owned()));
        assert(pairs_view(self.entries@) =~= pairs_view(old(self).entries@).push((name@, value@)));
    }

    /// A copy with the same entries.
    pub fn duplicate(&self) -> (r: Headers)
        ensures
            r.spec_entries() == self.spec_entries(),
    {
        Headers { entries: clone_pairs(&self.entries) }
    }

    /// The entries, in order.
    pub fn entries(&self) -> (r: &Vec<(String, String)>)
        ensures
            pairs_view(r@) == self.spec_entries(),
    {
        &self.entries
    }
}

/// The platform-specific properties that the host attaches to a request.
#[derive(Debug)]
pub struct Cf {
    properties: Vec<(String, String)>,
}

impl Cf {
    pub closed spec fn spec_properties(&self) -> Seq<(Seq<char>, Seq<char>)> {
        pairs_view(self.properties@)
    }

    /// Properties with the given names and values.
    pub fn new(properties: Vec<(String, String)>) -> (r: Cf)
        ensures
            r.spec_properties() == pairs_view(properties@),
    {
        Cf { properties }
    }

    /// A copy with the same properties.
    pub fn duplicate(&self) -> (r: Cf)
        ensures
            r.spec_properties() == self.spec_properties(),
    {
        Cf { properties: clone_pairs(&self.properties) }
    }

    /// The properties, in order.
    pub fn properties(&self) -> (r: &Vec<(String, String)>)
        ensures
            pairs_view(r@) == self.spec_properties(),
    {
        &self.properties
    }
}

/// The options of a request built by the caller.
#[derive(Debug)]
pub struct RequestInit {
    pub method: Method,
    pub headers: Headers,
    pub body: Option<Vec<u8>>,
}

impl RequestInit {
    /// A `GET` request without headers or body.
    pub fn new() -> (r: RequestInit)
        ensures
            r.method == Method::Get,
            r.headers.spec_entries().len() == 0,
            r.body.is_none(),
    {
        RequestInit { method: Method::Get, headers: Headers::new(), body: None }
    }
}

/// The host's request object, as this library sees it.
#[derive(Debug)]
pub struct EdgeRequest {
    method: Method,
    url: String,
    headers: Headers,
    cf: Cf,
    has_body: bool,
    disturbed: bool,
}

impl EdgeRequest {
    pub closed spec fn spec_method(&self) -> Method {
        self.method
    }

    pub closed spec fn spec_url(&self) -> Seq<char> {
        self.url@
    }

    pub closed spec fn spec_headers(&self) -> Headers {
        self.headers
    }

    pub closed spec fn spec_cf(&self) -> Cf {
        self.cf
    }

    /// Whether the body can be read as a stream.
    pub closed spec fn spec_has_body(&self) -> bool {
        self.has_body
    }

    /// Whether a read of the body has been started on this handle.
    pub closed spec fn spec_disturbed(&self) -> bool {
        self.disturbed
    }

    /// The handle of a request that the host delivered, with its properties.
    pub fn new(method: Method, url: String, headers: Headers, cf: Cf, has_body: bool) -> (r: EdgeRequest)
        ensures
            r.spec_method() == method,
            r.spec_url() == url@,
            r.spec_headers() == headers,
            r.spec_cf() == cf,
            r.spec_has_body() == has_body,
            !r.spec_disturbed(),
    {
        EdgeRequest { method, url, headers, cf, has_body, disturbed: false }
    }

    /// A second handle on the same request; the host refuses it once a read of
    /// the body has started.
    pub fn clone_handle(&self) -> (r: Option<EdgeRequest>)
        ensures
            r.is_some() <==> !self.spec_disturbed(),
            r matches Some(e) ==> e.spec_method() == self.spec_method() && e.spec_url() == self.spec_url()
                && e.spec_headers().spec_entries() == self.spec_headers().spec_entries()
                && e.spec_cf().spec_properties() == self.spec_cf().spec_properties()
                && e.spec_has_body() == self.spec_has_body() && !e.spec_disturbed(),
    {
        if self.disturbed {
            return None;
        }
        Some(EdgeRequest {
            method: self.method,
            url: self.url.clone(),
            headers: Headers { entries: clone_pairs(&self.headers.entries) },
            cf: Cf { properties: clone_pairs(&self.cf.properties) },
            has_body: self.has_body,
            disturbed: false,
        })
    }

    /// Marks that a read of the body was started.
    pub(crate) fn disturb(&mut self)
        ensures
            final(self).spec_disturbed(),
            final(self).spec_method() == old(self).spec_method(),
            final(self).spec_url() == old(self).spec_url(),
            final(self).spec_headers() == old(self).spec_headers(),
            final(self).spec_cf() == old(self).spec_cf(),
            final(self).spec_has_body() == old(self).spec_has_body(),
    {
        self.disturbed = true;
    }

    pub fn method(&self) -> (r: Method)
        ensures
            r == self.spec_method(),
    {
        self.method
    }

    pub fn url(&self) -> (r: &String)
        ensures
            r@ == self.spec_url(),
    {
        &self.url
    }

    pub fn headers(&self) -> (r: &Headers)
        ensures
            *r == self.spec_headers(),
    {
        &self.headers
    }

    pub fn cf(&self) -> (r: &Cf)
        ensures
            *r == self.spec_cf(),
    {
        &self.cf
    }

    pub fn has_body(&self) -> (r: bool)
        ensures
            r == self.spec_has_body(),
    {
        self.has_body
    }
}

/// A copy of a list of pairs.
pub(crate) fn clone_pairs(v: &Vec<(String, String)>) -> (r: Vec<(String, String)>)
    ensures
        pairs_view(r@) == pairs_view(v@),
{
    let mut r: Vec<(String, String)> = Vec::new();
    let mut i: usize = 0;
    while i < v.len()
        invariant
            i <= v@.len(),
            r@.len() == i,
            forall|j: int| 0 <= j < i ==> r@[j].0@ == v@[j].0@ && r@[j].1@ == v@[j].1@,
        decreases v@.len() - i,
    {
        r.push((v[i].0.clone(), v[i].1.clone()));
        i = i + 1;
    }
    assert(pairs_view(r@) =~= pairs_view(v@));
    r
}

} // verus!
