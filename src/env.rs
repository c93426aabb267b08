use vstd::prelude::*;

use crate::error::Error;

verus! {

/// An object of the host, as far as binding checks read it: the name of its
/// constructor, and its string value where it is a string.
#[derive(Debug)]
pub struct HostObject {
    constructor_name: String,
    string_value: Option<String>,
}

impl HostObject {
    pub closed spec fn spec_constructor_name(&self) -> Seq<char> {
        self.constructor_name@
    }

    pub closed spec fn spec_string_value(&self) -> Option<String> {
        self.string_value
    }

    /// The object whose constructor is called `constructor_name`.
    pub fn new(constructor_name: String, string_value: Option<String>) -> (r: HostObject)
        ensures
            r.spec_constructor_name() == constructor_name@,
            r.spec_string_value() == string_value,
    {
        HostObject { constructor_name, string_value }
    }

    /// The name that the object reports for its constructor.
    pub fn constructor_name(&self) -> (r: &String)
        ensures
            r@ == self.spec_constructor_name(),
    {
        &self.constructor_name
    }

    /// A second reference to the same object.
    pub fn duplicate(&self) -> (r: HostObject)
        ensures
            r == *self,
    {
        let string_value = match &self.string_value {
            Some(s) => Some(s.clone()),
            None => None,
        };
        HostObject { constructor_name: self.constructor_name.clone(), string_value }
    }
}

/// A value that the environment maps a name to.
#[derive(Debug)]
pub enum HostValue {
    Undefined,
    Object(HostObject),
}

/// A kind of binding, known by the constructor name that its objects report.
pub trait EnvBinding: Sized {
    /// The constructor name that objects of this kind report.
    spec fn spec_type_name() -> Seq<char>;

    /// The host object that the binding wraps.
    spec fn spec_handle(&self) -> HostObject;

    fn binding_type_name() -> (r: String)
        ensures
            r@ == Self::spec_type_name(),
    ;

    /// The binding around `obj`, taken to be of this kind without a check.
    fn unchecked_from(obj: HostObject) -> (r: Self)
        ensures
            r.spec_handle() == obj,
    ;
}

/// The outcome of checking `obj` against the kind `T`: the binding where the
/// constructor name is the kind's, and else a mismatch naming both.
pub open spec fn cast_outcome<T: EnvBinding>(obj: HostObject, r: Result<T, Error>) -> bool {
    if obj.spec_constructor_name() == T::spec_type_name() {
        &&& r is Ok
        &&& r->Ok_0.spec_handle() == obj
    } else {
        &&& r matches Err(Error::BindingTypeMismatch(e, a))
        &&& r->Err_0->BindingTypeMismatch_0@ == T::spec_type_name()
        &&& r->Err_0->BindingTypeMismatch_1@ == obj.spec_constructor_name()
    }
}

/// Checks that `obj` reports the constructor name of `T`, and wraps it. The
/// check trusts the name the object reports; an object that reports a false
/// name passes it.
pub fn get<T: EnvBinding>(obj: HostObject) -> (r: Result<T, Error>)
    ensures
        cast_outcome(obj, r),
{
    let expected = T::binding_type_name();
    if *obj.constructor_name() == expected {
        Ok(T::unchecked_from(obj))
    } else {
        let actual = obj.constructor_name().clone();
        Err(Error::BindingTypeMismatch(expected, actual))
    }
}

/// A string binding: a secret or a plain variable.
#[derive(Debug)]
pub struct StringBinding {
    handle: HostObject,
}

impl EnvBinding for StringBinding {
    open spec fn spec_type_name() -> Seq<char> {
        "String"@
    }

    closed spec fn spec_handle(&self) -> HostObject {
        self.handle
    }

    fn binding_type_name() -> (r: String) {
        "String".to_owned()
    }

    fn unchecked_from(obj: HostObject) -> (r: Self) {
        StringBinding { handle: obj }
    }
}

/// A namespace of durable objects.
#[derive(Debug)]
pub struct ObjectNamespace {
    handle: HostObject,
}

impl EnvBinding for ObjectNamespace {
    open spec fn spec_type_name() -> Seq<char> {
        "DurableObjectNamespace"@
    }

    closed spec fn spec_handle(&self) -> HostObject {
        self.handle
    }

    fn binding_type_name() -> (r: String) {
        "DurableObjectNamespace".to_owned()
    }

    fn unchecked_from(obj: HostObject) -> (r: Self) {
        ObjectNamespace { handle: obj }
    }
}

/// A dispatcher of events to other programs.
#[derive(Debug)]
pub struct DynamicDispatcher {
    handle: HostObject,
}

impl EnvBinding for DynamicDispatcher {
    open spec fn spec_type_name() -> Seq<char> {
        "DynamicDispatcher"@
    }

    closed spec fn spec_handle(&self) -> HostObject {
        self.handle
    }

    fn binding_type_name() -> (r: String) {
        "DynamicDispatcher".to_owned()
    }

    fn unchecked_from(obj: HostObject) -> (r: Self) {
        DynamicDispatcher { handle: obj }
    }
}

/// A binding to another program, reached by requests.
#[derive(Debug)]
pub struct Fetcher {
    handle: HostObject,
}

impl EnvBinding for Fetcher {
    open spec fn spec_type_name() -> Seq<char> {
        "Fetcher"@
    }

    closed spec fn spec_handle(&self) -> HostObject {
        self.handle
    }

    fn binding_type_name() -> (r: String) {
        "Fetcher".to_owned()
    }

    fn unchecked_from(obj: HostObject) -> (r: Self) {
        Fetcher { handle: obj }
    }
}

/// A queue that messages can be sent to.
#[derive(Debug)]
pub struct Queue {
    handle: HostObject,
}

impl EnvBinding for Queue {
    open spec fn spec_type_name() -> Seq<char> {
        "WorkerQueue"@
    }

    closed spec fn spec_handle(&self) -> HostObject {
        self.handle
    }

    fn binding_type_name() -> (r: String) {
        "WorkerQueue".to_owned()
    }

    fn unchecked_from(obj: HostObject) -> (r: Self) {
        Queue { handle: obj }
    }
}

impl StringBinding {
    /// The string value, or the empty string where the object holds none.
    pub fn to_string(&self) -> (r: String)
        ensures
            r@ == match self.spec_handle().spec_string_value() {
                Some(v) => v@,
                None => Seq::empty(),
            },
    {
        match &self.handle.string_value {
            Some(v) => v.clone(),
            None => String::new(),
        }
    }
}

/// A binding to a secret value.
pub type Secret = StringBinding;

/// A binding to a plain-text variable.
pub type Var = StringBinding;

/// A key-value namespace. Its binding is looked up by name, without a check
/// of the constructor name.
#[derive(Debug)]
pub struct KvStore {
    handle: HostObject,
}

impl KvStore {
    pub closed spec fn spec_handle(&self) -> HostObject {
        self.handle
    }
}

/// The value of the first entry named `name`.
pub open spec fn spec_lookup(entries: Seq<(Seq<char>, HostValue)>, name: Seq<char>) -> Option<HostValue>
    decreases entries.len(),
{
    if entries.len() == 0 {
        None
    } else if entries[0].0 == name {
        Some(entries[0].1)
    } else {
        spec_lookup(entries.drop_first(), name)
    }
}

/// The outcome of resolving `name` in `entries` as a binding of the kind `T`.
pub open spec fn resolve_outcome<T: EnvBinding>(
    entries: Seq<(Seq<char>, HostValue)>,
    name: Seq<char>,
    r: Result<T, Error>,
) -> bool {
    match spec_lookup(entries, name) {
        None => {
            &&& r matches Err(Error::BindingNotFound(n))
            &&& r->Err_0->BindingNotFound_0@ == name
        },
        Some(HostValue::Undefined) => {
            &&& r matches Err(Error::BindingUndefined(n))
            &&& r->Err_0->BindingUndefined_0@ == name
        },
        Some(HostValue::Object(o)) => cast_outcome(o, r),
    }
}

/// The bindings that the host gives a program, by name.
#[derive(Debug)]
pub struct Env {
    entries: Vec<(String, HostValue)>,
}

impl Env {
    pub closed spec fn spec_entries(&self) -> Seq<(Seq<char>, HostValue)> {
        Seq::new(self.entries@.len(), |i: int| (self.entries@[i].0@, self.entries@[i].1))
    }

    /// The environment with these entries; where a name stands twice, the
    /// first entry counts.
    pub fn new(entries: Vec<(String, HostValue)>) -> (r: Env)
        ensures
            r.spec_entries() == Seq::new(entries@.len(), |i: int| (entries@[i].0@, entries@[i].1)),
    {
        Env { entries }
    }

    /// The value under `name`, if the environment has the name.
    fn lookup(&self, name: &str) -> (r: Option<HostValue>)
        ensures
            r == spec_lookup(self.spec_entries(), name@),
    {
        let ghost s = self.spec_entries();
        let key = name.to_owned();
        let n = self.entries.len();
        assert(s.subrange(0, n as int) =~= s);
        let mut i: usize = 0;
        while i < n
            invariant
                i <= n,
                n == self.entries@.len(),
                s == self.spec_entries(),
                key@ == name@,
                spec_lookup(s, name@) == spec_lookup(s.subrange(i as int, n as int), name@),
            decreases n - i,
        {
            assert(s.subrange(i as int, n as int).drop_first() =~= s.subrange(i + 1, n as int));
            assert(s.subrange(i as int, n as int)[0] == s[i as int]);
            if self.entries[i].0 == key {
                return match &self.entries[i].1 {
                    HostValue::Undefined => Some(HostValue::Undefined),
                    HostValue::Object(o) => Some(HostValue::Object(o.duplicate())),
                };
            }
            i = i + 1;
        }
        assert(s.subrange(n as int, n as int) =~= Seq::<(Seq<char>, HostValue)>::empty());
        None
    }

    /// Resolves `name` as a binding of the kind `T`: absent names, names bound
    /// to `undefined` and objects of another kind are refused.
    pub fn get_binding<T: EnvBinding>(&self, name: &str) -> (r: Result<T, Error>)
        ensures
            resolve_outcome(self.spec_entries(), name@, r),
    {
        match self.lookup(name) {
            None => Err(Error::BindingNotFound(name.to_owned())),
            Some(HostValue::Undefined) => Err(Error::BindingUndefined(name.to_owned())),
            Some(HostValue::Object(o)) => get::<T>(o),
        }
    }

    /// The secret bound to `binding`.
    pub fn secret(&self, binding: &str) -> (r: Result<Secret, Error>)
        ensures
            resolve_outcome(self.spec_entries(), binding@, r),
    {
        self.get_binding::<Secret>(binding)
    }

    /// The plain-text variable bound to `binding`.
    pub fn var(&self, binding: &str) -> (r: Result<Var, Error>)
        ensures
            resolve_outcome(self.spec_entries(), binding@, r),
    {
        self.get_binding::<Var>(binding)
    }

    /// The key-value namespace bound to `binding`.
    pub fn kv(&self, binding: &str) -> (r: Result<KvStore, Error>)
        ensures
            match spec_lookup(self.spec_entries(), binding@) {
                None => r matches Err(Error::BindingNotFound(n)) && n@ == binding@,
                Some(HostValue::Undefined) => r matches Err(Error::BindingUndefined(n)) && n@ == binding@,
                Some(HostValue::Object(o)) => r matches Ok(k) && k.spec_handle() == o,
            },
    {
        match self.lookup(binding) {
            None => Err(Error::BindingNotFound(binding.to_owned())),
            Some(HostValue::Undefined) => Err(Error::BindingUndefined(binding.to_owned())),
            Some(HostValue::Object(o)) => Ok(KvStore { handle: o }),
        }
    }

    /// The durable object namespace bound to `binding`.
    pub fn durable_object(&self, binding: &str) -> (r: Result<ObjectNamespace, Error>)
        ensures
            resolve_outcome(self.spec_entries(), binding@, r),
    {
        self.get_binding::<ObjectNamespace>(binding)
    }

    /// The dispatcher bound to `binding`.
    pub fn dynamic_dispatcher(&self, binding: &str) -> (r: Result<DynamicDispatcher, Error>)
        ensures
            resolve_outcome(self.spec_entries(), binding@, r),
    {
        self.get_binding::<DynamicDispatcher>(binding)
    }

    /// The service bound to `binding`.
    pub fn service(&self, binding: &str) -> (r: Result<Fetcher, Error>)
        ensures
            resolve_outcome(self.spec_entries(), binding@, r),
    {
        self.get_binding::<Fetcher>(binding)
    }

    /// The queue bound to `binding`.
    pub fn queue(&self, binding: &str) -> (r: Result<Queue, Error>)
        ensures
            resolve_outcome(self.spec_entries(), binding@, r),
    {
        self.get_binding::<Queue>(binding)
    }
}

} // verus!
