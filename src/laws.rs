use vstd::prelude::*;

use crate::env::{resolve_outcome, spec_lookup, EnvBinding, HostValue};
use crate::error::Error;
use crate::request::{BodyFormat, PendingRead, Request};

verus! {

/// Where no entry of `entries` is named `name`, the lookup finds nothing.
proof fn lemma_lookup_absent(entries: Seq<(Seq<char>, HostValue)>, name: Seq<char>)
    requires
        forall|i: int| 0 <= i < entries.len() ==> entries[i].0 != name,
    ensures
        spec_lookup(entries, name).is_none(),
    decreases entries.len(),
{
    if entries.len() > 0 {
        assert(entries[0].0 != name);
        assert forall|i: int| 0 <= i < entries.drop_first().len() implies entries.drop_first()[i].0 != name by {
            assert(entries.drop_first()[i] == entries[i + 1]);
        }
        lemma_lookup_absent(entries.drop_first(), name);
    }
}

/// The lookup finds the value of the first entry named `name`.
proof fn lemma_lookup_first(entries: Seq<(Seq<char>, HostValue)>, name: Seq<char>, k: int)
    requires
        0 <= k < entries.len(),
        entries[k].0 == name,
        forall|j: int| 0 <= j < k ==> entries[j].0 != name,
    ensures
        spec_lookup(entries, name) == Some(entries[k].1),
    decreases k,
{
    if k > 0 {
        assert forall|j: int| 0 <= j < k - 1 implies entries.drop_first()[j].0 != name by {
            assert(entries.drop_first()[j] == entries[j + 1]);
        }
        assert(entries.drop_first()[k - 1] == entries[k]);
        lemma_lookup_first(entries.drop_first(), name, k - 1);
    }
}

/// Resolving a name that no entry has fails with `BindingNotFound`; a name
/// whose first entry is `undefined` fails with `BindingUndefined`; a name whose
/// first entry is an object of another kind fails with `BindingTypeMismatch`.
pub proof fn law_resolution_errors<T: EnvBinding>(
    entries: Seq<(Seq<char>, HostValue)>,
    name: Seq<char>,
    r: Result<T, Error>,
)
    requires
        resolve_outcome(entries, name, r),
    ensures
        (forall|i: int| 0 <= i < entries.len() ==> entries[i].0 != name)
            ==> (r matches Err(Error::BindingNotFound(n)) && n@ == name),
        forall|k: int|
            0 <= k < entries.len() && entries[k].0 == name
                && (forall|j: int| 0 <= j < k ==> entries[j].0 != name) ==> {
                &&& entries[k].1 is Undefined ==> (r matches Err(Error::BindingUndefined(n)) && n@ == name)
                &&& (entries[k].1 matches HostValue::Object(o) && o.spec_constructor_name() != T::spec_type_name())
                    ==> (r matches Err(Error::BindingTypeMismatch(e, a)))
            },
{
    if forall|i: int| 0 <= i < entries.len() ==> entries[i].0 != name {
        lemma_lookup_absent(entries, name);
    }
    assert forall|k: int|
        0 <= k < entries.len() && entries[k].0 == name
            && (forall|j: int| 0 <= j < k ==> entries[j].0 != name) implies {
            &&& entries[k].1 is Undefined ==> (r matches Err(Error::BindingUndefined(n)) && n@ == name)
            &&& (entries[k].1 matches HostValue::Object(o) && o.spec_constructor_name() != T::spec_type_name())
                ==> (r matches Err(Error::BindingTypeMismatch(e, a)))
        } by {
        lemma_lookup_first(entries, name, k);
    }
}

/// Every call that asks for the body leaves it used, whatever its outcome,
/// so a second call of any format is refused with `BodyUsed`: at most one of
/// two calls hands out a read.
pub proof fn law_single_consumption(
    r0: Request,
    r1: Request,
    r2: Request,
    first: Result<PendingRead, Error>,
    second: Result<PendingRead, Error>,
    f1: BodyFormat,
    f2: BodyFormat,
)
    requires
        Request::decode_outcome(r0, r1, first, f1),
        Request::decode_outcome(r1, r2, second, f2),
    ensures
        r1.spec_body_used(),
        second matches Err(Error::BodyUsed),
        !(first is Ok && second is Ok),
{
}

/// A request cloned before its body was asked for can be read on its own:
/// reading the original first leaves the clone's body unused, and a read
/// asked of either is not refused with `BodyUsed`.
pub proof fn law_clone_independent(
    r0: Request,
    copy: Request,
    r1: Request,
    c1: Request,
    on_original: Result<PendingRead, Error>,
    on_copy: Result<PendingRead, Error>,
    f1: BodyFormat,
    f2: BodyFormat,
)
    requires
        !r0.spec_body_used(),
        Request::clone_outcome(r0, Ok(copy)),
        Request::decode_outcome(r0, r1, on_original, f1),
        Request::decode_outcome(copy, c1, on_copy, f2),
    ensures
        !(on_original matches Err(Error::BodyUsed)),
        !(on_copy matches Err(Error::BodyUsed)),
{
}

} // verus!
