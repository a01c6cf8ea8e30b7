//! Values of any type on their way through the host: boxed, and passed under
//! a name that says what they are. The host hands a pointer back only to one
//! who asks for it under the same name.

use vstd::prelude::*;
use vstd::slice::slice_to_vec;
use crate::context::{Context, HostCall, HostCallView};
use crate::text::{first_nul, nul_free, until_nul};

verus! {

/// Two names are one name to the host, which reads a name up to its first
/// zero byte.
pub open spec fn same_name(a: Seq<u8>, b: Seq<u8>) -> bool {
    until_nul(a) == until_nul(b)
}

/// What is in the box, if there is a box.
pub open spec fn unboxed<T>(boxed: Option<Box<T>>) -> Option<T> {
    match boxed {
        Some(b) => Some(*b),
        None => None,
    }
}

/// A boxed value together with the name under which it was bound.
#[derive(Debug)]
pub struct TaggedPointer<T> {
    name: Vec<u8>,
    object: Box<T>,
}

impl<T> TaggedPointer<T> {
    /// The name under which the value was bound.
    pub closed spec fn name(&self) -> Seq<u8> {
        self.name@
    }

    /// The value that was bound.
    pub closed spec fn object(&self) -> T {
        *self.object
    }

    /// What one who asks under the name `asked` is given: the value where
    /// `asked` is the name of the binding, as the host reads names, and
    /// else nothing.
    pub open spec fn reclaimed(&self, asked: Seq<u8>) -> Option<T> {
        if same_name(self.name(), asked) {
            Some(self.object())
        } else {
            None
        }
    }

    /// Boxes `object` and binds it under `name`.
    pub fn bind(object: T, name: &[u8]) -> (bound: TaggedPointer<T>)
        ensures
            bound.name() == name@,
            bound.object() == object,
    {
        TaggedPointer { name: slice_to_vec(name), object: Box::new(object) }
    }

    /// Binds under `name` a value that is boxed already.
    pub fn from_parts(name: Vec<u8>, object: Box<T>) -> (bound: TaggedPointer<T>)
        ensures
            bound.name() == name@,
            bound.object() == *object,
    {
        TaggedPointer { name, object }
    }

    /// The name under which the value was bound.
    pub fn tag(&self) -> (name: &[u8])
        ensures
            name@ == self.name(),
    {
        self.name.as_slice()
    }

    /// Gives the box back to one who asks under the name of the binding,
    /// and nothing to one who asks under another name.
    pub fn reclaim(self, name: &[u8]) -> (reclaimed: Option<Box<T>>)
        ensures
            unboxed(reclaimed) == self.reclaimed(name@),
    {
        if names_match(self.name.as_slice(), name) {
            Some(self.object)
        } else {
            None
        }
    }

    /// Takes the binding apart without asking for a name: the name and the
    /// box, for the one who hands them to the host.
    pub fn into_parts(self) -> (parts: (Vec<u8>, Box<T>))
        ensures
            parts.0@ == self.name(),
            *parts.1 == self.object(),
    {
        (self.name, self.object)
    }
}

/// A value bound under a name comes back, equal to what was bound, to one
/// who asks under that name; one who asks under a name that the host reads
/// as another is given nothing.
pub proof fn reclaim_after_bind<T>(bound: TaggedPointer<T>, object: T, name: Seq<u8>, asked: Seq<u8>)
    requires
        bound.name() == name,
        bound.object() == object,
    ensures
        bound.reclaimed(name) == Some(object),
        !same_name(name, asked) ==> bound.reclaimed(asked).is_none(),
        asked != name && nul_free(asked) && nul_free(name) ==> bound.reclaimed(asked).is_none(),
{
}

/// The length of `name` as the host reads it.
fn name_length(name: &[u8]) -> (n: usize)
    ensures
        n == until_nul(name@).len(),
        n <= name@.len(),
        until_nul(name@) == name@.take(n as int),
{
    match first_nul(name) {
        Some(at) => at,
        None => {
            assert(name@.take(name@.len() as int) =~= name@);
            name.len()
        },
    }
}

/// Tells whether the host reads `a` and `b` as the same name.
pub fn names_match(a: &[u8], b: &[u8]) -> (same: bool)
    ensures
        same == same_name(a@, b@),
{
    let n: usize = name_length(a);
    if n != name_length(b) {
        return false;
    }
    let ghost left = until_nul(a@);
    let ghost right = until_nul(b@);
    let mut i: usize = 0;
    while i < n
        invariant
            i <= n,
            n <= a@.len(),
            n <= b@.len(),
            left == until_nul(a@),
            right == until_nul(b@),
            left == a@.take(n as int),
            right == b@.take(n as int),
            forall|k: int| 0 <= k < i ==> left[k] == right[k],
        decreases n - i,
    {
        if a[i] != b[i] {
            assert(left[i as int] != right[i as int]);
            return false;
        }
        i += 1;
    }
    assert(left =~= right);
    true
}

/// Sets the result to a pointer to `object`, passed under `name`. The
/// binding returned is what the host keeps: it gives the object back only
/// under the same name.
pub fn result_pointer<T>(context: &mut Context, name: &[u8], object: T) -> (bound: TaggedPointer<
    T,
>)
    ensures
        final(context)@ == old(context)@.push(HostCallView::Pointer { name: name@ }),
        bound.name() == name@,
        bound.object() == object,
{
    context.record(HostCall::Pointer { name: slice_to_vec(name) });
    TaggedPointer::bind(object, name)
}

/// Asks a value that carries a pointer for the object behind it. The object
/// comes back where `c_name` is the name it was bound under, and nothing
/// comes back under any other name.
pub fn value_pointer<T>(value: TaggedPointer<T>, c_name: &[u8]) -> (reclaimed: Option<Box<T>>)
    ensures
        unboxed(reclaimed) == value.reclaimed(c_name@),
{
    value.reclaim(c_name)
}

} // verus!
