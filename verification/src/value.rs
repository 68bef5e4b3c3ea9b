//! Reactive values: a field that is either fixed or recomputed on every read.

use std::marker::PhantomData;
use std::rc::Rc;
use vstd::prelude::*;

verus! {

/// `dyn_clone::clone_box`: duplicates the value behind a reference into a new box.
///
/// For a sized type that implements `Clone`, the crate calls that type's own `clone`
/// and boxes what it returns; the contract says exactly that the boxed value is a
/// result of cloning `value`.
#[verifier::external_body]
fn clone_box<T: Clone>(value: &T) -> (copy: Box<T>)
    ensures
        cloned::<T>(*value, *copy),
{
    dyn_clone::clone_box(value)
}

/// `Rc::clone`: a second handle to the same allocation, so it holds the same value.
#[verifier::external_body]
pub(crate) fn share<T>(handle: &Rc<T>) -> (other: Rc<T>)
    ensures
        other == *handle,
{
    Rc::clone(handle)
}

/// A stored zero-argument computation that may always be called.
///
/// Clones share the computation; they never copy it.
#[verifier::reject_recursive_types(T)]
pub struct Thunk<T, F: Fn() -> T> {
    run: Rc<F>,
    marker: PhantomData<T>,
}

impl<T, F: Fn() -> T> Thunk<T, F> {
    /// The computation this thunk stands for.
    pub closed spec fn computation(&self) -> F {
        *self.run
    }

    #[verifier::type_invariant]
    spec fn callable(self) -> bool {
        call_requires(*self.run, ())
    }

    /// Stores `f`, which must accept being called without arguments.
    pub fn new(f: F) -> (thunk: Self)
        requires
            call_requires(f, ()),
        ensures
            thunk.computation() == f,
    {
        Thunk { run: Rc::new(f), marker: PhantomData }
    }

    /// Invokes the computation once and returns what it produced.
    pub fn call(&self) -> (result: T)
        ensures
            call_ensures(self.computation(), (), result),
    {
        proof {
            use_type_invariant(self);
        }
        (self.run)()
    }
}

impl<T, F: Fn() -> T> Clone for Thunk<T, F> {
    /// Another holder of the same computation.
    fn clone(&self) -> (other: Self)
        ensures
            other.computation() == self.computation(),
    {
        proof {
            use_type_invariant(self);
        }
        Thunk { run: share(&self.run), marker: PhantomData }
    }
}

/// A reactive value: either a constant or a computation resolved on demand.
#[verifier::reject_recursive_types(T)]
pub enum Value<T, F: Fn() -> T = fn() -> T> {
    /// A fixed value; every read hands out a fresh duplicate of it.
    Const(T),
    /// A computation; every read invokes it again.
    Expr(Thunk<T, F>),
}

impl<T: Clone, F: Fn() -> T> Value<T, F> {
    /// Whether `result` is something a read of this value may return.
    pub open spec fn resolves_to(&self, result: T) -> bool {
        match self {
            Value::Const(v) => cloned::<T>(*v, result),
            Value::Expr(thunk) => call_ensures(thunk.computation(), (), result),
        }
    }

    /// Reads the value: a duplicate of the constant, or the computation's current result.
    pub fn value(&self) -> (result: T)
        ensures
            self.resolves_to(result),
    {
        match self {
            Value::Const(v) => *clone_box(v),
            Value::Expr(thunk) => thunk.call(),
        }
    }

    /// A value recomputed by `f` on every read.
    pub fn from_expr(f: F) -> (value: Self)
        requires
            call_requires(f, ()),
        ensures
            value matches Value::Expr(thunk) && thunk.computation() == f,
    {
        Value::Expr(Thunk::new(f))
    }

    /// A value fixed to `v`.
    pub fn from_const(v: T) -> (value: Self)
        ensures
            value == Value::<T, F>::Const(v),
    {
        Value::Const(v)
    }
}

impl<T: Clone, F: Fn() -> T> Clone for Value<T, F> {
    /// A copy that duplicates a constant and shares a computation.
    fn clone(&self) -> (other: Self)
        ensures
            match *self {
                Value::Const(v) => other matches Value::Const(w) && cloned::<T>(v, w),
                Value::Expr(thunk) => other matches Value::Expr(shared)
                    && shared.computation() == thunk.computation(),
            },
    {
        match self {
            Value::Const(v) => Value::Const(*clone_box(v)),
            Value::Expr(thunk) => Value::Expr(thunk.clone()),
        }
    }
}

/// Whether cloning a `T` always yields a value equal to the one cloned.
pub open spec fn clone_is_exact<T: Clone>() -> bool {
    forall|source: T, copy: T| cloned::<T>(source, copy) ==> copy == source
}

/// Reading a constant twice gives two duplicates of the stored value, and the
/// stored value is the same for both reads. Where cloning is exact, both reads
/// equal the stored value.
pub proof fn lemma_const_reads_are_duplicates<T: Clone, F: Fn() -> T>(
    value: Value<T, F>,
    first: T,
    second: T,
)
    requires
        value is Const,
        value.resolves_to(first),
        value.resolves_to(second),
    ensures
        cloned::<T>(value->Const_0, first),
        cloned::<T>(value->Const_0, second),
        clone_is_exact::<T>() ==> first == value->Const_0 && second == value->Const_0,
{
}

/// A read of a computed value returns exactly what a direct call of the computation
/// may return: every result of the computation can be read, and nothing else can.
pub proof fn lemma_expr_reads_are_calls<T: Clone, F: Fn() -> T>(value: Value<T, F>, result: T)
    requires
        value is Expr,
    ensures
        value.resolves_to(result) <==> call_ensures(value->Expr_0.computation(), (), result),
{
}

} // verus!
