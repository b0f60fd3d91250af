//! ABI-stable optional values: a fixed tag-plus-payload layout that other
//! compilation units can construct and inspect directly, convertible to and
//! from the native optional.

use vstd::prelude::*;

verus! {

/// An optional value with a stable tag+payload layout, mirrored on the other
/// side of the foreign-function boundary by generated bindings.  For a
/// payload with a nontrivial destructor, dropping the `Present` variant
/// drops the payload exactly once; for a trivially copyable payload the
/// whole value is itself copyable.
#[derive(Debug, Clone, Copy, PartialEq)]
pub enum FfiOption<T> {
    Absent,
    Present(T),
}

/// The native optional a tagged optional stands for.
pub open spec fn spec_option<T>(o: FfiOption<T>) -> Option<T> {
    match o {
        FfiOption::Absent => Option::None,
        FfiOption::Present(t) => Option::Some(t),
    }
}

/// Mapping over a native optional, the reference point for the `map` law.
pub open spec fn spec_map<T, U>(o: Option<T>, f: spec_fn(T) -> U) -> Option<U> {
    match o {
        Option::None => Option::None,
        Option::Some(x) => Option::Some(f(x)),
    }
}

/// Chaining over a native optional, the reference point for the `and_then`
/// law.
pub open spec fn spec_and_then<T, U>(o: Option<T>, f: spec_fn(T) -> Option<U>) -> Option<U> {
    match o {
        Option::None => Option::None,
        Option::Some(x) => f(x),
    }
}

impl<T> FfiOption<T> {
    /// The abstract value of this optional.
    pub open spec fn view_opt(self) -> Option<T> {
        spec_option(self)
    }

    pub fn is_some(&self) -> (r: bool)
        ensures
            r == (self.view_opt() is Some),
    {
        match self {
            FfiOption::Absent => false,
            FfiOption::Present(_) => true,
        }
    }

    pub fn is_none(&self) -> (r: bool)
        ensures
            r == (self.view_opt() is None),
    {
        match self {
            FfiOption::Absent => true,
            FfiOption::Present(_) => false,
        }
    }

    pub fn as_ref(&self) -> (r: Option<&T>)
        ensures
            match r {
                Option::Some(v) => self.view_opt() == Option::Some(*v),
                Option::None => self.view_opt() is None,
            },
    {
        match self {
            FfiOption::Absent => Option::None,
            FfiOption::Present(t) => Option::Some(t),
        }
    }

    /// Same as [`Self::as_ref`], under the name the foreign bindings use.
    pub fn as_option(&self) -> (r: Option<&T>)
        ensures
            match r {
                Option::Some(v) => self.view_opt() == Option::Some(*v),
                Option::None => self.view_opt() is None,
            },
    {
        self.as_ref()
    }

    /// Puts `value` in and hands the previous state back.
    pub fn replace(&mut self, value: T) -> (r: FfiOption<T>)
        ensures
            final(self).view_opt() == Option::Some(value),
            r == *old(self),
    {
        let mut out = FfiOption::Present(value);
        core::mem::swap(self, &mut out);
        out
    }

    /// The tagged form of a native optional.
    pub fn from_opt(o: Option<T>) -> (r: FfiOption<T>)
        ensures
            r.view_opt() == o,
    {
        match o {
            Option::None => FfiOption::Absent,
            Option::Some(t) => FfiOption::Present(t),
        }
    }

    pub fn into_option(self) -> (r: Option<T>)
        ensures
            r == self.view_opt(),
    {
        match self {
            FfiOption::Absent => Option::None,
            FfiOption::Present(t) => Option::Some(t),
        }
    }

    /// Applies `f` to the payload, if any.  The optional is consumed, so
    /// the payload is moved into `f`, never duplicated and never leaked.
    pub fn map<U, F: FnOnce(T) -> U>(self, f: F) -> (r: Option<U>)
        requires
            forall|x: T| self.view_opt() == Option::Some(x) ==> f.requires((x,)),
        ensures
            self.view_opt() is None ==> r is None,
            forall|x: T|
                self.view_opt() == Option::Some(x) ==> r is Some && f.ensures(
                    (x,),
                    r->Some_0,
                ),
    {
        match self {
            FfiOption::Absent => Option::None,
            FfiOption::Present(t) => Option::Some(f(t)),
        }
    }

    /// Chains a fallible continuation over the payload, if any.
    pub fn and_then<U, F: FnOnce(T) -> Option<U>>(self, f: F) -> (r: Option<U>)
        requires
            forall|x: T| self.view_opt() == Option::Some(x) ==> f.requires((x,)),
        ensures
            self.view_opt() is None ==> r is None,
            forall|x: T| self.view_opt() == Option::Some(x) ==> f.ensures((x,), r),
    {
        match self {
            FfiOption::Absent => Option::None,
            FfiOption::Present(t) => f(t),
        }
    }
}

impl<T> Default for FfiOption<T> {
    fn default() -> (r: FfiOption<T>)
        ensures
            r.view_opt() is None,
    {
        FfiOption::Absent
    }
}

/// Law: the tagged optional and the native optional are the same value in
/// both directions — `Present(x)` stands for `Some(x)` and `Absent` for
/// `None`.
pub proof fn lemma_option_round_trip<T>(o: FfiOption<T>, x: T)
    ensures
        spec_option(FfiOption::Present(x)) == Option::Some(x),
        spec_option(FfiOption::<T>::Absent) == Option::<T>::None,
        spec_option(o) is Some ==> o == FfiOption::Present(spec_option(o)->Some_0),
        spec_option(o) is None ==> o == FfiOption::<T>::Absent,
{
}

/// Functor law: mapping the identity changes nothing.
pub proof fn lemma_map_identity<T>(o: Option<T>)
    ensures
        spec_map(o, |x: T| x) == o,
{
}

/// Functor law: mapping `f` and then `g` is mapping their composition.
pub proof fn lemma_map_composition<T, U, V>(o: Option<T>, f: spec_fn(T) -> U, g: spec_fn(U) -> V)
    ensures
        spec_map(spec_map(o, f), g) == spec_map(o, |x: T| g(f(x))),
{
}

/// Monad law, left identity: chaining `f` onto a present value is `f` of
/// that value.
pub proof fn lemma_and_then_left_identity<T, U>(x: T, f: spec_fn(T) -> Option<U>)
    ensures
        spec_and_then(Option::Some(x), f) == f(x),
{
}

/// Monad law, right identity: chaining the unit changes nothing.
pub proof fn lemma_and_then_right_identity<T>(o: Option<T>)
    ensures
        spec_and_then(o, |x: T| Option::Some(x)) == o,
{
}

/// Monad law, associativity: the grouping of two chained continuations does
/// not matter.
pub proof fn lemma_and_then_associativity<T, U, V>(
    o: Option<T>,
    f: spec_fn(T) -> Option<U>,
    g: spec_fn(U) -> Option<V>,
)
    ensures
        spec_and_then(spec_and_then(o, f), g) == spec_and_then(o, |x: T| spec_and_then(f(x), g)),
{
}

} // verus!
