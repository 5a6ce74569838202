use vstd::prelude::*;

verus! {

/// Lets a struct choose, statically, how a field of type `T` is held: by
/// reference, by value, or by optional value. This spares the copy of a
/// field that is only read, without the cost of a choice made at run time.
pub trait Storage<'a, T: 'a> {
    type Store;
}

/// Like [`Storage`], for fields that are never held by reference.
pub trait ValStorage<T> {
    type Store;
}

/// Hold the struct fields by reference.
pub struct ByRef(std::convert::Infallible);

/// Hold the struct fields by value.
pub struct ByVal(std::convert::Infallible);

/// Hold the struct fields by optional value.
pub struct ByOptVal(std::convert::Infallible);

impl<'a, T: 'a> Storage<'a, T> for ByRef {
    type Store = &'a T;
}

impl<'a, T: 'a> Storage<'a, T> for ByVal {
    type Store = T;
}

impl<T> ValStorage<T> for ByVal {
    type Store = T;
}

impl<'a, T: 'a> Storage<'a, T> for ByOptVal {
    type Store = Option<T>;
}

impl<T> ValStorage<T> for ByOptVal {
    type Store = Option<T>;
}

} // verus!
