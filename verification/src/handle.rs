//! Handles that point to the observers of a run by name.
use core::marker::PhantomData;
use vstd::prelude::*;

verus! {

/// Marks a handle of an observer that is given the child's standard output.
#[derive(Debug, Clone, Copy, PartialEq, Eq)]
pub struct StdOutObserver;

/// Marks a handle of an observer that is given the child's standard error.
#[derive(Debug, Clone, Copy, PartialEq, Eq)]
pub struct StdErrObserver;

/// Points to an observer of kind `T` by the observer's name.
#[derive(Debug)]
pub struct Handle<T> {
    name: String,
    phantom: PhantomData<T>,
}

impl<T> View for Handle<T> {
    type V = Seq<char>;

    closed spec fn view(&self) -> Seq<char> {
        self.name@
    }
}

impl<T> Clone for Handle<T> {
    fn clone(&self) -> (copy: Self)
        ensures
            copy == *self,
    {
        Handle { name: self.name.clone(), phantom: PhantomData }
    }
}

impl<T> Handle<T> {
    /// A handle of the observer with the given name.
    pub fn new(name: String) -> (handle: Self)
        ensures
            handle@ == name@,
    {
        Handle { name, phantom: PhantomData }
    }

    /// The name of the observer that this handle points to.
    pub fn name(&self) -> (name: &str)
        ensures
            name@ == self@,
    {
        self.name.as_str()
    }
}

} // verus!
