//! Useful utilities for handling raw responses of the server and collecting them
//! into types that can be returned through a result wrapper.

use vstd::prelude::*;

use crate::snd::pulse::owned::IntoOwnedInfo;

verus! {

// TYPE DEFINITIONS ************************************************************

/// A part of a response that consists of a list.
#[derive(Debug)]
pub enum ListResult<T> {
    /// An element of the list.
    Item(T),

    /// The end of the list.
    End,

    /// The list could not be provided.
    Error,
}

/// Basic trait providing convenience functions for collecting data into a
/// result while an operation runs.
pub trait CollectResult<T>: Sized {
    /// What was collected.
    spec fn collected(&self) -> T;

    /// Core access function to the underlying data. All other Collect traits
    /// defined in this module have default implementations based on this
    /// method.
    fn access(&mut self) -> (r: &mut T)
        ensures
            *r == old(self).collected(),
            final(self).collected() == *final(r),
    ;

    /// Stores the given value in the underlying result, overwriting any
    /// previous value.
    fn store(&mut self, value: T)
        ensures
            final(self).collected() == value,
    {
        *self.access() = value;
    }
}

/// Extension trait for implementations of [`CollectResult`] that wrap an
/// [`Option`].
pub trait CollectOptionalResult<T>: CollectResult<Option<T>> {
    /// Only stores the given value if no other value has been set thus far.
    fn first(&mut self, value: T)
        ensures
            final(self).collected() == (match old(self).collected() {
                Some(previous) => Some(previous),
                None => Some(value),
            }),
    {
        let result = self.access();
        if result.is_none() {
            *result = Some(value);
        }
    }

    /// Wraps the given value in an `Option` and stores it, overwriting any
    /// previous value.
    fn last(&mut self, value: T)
        ensures
            final(self).collected() == Some(value),
    {
        self.store(Some(value));
    }

    /// Attempts to unwrap an info object from a [`ListResult`], storing it in
    /// the result if and only if the result has a valid info object, and no
    /// other info objects have already been stored in the result.
    fn first_info_in_list<I: IntoOwnedInfo<Owned = T>>(&mut self, info: ListResult<&I>)
        ensures
            match (old(self).collected(), info) {
                (None, ListResult::Item(info)) => final(self).collected() matches Some(owned)
                    && info.owned_as(owned),
                _ => final(self).collected() == old(self).collected(),
            },
    {
        if let ListResult::Item(info) = info {
            self.first(info.into_owned());
        }
    }
}

/// Extension trait for implementations of [`CollectResult`] that wrap a [`Vec`].
pub trait CollectListResult<T>: CollectResult<Vec<T>> {
    /// Appends the given value to the underlying `Vec`.
    fn push(&mut self, value: T)
        ensures
            final(self).collected()@ == old(self).collected()@.push(value),
    {
        self.access().push(value);
    }

    /// Converts the given info object into its owned equivalent before pushing
    /// to the underyling list.
    fn push_info<I: IntoOwnedInfo<Owned = T>>(&mut self, info: &I)
        ensures
            exists|owned: T| #[trigger]
                info.owned_as(owned) && final(self).collected()@ == old(self).collected()@.push(
                    owned,
                ),
    {
        self.push(info.into_owned());
    }

    /// Attempts to unwrap an info object from a [`ListResult`], appending it to
    /// the underlying `Vec` if and only if the result has a valid info object.
    fn push_info_from_list<I: IntoOwnedInfo<Owned = T>>(&mut self, info: ListResult<&I>)
        ensures
            match info {
                ListResult::Item(info) => exists|owned: T| #[trigger]
                    info.owned_as(owned) && final(self).collected()@ == old(self).collected()@.push(
                        owned,
                    ),
                _ => final(self).collected() == old(self).collected(),
            },
    {
        if let ListResult::Item(info) = info {
            self.push_info(info);
        }
    }
}

/// Holds what was collected while an operation runs.
#[derive(Debug)]
pub struct Collector<T> {
    result: T,
}

// TYPE IMPLS ******************************************************************

impl<T> Collector<T> {
    /// Creates a collector that holds the given value until another one is
    /// collected.
    pub fn new(initial_value: T) -> (r: Self)
        ensures
            r.collected() == initial_value,
    {
        Collector { result: initial_value }
    }

    /// Returns what was collected.
    pub fn into_result(self) -> (r: T)
        ensures
            r == self.collected(),
    {
        self.result
    }
}

impl<T> CollectResult<T> for Collector<T> {
    closed spec fn collected(&self) -> T {
        self.result
    }

    fn access(&mut self) -> (r: &mut T) {
        &mut self.result
    }
}

impl<T> CollectOptionalResult<T> for Collector<Option<T>> {

}

impl<T> CollectListResult<T> for Collector<Vec<T>> {

}

// PUBLIC HELPER FUNCTIONS *****************************************************

/// Converts a [`ListResult`] to an [`Option`] when the [`ListResult`] is an
/// `Item`.
///
/// Considering that it is detected automatically when an operation ceases
/// execution, there rarely is a need to handle the additional states of a
/// [`ListResult`].
pub fn with_list<'a, T>(list_result: ListResult<&'a T>) -> (r: Option<&'a T>)
    ensures
        r == (match list_result {
            ListResult::Item(t) => Some(t),
            _ => None,
        }),
{
    match list_result {
        ListResult::Item(t) => Some(t),
        _ => None,
    }
}

/// Produces `Some` with the contained list element iff the list result is an
/// `Item` and the contained item matches the given `predicate`.
pub fn filter_list<'a, T, P: Fn(&'a T) -> bool>(list_result: ListResult<&'a T>, predicate: P) -> (r:
    Option<&'a T>)
    requires
        list_result matches ListResult::Item(t) ==> call_requires(predicate, (t,)),
    ensures
        match list_result {
            ListResult::Item(t) => (r == Some(t) && call_ensures(predicate, (t,), true)) || (r
                is None && call_ensures(predicate, (t,), false)),
            _ => r is None,
        },
{
    match with_list(list_result) {
        Some(t) => if predicate(t) {
            Some(t)
        } else {
            None
        },
        None => None,
    }
}

} // verus!
