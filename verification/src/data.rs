//! Application data shared between the handlers of an application.

use std::ops::Deref;
use std::sync::Arc;
use vstd::prelude::*;
use vstd::std_specs::convert::FromSpecImpl;

verus! {

/// `Arc::clone` returns another pointer to the same allocation, so the value
/// behind it is the same.
#[verifier::external_body]
fn share<T: ?Sized>(arc: &Arc<T>) -> (copy: Arc<T>)
    ensures
        copy == *arc,
{
    Arc::clone(arc)
}

/// A piece of state that an application attaches to itself, a scope or a
/// resource, held behind a shared pointer so that every handler sees the one
/// value.
#[derive(Debug)]
pub struct Data<T: ?Sized>(Arc<T>);

impl<T: ?Sized> Data<T> {
    /// The pointer that holds the state.
    pub closed spec fn shared(&self) -> Arc<T> {
        self.0
    }
}

impl<T> Data<T> {
    /// Wraps `state` for sharing.
    pub fn new(state: T) -> (data: Data<T>)
        ensures
            *data.shared() == state,
    {
        Data(Arc::new(state))
    }

    /// The shared state.
    pub fn get_ref(&self) -> (state: &T)
        ensures
            *state == *self.shared(),
    {
        &*self.0
    }

    /// The pointer that holds the state.
    pub fn into_inner(self) -> (arc: Arc<T>)
        ensures
            arc == self.shared(),
    {
        self.0
    }
}

impl<T: ?Sized> Clone for Data<T> {
    /// Another handle on the same state.
    fn clone(&self) -> (copy: Data<T>)
        ensures
            copy.shared() == self.shared(),
    {
        Data(share(&self.0))
    }
}

impl<T: ?Sized> Deref for Data<T> {
    type Target = Arc<T>;

    /// The pointer that holds the state.
    fn deref(&self) -> (arc: &Arc<T>)
        ensures
            *arc == self.shared(),
    {
        &self.0
    }
}

impl<T: ?Sized> From<Arc<T>> for Data<T> {
    /// The data that shares the state behind `arc`.
    fn from(arc: Arc<T>) -> (data: Self)
        ensures
            data.shared() == arc,
    {
        Data(arc)
    }
}

impl<T: ?Sized> FromSpecImpl<Arc<T>> for Data<T> {
    open spec fn obeys_from_spec() -> bool {
        true
    }

    closed spec fn from_spec(arc: Arc<T>) -> Self {
        Data(arc)
    }
}

/// The failure to find application data of the type that a handler asks
/// for.
#[derive(Debug)]
pub struct DataNotConfigured {
    /// What the handler is answered with.
    pub message: &'static str,
}

impl<T: ?Sized> Data<T> {
    /// Extracts the data for a handler from what the request's application
    /// data holds for the type: another handle on the same state where there
    /// is one, else the failure that becomes an internal server error.
    pub fn from_request(found: Option<&Data<T>>) -> (extracted: Result<Data<T>, DataNotConfigured>)
        ensures
            found matches Some(data) ==> (extracted matches Ok(handle) && handle.shared()
                == data.shared()),
            found is None ==> (extracted matches Err(error) && error.message@
                == "App data is not configured, to configure use App::data()"@),
    {
        match found {
            Some(data) => Ok(data.clone()),
            None => Err(
                DataNotConfigured {
                    message: "App data is not configured, to configure use App::data()",
                },
            ),
        }
    }

    /// Another handle on the state, to store among the data of an
    /// application, and whether anything is stored.
    pub fn create(&self) -> (stored: (Data<T>, bool))
        ensures
            stored.0.shared() == self.shared(),
            stored.1,
    {
        (self.clone(), true)
    }
}

} // verus!
