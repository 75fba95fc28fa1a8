//! The one shape every asynchronously fetched value takes on screen.
use vstd::prelude::*;

verus! {

/// Async data slot: not requested yet, in flight, arrived, or failed with a
/// message.
#[derive(Debug, Clone)]
pub enum Loadable<T> {
    NotAsked,
    Loading,
    Ready(T),
    Failed(String),
}

impl<T> Default for Loadable<T> {
    fn default() -> (r: Self)
        ensures
            r is NotAsked,
    {
        Loadable::NotAsked
    }
}

impl<T> Loadable<T> {
    /// The value, once it has arrived.
    pub fn ready(&self) -> (r: Option<&T>)
        ensures
            r is Some <==> self is Ready,
            r matches Some(v) ==> *v == self->Ready_0,
    {
        match self {
            Loadable::Ready(t) => Some(t),
            _ => None,
        }
    }

    /// The failure message, if the fetch failed.
    pub fn failed(&self) -> (r: Option<&String>)
        ensures
            r is Some <==> self is Failed,
            r matches Some(e) ==> *e == self->Failed_0,
    {
        match self {
            Loadable::Failed(e) => Some(e),
            _ => None,
        }
    }

    pub fn is_loading(&self) -> (r: bool)
        ensures
            r <==> self is Loading,
    {
        matches!(self, Loadable::Loading)
    }

    /// Store a finished fetch only if it answers the latest request
    /// (`seq == current`); an older request finishing late is dropped.
    pub fn set_if_current(&mut self, seq: u64, current: u64, result: core::result::Result<T, String>)
        ensures
            seq != current ==> *final(self) == *old(self),
            seq == current ==> match result {
                Ok(t) => *final(self) == Loadable::Ready(t),
                Err(e) => *final(self) == Loadable::<T>::Failed(e),
            },
    {
        if seq == current {
            self.set(result);
        }
    }

    /// Store a finished fetch: its value, or its error message.
    pub fn set(&mut self, result: core::result::Result<T, String>)
        ensures
            match result {
                Ok(t) => *final(self) == Loadable::Ready(t),
                Err(e) => *final(self) == Loadable::<T>::Failed(e),
            },
    {
        *self = match result {
            Ok(t) => Loadable::Ready(t),
            Err(e) => Loadable::Failed(e),
        };
    }
}

} // verus!
