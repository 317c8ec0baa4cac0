//! A memoization slot that keeps its backing storage across invalidation.
use vstd::prelude::*;

verus! {

/// A slot for a computed value. Invalidating a valid value keeps it as
/// storage for the next computation, but it counts as absent until then.
#[derive(Clone, Debug)]
pub enum Cached<T> {
    /// Nothing is stored.
    Empty,
    /// A value is retained for the sake of its storage; it is not valid.
    Unused(T),
    /// A valid value.
    Used(T),
}

impl<T> Cached<T> {
    /// The valid value, if there is one.
    pub open spec fn value(self) -> Option<T> {
        match self {
            Cached::Used(t) => Some(t),
            _ => None,
        }
    }

    /// The retained storage, if there is any.
    pub open spec fn retained(self) -> Option<T> {
        match self {
            Cached::Unused(t) => Some(t),
            _ => None,
        }
    }

    /// The slot after invalidation: a valid value becomes retained storage,
    /// anything else stays as it is.
    pub open spec fn invalidated(self) -> Self {
        match self {
            Cached::Used(t) => Cached::Unused(t),
            other => other,
        }
    }

    /// The valid value, if there is one.
    pub fn get(&self) -> (r: Option<&T>)
        ensures
            r == match self.value() {
                Some(t) => Some(&t),
                None => None,
            },
    {
        match self {
            Cached::Empty => None,
            Cached::Unused(_) => None,
            Cached::Used(t) => Some(t),
        }
    }

    /// True when there is no valid value.
    pub fn is_unused(&self) -> (r: bool)
        ensures
            r == (self.value() is None),
    {
        match self {
            Cached::Empty => true,
            Cached::Unused(_) => true,
            Cached::Used(_) => false,
        }
    }

    /// True when there is a valid value.
    pub fn is_used(&self) -> (r: bool)
        ensures
            r == (self.value() is Some),
    {
        match self {
            Cached::Empty => false,
            Cached::Unused(_) => false,
            Cached::Used(_) => true,
        }
    }

    /// Takes the valid value out, leaving the slot empty. A slot without a
    /// valid value is left as it is.
    pub fn take_used(&mut self) -> (r: Option<T>)
        ensures
            r == old(self).value(),
            *final(self) == (if old(self).value() is Some {
                Cached::Empty
            } else {
                *old(self)
            }),
    {
        let mut taken = Cached::Empty;
        core::mem::swap(self, &mut taken);
        match taken {
            Cached::Used(t) => Some(t),
            other => {
                *self = other;
                None
            },
        }
    }

    /// Takes the retained storage out, leaving the slot empty. A slot without
    /// retained storage is left as it is.
    pub fn take_unused(&mut self) -> (r: Option<T>)
        ensures
            r == old(self).retained(),
            *final(self) == (if old(self).retained() is Some {
                Cached::Empty
            } else {
                *old(self)
            }),
    {
        let mut taken = Cached::Empty;
        core::mem::swap(self, &mut taken);
        match taken {
            Cached::Unused(t) => Some(t),
            other => {
                *self = other;
                None
            },
        }
    }

    /// Stores a valid value.
    pub fn set_used(&mut self, val: T)
        ensures
            *final(self) == Cached::Used(val),
    {
        *self = Cached::Used(val);
    }

    /// Invalidates the slot, keeping a valid value as storage.
    pub fn set_unused(&mut self)
        ensures
            *final(self) == old(self).invalidated(),
    {
        let mut taken = Cached::Empty;
        core::mem::swap(self, &mut taken);
        *self = match taken {
            Cached::Used(t) => Cached::Unused(t),
            other => other,
        };
    }
}

} // verus!
