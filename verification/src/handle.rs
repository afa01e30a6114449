//! Handles: the values that the Vulkan API hands to applications for the
//! objects it creates. A handle owns its object until it is unboxed; the null
//! handle owns nothing.

use vstd::prelude::*;

verus! {

/// The word that an installable client driver puts first in every
/// dispatchable object, where the loader looks for it.
pub const ICD_LOADER_MAGIC: u64 = 0x01CDC0DE;

/// A handle that owns an object of type `T`, or the null handle.
pub struct Handle<T> {
    object: Option<Box<T>>,
}

impl<T> View for Handle<T> {
    type V = Option<T>;

    /// The object behind the handle, `None` for the null handle.
    closed spec fn view(&self) -> Option<T> {
        match self.object {
            Some(b) => Some(*b),
            None => None,
        }
    }
}

impl<T> Handle<T> {
    /// A handle for a new object.
    pub fn new(value: T) -> (r: Self)
        ensures
            r@ == Some(value),
    {
        Handle { object: Some(Box::new(value)) }
    }

    /// The null handle.
    pub fn null() -> (r: Self)
        ensures
            r@ is None,
    {
        Handle { object: None }
    }

    /// Gives back the object of a non-null handle.
    pub fn unbox(self) -> (r: T)
        requires
            self@ is Some,
        ensures
            self@ == Some(r),
    {
        match self.object {
            Some(b) => *b,
            None => vstd::pervasive::unreached(),
        }
    }

    pub fn is_null(&self) -> (r: bool)
        ensures
            r == (self@ is None),
    {
        self.object.is_none()
    }

    /// The object of a non-null handle.
    pub fn borrow(&self) -> (r: &T)
        requires
            self@ is Some,
        ensures
            self@ == Some(*r),
    {
        match &self.object {
            Some(b) => &**b,
            None => vstd::pervasive::unreached(),
        }
    }
}

/// A handle to a dispatchable object: the object comes after the word that the
/// loader reads.
pub struct DispatchHandle<T> {
    object: Option<Box<(u64, T)>>,
}

impl<T> DispatchHandle<T> {
    /// Every dispatchable object starts with the loader's word.
    #[verifier::type_invariant]
    spec fn loader_word_set(self) -> bool {
        match self.object {
            Some(b) => b.0 == ICD_LOADER_MAGIC,
            None => true,
        }
    }
}

impl<T> View for DispatchHandle<T> {
    type V = Option<T>;

    /// The object behind the handle, `None` for the null handle.
    closed spec fn view(&self) -> Option<T> {
        match self.object {
            Some(b) => Some(b.1),
            None => None,
        }
    }
}

impl<T> DispatchHandle<T> {
    /// A handle for a new dispatchable object.
    pub fn new(value: T) -> (r: Self)
        ensures
            r@ == Some(value),
    {
        DispatchHandle { object: Some(Box::new((ICD_LOADER_MAGIC, value))) }
    }

    /// The null handle.
    pub fn null() -> (r: Self)
        ensures
            r@ is None,
    {
        DispatchHandle { object: None }
    }

    /// Gives back the object of a non-null handle.
    pub fn unbox(self) -> (r: T)
        requires
            self@ is Some,
        ensures
            self@ == Some(r),
    {
        proof {
            use_type_invariant(&self);
        }
        let DispatchHandle { object } = self;
        match object {
            Some(b) => {
                let (_, value) = *b;
                value
            },
            None => vstd::pervasive::unreached(),
        }
    }

    pub fn is_null(&self) -> (r: bool)
        ensures
            r == (self@ is None),
    {
        self.object.is_none()
    }

    /// The object of a non-null handle.
    pub fn borrow(&self) -> (r: &T)
        requires
            self@ is Some,
        ensures
            self@ == Some(*r),
    {
        match &self.object {
            Some(b) => &b.1,
            None => vstd::pervasive::unreached(),
        }
    }

    /// The word that the loader finds at the start of the object; the loader's
    /// magic word for every non-null handle.
    pub fn loader_word(&self) -> (r: Option<u64>)
        ensures
            r is Some <==> self@ is Some,
            r is Some ==> r == Some(ICD_LOADER_MAGIC),
    {
        proof {
            use_type_invariant(self);
        }
        match &self.object {
            Some(b) => Some(b.0),
            None => None,
        }
    }
}

} // verus!
