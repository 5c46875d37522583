use vstd::prelude::*;

verus! {

/// A slot that starts empty and is filled once the value it stands for
/// exists.
pub struct Nullable<T>(pub Option<T>);

impl<T> View for Nullable<T> {
    type V = Option<T>;

    open spec fn view(&self) -> Option<T> {
        self.0
    }
}

impl<T> Nullable<T> {
    /// An empty slot.
    pub fn null() -> (r: Self)
        ensures
            r@ is None,
    {
        Nullable(None)
    }

    /// Fills the slot with `val`, replacing what it held.
    pub fn put(&mut self, val: T)
        ensures
            final(self)@ == Some(val),
    {
        self.0 = Some(val);
    }

    /// Whether the slot has been filled.
    pub fn is_null(&self) -> (r: bool)
        ensures
            r == (self@ is None),
    {
        self.0.is_none()
    }

    /// The value in a filled slot.
    pub fn get(&self) -> (r: &T)
        requires
            self@ is Some,
        ensures
            *r == self@->0,
    {
        match &self.0 {
            Some(v) => v,
            None => {
                proof {
                    assert(false);
                }
                unreached()
            },
        }
    }

    /// The value in a filled slot, to change in place.
    pub fn get_mut(&mut self) -> (r: &mut T)
        requires
            old(self)@ is Some,
        ensures
            *r == old(self)@->0,
            final(self)@ == Some(*final(r)),
    {
        match &mut self.0 {
            Some(v) => v,
            None => {
                proof {
                    assert(false);
                }
                unreached()
            },
        }
    }
}

impl<T> Default for Nullable<T> {
    fn default() -> (r: Self)
        ensures
            r@ is None,
    {
        Nullable(None)
    }
}

} // verus!
