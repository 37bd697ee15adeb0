use vstd::prelude::*;

verus! {

/// Calls `f` once.
pub fn apply<F: FnOnce()>(f: F)
    requires
        f.requires(()),
    ensures
        f.ensures((), ()),
{
    f()
}

/// Calls `f` on 3 and hands back what it returns.
pub fn apply_to_3<F: Fn(i32) -> i32>(f: F) -> (r: i32)
    requires
        f.requires((3i32,)),
    ensures
        f.ensures((3i32,), r),
{
    f(3)
}

/// Calls `f`, which may be a closure or a function.
pub fn call_function<F: Fn()>(f: F)
    requires
        f.requires(()),
    ensures
        f.ensures((), ()),
{
    f()
}

/// A value of any type, held in a wrapper.
pub struct GenVal<T>(pub T);

impl<T> GenVal<T> {
    /// The value held.
    pub fn value(&self) -> (r: &T)
        ensures
            *r == self.0,
    {
        &self.0
    }
}

} // verus!
