//! Storage for a closure to be executed once, later.

use vstd::prelude::*;

verus! {

/// Total amount of memory a closure holder is sized for: a closure up to this size less a
/// pointer is stored within the holder, larger ones on the heap.
pub const CLOSURE_HOLDER_SIZE: usize = 64;

/// The largest closure size stored within the holder: `CLOSURE_HOLDER_SIZE` less the size
/// of a (function) pointer.
pub fn closure_storage_size() -> (size: usize)
    ensures
        size == CLOSURE_HOLDER_SIZE - usize::BITS / 8,
{
    CLOSURE_HOLDER_SIZE - (usize::BITS / 8) as usize
}

/// Where a stored closure is kept.
enum ClosureStorage<F> {
    /// Within the holder.
    Static(F),
    /// On the heap.
    Dynamic(Box<F>),
}

/// Holds a closure with signature `FnOnce(&ARG)` for later execution.
pub struct ClosureHolder<F> {
    storage: Option<ClosureStorage<F>>,
}

impl<F> View for ClosureHolder<F> {
    type V = Option<F>;

    /// The stored closure, if any.
    closed spec fn view(&self) -> Option<F> {
        match self.storage {
            Some(ClosureStorage::Static(f)) => Some(f),
            Some(ClosureStorage::Dynamic(f)) => Some(*f),
            None => None,
        }
    }
}

impl<F> ClosureHolder<F> {
    /// `true` if the stored closure is kept on the heap.
    pub closed spec fn is_dynamic(&self) -> bool {
        self.storage matches Some(ClosureStorage::Dynamic(_))
    }

    /// Creates an empty holder.
    pub fn empty() -> (h: Self)
        ensures
            h@.is_none(),
    {
        ClosureHolder { storage: None }
    }

    /// Creates a holder which contains the closure `f` for later execution.
    pub fn new(f: F) -> (h: Self)
        ensures
            h@ == Some(f),
            h.is_dynamic() == (vstd::layout::size_of::<F>() > CLOSURE_HOLDER_SIZE - usize::BITS / 8),
    {
        let mut h = ClosureHolder::empty();
        h.store(f);
        h
    }

    /// Stores the closure `f` in the empty holder for later execution: within the holder if
    /// it fits, else on the heap.
    pub fn store(&mut self, f: F)
        requires
            old(self)@.is_none(),
        ensures
            final(self)@ == Some(f),
            final(self).is_dynamic() == (vstd::layout::size_of::<F>() > CLOSURE_HOLDER_SIZE - usize::BITS / 8),
    {
        let size: usize = core::mem::size_of::<F>();
        if size > closure_storage_size() {
            self.storage = Some(ClosureStorage::Dynamic(Box::new(f)));
        } else {
            self.storage = Some(ClosureStorage::Static(f));
        }
    }

    /// Returns `true` if the holder is not empty.
    pub fn is_some(&self) -> (b: bool)
        ensures
            b == self@.is_some(),
    {
        self.storage.is_some()
    }

    /// If the holder is not empty, executes the stored closure, passing it `arg`,
    /// and returns `true`; otherwise returns `false`.
    pub fn try_execute<ARG>(&mut self, arg: &ARG) -> (executed: bool)
        where F: FnOnce(&ARG)
        requires
            old(self)@ matches Some(f) ==> f.requires((arg,)),
        ensures
            executed == old(self)@.is_some(),
            old(self)@ matches Some(f) ==> f.ensures((arg,), ()),
            final(self)@.is_none(),
    {
        if self.is_some() {
            self.execute(arg);
            true
        } else {
            false
        }
    }

    /// Executes the stored closure, passing it `arg`; the holder may not be empty.
    pub fn execute<ARG>(&mut self, arg: &ARG)
        where F: FnOnce(&ARG)
        requires
            old(self)@ matches Some(f) && f.requires((arg,)),
        ensures
            old(self)@.unwrap().ensures((arg,), ()),
            final(self)@.is_none(),
    {
        match self.storage.take() {
            Some(ClosureStorage::Static(f)) => f(arg),
            Some(ClosureStorage::Dynamic(f)) => (*f)(arg),
            None => {},
        }
    }
}

} // verus!
