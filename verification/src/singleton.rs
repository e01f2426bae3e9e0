//! A value with explicit initialization and finalization.

use vstd::prelude::*;

verus! {

/// The lifecycle state of a [`Singleton`].
#[derive(Debug, Clone, Copy, PartialEq, Eq)]
pub enum SingletonState {
    Uninitialized,
    Initializing,
    Initialized,
    Uninitializing,
}

/// The mathematical content of a [`Singleton`].
pub struct SingletonView<T> {
    pub value: Option<T>,
    pub state: SingletonState,
}

/// A value that is explicitly initialized, used, finalized, and may be initialized again.
pub struct Singleton<T> where T: Send + Sync {
    value: Option<T>,
    state: SingletonState,
}

impl<T> View for Singleton<T> where T: Send + Sync {
    type V = SingletonView<T>;

    closed spec fn view(&self) -> SingletonView<T> {
        SingletonView { value: self.value, state: self.state }
    }
}

/// The singleton holds a value exactly when it is initialized.
pub open spec fn singleton_wf<T>(v: SingletonView<T>) -> bool {
    (v.state is Initialized) == v.value.is_some()
}

/// The singleton after it is initialized with `value`.
pub open spec fn spec_initialized<T>(value: T) -> SingletonView<T> {
    SingletonView { value: Some(value), state: SingletonState::Initialized }
}

/// The singleton after it is finalized.
pub open spec fn spec_uninitialized<T>() -> SingletonView<T> {
    SingletonView { value: None, state: SingletonState::Uninitialized }
}

/// The singleton after `initialize` produces `value`: an uninitialized singleton becomes
/// initialized with it; in any other state nothing changes.
pub open spec fn spec_initialize<T>(v: SingletonView<T>, value: T) -> SingletonView<T> {
    if v.state is Uninitialized { spec_initialized(value) } else { v }
}

/// The singleton after `finalize`: an initialized singleton becomes uninitialized;
/// in any other state nothing changes.
pub open spec fn spec_finalize<T>(v: SingletonView<T>) -> SingletonView<T> {
    if v.state is Initialized { spec_uninitialized() } else { v }
}

impl<T> Singleton<T> where T: Send + Sync {
    /// The singleton is well formed: see [`singleton_wf`].
    pub open spec fn wf(&self) -> bool {
        singleton_wf(self@)
    }

    /// Creates an uninitialized singleton.
    pub fn uninitialized() -> (s: Self)
        ensures
            s.wf(),
            s@ == spec_uninitialized::<T>(),
    {
        Singleton { value: None, state: SingletonState::Uninitialized }
    }

    /// Initializes the singleton with the value `f` returns.
    ///
    /// Does nothing if the singleton is being finalized; the singleton may not be
    /// initialized (or being initialized) already.
    pub fn initialize<F>(&mut self, f: F)
        where F: FnOnce() -> T
        requires
            old(self).wf(),
            !(old(self)@.state is Initializing),
            !(old(self)@.state is Initialized),
            old(self)@.state is Uninitialized ==> f.requires(()),
        ensures
            final(self).wf(),
            old(self)@.state is Uninitialized ==> {
                &&& final(self)@.value is Some
                &&& final(self)@ == spec_initialize(old(self)@, final(self)@.value.unwrap())
                &&& f.ensures((), final(self)@.value.unwrap())
            },
            old(self)@.state is Uninitializing ==> final(self)@ == old(self)@,
    {
        match self.state {
            SingletonState::Uninitialized => {
                self.state = SingletonState::Initializing;
                self.initialize_impl(f);
            },
            _ => {},
        }
    }

    /// Finalizes the singleton, dropping its value.
    ///
    /// Does nothing if the singleton is being initialized; the singleton may not be
    /// uninitialized (or being finalized) already.
    pub fn finalize(&mut self)
        requires
            old(self).wf(),
            !(old(self)@.state is Uninitializing),
            !(old(self)@.state is Uninitialized),
        ensures
            final(self).wf(),
            final(self)@ == spec_finalize(old(self)@),
    {
        match self.state {
            SingletonState::Initialized => {
                self.state = SingletonState::Uninitializing;
                self.finalize_impl();
            },
            _ => {},
        }
    }

    /// Returns the value of the initialized singleton.
    pub fn get(&self) -> (value: &T)
        requires
            self.wf(),
            self@.state is Initialized,
        ensures
            *value == self@.value.unwrap(),
    {
        self.value.as_ref().unwrap()
    }

    /// Returns the value of the initialized singleton, for modification.
    pub fn get_mut(&mut self) -> (value: &mut T)
        requires
            old(self).wf(),
            old(self)@.state is Initialized,
        ensures
            *value == old(self)@.value.unwrap(),
            final(self)@ == spec_initialized(*final(value)),
    {
        self.value.as_mut().unwrap()
    }

    fn initialize_impl<F>(&mut self, f: F)
        where F: FnOnce() -> T
        requires
            old(self)@.state is Initializing,
            f.requires(()),
        ensures
            final(self)@ == spec_initialized(final(self)@.value.unwrap()),
            final(self)@.value is Some,
            f.ensures((), final(self)@.value.unwrap()),
    {
        self.value = Some(f());
        self.state = SingletonState::Initialized;
    }

    fn finalize_impl(&mut self)
        requires
            old(self)@.state is Uninitializing,
        ensures
            final(self)@ == spec_uninitialized::<T>(),
    {
        self.value = None;
        self.state = SingletonState::Uninitialized;
    }
}

/// What an initialized singleton gives back is the value it was initialized with; once
/// finalized it is uninitialized again, and may be initialized anew with another value.
pub proof fn lemma_singleton_lifecycle<T>(v: SingletonView<T>, x: T, y: T)
    requires
        singleton_wf(v),
        v.state is Uninitialized,
    ensures
        ({
            let v1 = spec_initialize(v, x);
            let v2 = spec_finalize(v1);
            let v3 = spec_initialize(v2, y);
            &&& singleton_wf(v1) && v1.state is Initialized && v1.value == Some(x)
            &&& singleton_wf(v2) && v2 == spec_uninitialized::<T>()
            &&& singleton_wf(v3) && v3.state is Initialized && v3.value == Some(y)
        }),
{
}

} // verus!
