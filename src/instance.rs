//! Lifetime of the graphics instance: it is destroyed last, after every object derived
//! from it, and its validation hook goes before it.
use vstd::prelude::*;

verus! {

/// One backend call of the instance's teardown, in the order they are made.
#[derive(Clone, Copy, Debug, PartialEq, Eq, Structural)]
pub enum TeardownStep {
    DestroyDebugMessenger,
    DestroyInstance,
}

/// Why the instance could not be destroyed.
#[derive(Clone, Copy, Debug, PartialEq, Eq, Structural)]
pub enum TeardownError {
    /// A device or surface created from the instance is still alive.
    DerivedObjectsLive,
    /// The instance was destroyed before.
    AlreadyDestroyed,
}

/// Abstract state of an instance's lifetime.
pub struct InstanceView {
    pub validation: bool,
    pub live_objects: nat,
    pub destroyed: bool,
}

/// Counts the devices and surfaces created from a graphics instance, so that the instance
/// outlives them all.
pub struct InstanceLifetime {
    validation: bool,
    live_objects: u64,
    destroyed: bool,
}

impl View for InstanceLifetime {
    type V = InstanceView;

    closed spec fn view(&self) -> InstanceView {
        InstanceView {
            validation: self.validation,
            live_objects: self.live_objects as nat,
            destroyed: self.destroyed,
        }
    }
}

/// The backend calls that tear an instance down: the validation hook first, then the
/// instance.
pub open spec fn teardown_steps(validation: bool) -> Seq<TeardownStep> {
    if validation {
        seq![TeardownStep::DestroyDebugMessenger, TeardownStep::DestroyInstance]
    } else {
        seq![TeardownStep::DestroyInstance]
    }
}

impl InstanceLifetime {
    /// A live instance with no derived objects; `validation` says whether a validation
    /// hook was installed with it.
    pub fn new(validation: bool) -> (r: Self)
        ensures
            r@.validation == validation,
            r@.live_objects == 0,
            !r@.destroyed,
    {
        InstanceLifetime { validation, live_objects: 0, destroyed: false }
    }

    /// Records a device or surface created from the instance.
    pub fn derive_object(&mut self)
        requires
            !old(self)@.destroyed,
            old(self)@.live_objects < u64::MAX,
        ensures
            final(self)@.live_objects == old(self)@.live_objects + 1,
            final(self)@.validation == old(self)@.validation,
            final(self)@.destroyed == old(self)@.destroyed,
    {
        self.live_objects = self.live_objects + 1;
    }

    /// Records that a derived device or surface was destroyed.
    pub fn release_object(&mut self)
        requires
            old(self)@.live_objects > 0,
        ensures
            final(self)@.live_objects == old(self)@.live_objects - 1,
            final(self)@.validation == old(self)@.validation,
            final(self)@.destroyed == old(self)@.destroyed,
    {
        self.live_objects = self.live_objects - 1;
    }

    pub fn live_objects(&self) -> (r: u64)
        ensures
            r as nat == self@.live_objects,
    {
        self.live_objects
    }

    /// Destroys the instance, returning the backend calls to make. Refused while a
    /// derived object is alive, or when the instance is gone already.
    pub fn destroy(&mut self) -> (r: Result<Vec<TeardownStep>, TeardownError>)
        ensures
            old(self)@.destroyed ==> r == Err::<Vec<TeardownStep>, _>(
                TeardownError::AlreadyDestroyed,
            ),
            !old(self)@.destroyed && old(self)@.live_objects > 0 ==> r == Err::<
                Vec<TeardownStep>,
                _,
            >(TeardownError::DerivedObjectsLive),
            r is Err ==> final(self)@ == old(self)@,
            !old(self)@.destroyed && old(self)@.live_objects == 0 ==> (r matches Ok(steps)
                && steps@ == teardown_steps(old(self)@.validation)),
            r is Ok ==> final(self)@ == (InstanceView {
                validation: old(self)@.validation,
                live_objects: 0,
                destroyed: true,
            }),
    {
        if self.destroyed {
            return Err(TeardownError::AlreadyDestroyed);
        }
        if self.live_objects > 0 {
            return Err(TeardownError::DerivedObjectsLive);
        }
        self.destroyed = true;
        let mut steps: Vec<TeardownStep> = Vec::new();
        if self.validation {
            steps.push(TeardownStep::DestroyDebugMessenger);
        }
        steps.push(TeardownStep::DestroyInstance);
        Ok(steps)
    }
}

} // verus!
