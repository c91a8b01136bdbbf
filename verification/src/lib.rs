//! In-place construction of a unit's object in memory that the host owns.
//!
//! The host hands each unit a [`ThisModule`] handle and calls its constructor
//! once. A unit either builds its object by value ([`Module`]) or describes how
//! to build it where it will live ([`InPlaceModule`]).

use vstd::prelude::*;
use crate::error::Error;
use crate::init::{
    all_or_nothing, observed, pin_init_from_closure, placed, write_on_success, PinInit, Slot, SlotView,
};

pub mod container;
pub mod error;
pub mod fault;
pub mod init;

verus! {

/// The host's identity of a unit: an address that stays the same for as long
/// as the unit is loaded. This layer never looks behind it.
pub struct ThisModule(usize);

impl View for ThisModule {
    type V = usize;

    closed spec fn view(&self) -> usize {
        self.0
    }
}

impl ThisModule {
    /// The handle for the address `ptr`.
    pub closed spec fn spec_from_ptr(ptr: usize) -> ThisModule {
        ThisModule(ptr)
    }

    /// The address behind the handle.
    pub open spec fn spec_as_ptr(&self) -> usize {
        self@
    }

    /// Makes the handle for the address by which the host knows this unit.
    ///
    /// The caller answers for `ptr` being that address: nothing here can
    /// tell whether it is.
    #[verifier::when_used_as_spec(spec_from_ptr)]
    pub fn from_ptr(ptr: usize) -> (module: ThisModule)
        ensures
            module == ThisModule::spec_from_ptr(ptr),
            module@ == ptr,
    {
        ThisModule(ptr)
    }

    /// The address, as it was given to [`ThisModule::from_ptr`].
    #[verifier::when_used_as_spec(spec_as_ptr)]
    pub fn as_ptr(&self) -> (ptr: usize)
        ensures
            ptr == self@,
    {
        self.0
    }

    /// Taking the address of the handle made for `ptr` gives `ptr` back.
    pub proof fn lemma_as_ptr_of_from_ptr(ptr: usize)
        ensures
            ThisModule::from_ptr(ptr).as_ptr() == ptr,
    {
    }

    /// A handle is the handle made for its own address, so two handles with
    /// one address are one handle.
    pub proof fn lemma_from_ptr_of_as_ptr(module: ThisModule)
        ensures
            ThisModule::from_ptr(module.as_ptr()) == module,
    {
    }
}

/// A unit whose object is built by value.
///
/// The host calls `init` once, when it loads the unit. What the object needs
/// undone when the unit goes away, its destructor does.
///
/// Every such unit is an [`InPlaceModule`] too, so both traits give it an
/// `init`. An impl that states an `ensures` for `init` stands in a file that
/// imports `Module` alone: with both in scope the name is ambiguous there.
pub trait Module: Sized + Sync + Send {
    /// Builds the object, or says why there is none. One that fails has
    /// already undone what it had set up.
    fn init(module: &'static ThisModule) -> core::result::Result<Self, Error>;
}

/// A unit whose object is built in the place where it will live.
pub trait InPlaceModule: Sync + Send + Sized {
    /// The recipe that `init` returns.
    type Init: PinInit<Self, Error>;

    /// Makes the recipe for the object. The host runs it once, on the memory
    /// that it has set aside for the unit.
    fn init(module: &'static ThisModule) -> Self::Init;
}

/// What a run of the recipe of a by-value unit does, for the handle `module`:
/// the slot changes all or nothing, and the outcome, read back from the slot,
/// is one that the unit's constructor returns for `module`.
pub open spec fn built_in_place<T: Module>(
    module: &'static ThisModule,
    before: SlotView<T>,
    after: SlotView<T>,
    r: core::result::Result<(), Error>,
) -> bool {
    &&& all_or_nothing(before, after, r)
    &&& call_ensures(<T as Module>::init, (module,), observed(after, r))
}

/// Whether the constructor of `T` can return only one outcome for `module`.
pub open spec fn deterministic<T: Module>(module: &'static ThisModule) -> bool {
    forall|a: core::result::Result<T, Error>, b: core::result::Result<T, Error>|
        #![trigger call_ensures(<T as Module>::init, (module,), a), call_ensures(<T as Module>::init, (module,), b)]
        call_ensures(<T as Module>::init, (module,), a) && call_ensures(<T as Module>::init, (module,), b) ==> a == b
}

/// Building in place gives what building by value gives. Where the
/// constructor is deterministic and returns `plain` for `module`, a run of the
/// recipe ends as if `plain` had been put into the slot: the slot holds the
/// same object, or the run fails with the same error and the slot is as it was.
pub proof fn lemma_in_place_equals_plain<T: Module>(
    module: &'static ThisModule,
    plain: core::result::Result<T, Error>,
    before: SlotView<T>,
    after: SlotView<T>,
    r: core::result::Result<(), Error>,
)
    requires
        deterministic::<T>(module),
        call_ensures(<T as Module>::init, (module,), plain),
        built_in_place::<T>(module, before, after, r),
    ensures
        observed(after, r) == plain,
        placed(plain, before, after, r),
{
}

/// An error passes through unchanged. The error of a failed run is one that
/// the constructor returned; and where the constructor returns nothing but
/// `Err(e)` for `module`, the run fails with `e` itself and the slot is as it
/// was.
pub proof fn lemma_error_passes_unchanged<T: Module>(
    module: &'static ThisModule,
    e: Error,
    before: SlotView<T>,
    after: SlotView<T>,
    r: core::result::Result<(), Error>,
)
    requires
        built_in_place::<T>(module, before, after, r),
    ensures
        r == Err::<(), Error>(e) ==> call_ensures(<T as Module>::init, (module,), Err::<T, Error>(e)),
        (forall|o: core::result::Result<T, Error>| #[trigger]
            call_ensures(<T as Module>::init, (module,), o) ==> o == Err::<T, Error>(e)) ==> r == Err::<(), Error>(e)
            && after == before,
{
}

/// The recipe of a unit that is built by value: build, then write. The write
/// is reached only with a finished object in hand, so the slot never holds a
/// part of one.
pub struct ModuleInit<T> {
    /// The handle that the constructor will be given.
    pub module: &'static ThisModule,
    /// Stands for the unit that the recipe builds.
    pub marker: core::marker::PhantomData<T>,
}

impl<T: Module> PinInit<T, Error> for ModuleInit<T> {
    /// Calls the constructor. Its object is written into `slot` with one
    /// write; its error is returned as it is, and `slot` is not touched.
    fn __pinned_init(self, slot: &mut Slot<T>) -> (r: core::result::Result<(), Error>)
        ensures
            built_in_place::<T>(self.module, old(slot)@, final(slot)@, r),
    {
        let module = self.module;
        let initer = move |slot: &mut Slot<T>| -> (r: core::result::Result<(), Error>)
            requires
                old(slot)@.value is None,
            ensures
                built_in_place::<T>(module, old(slot)@, final(slot)@, r),
        {
            let outcome = <T as Module>::init(module);
            write_on_success(outcome, slot)
        };
        pin_init_from_closure(initer).__pinned_init(slot)
    }
}

impl<T: Module> InPlaceModule for T {
    type Init = ModuleInit<T>;

    /// The recipe that calls `Module::init` with `module` when it is run, not
    /// before.
    fn init(module: &'static ThisModule) -> ModuleInit<T>
        returns
            (ModuleInit::<T> { module, marker: core::marker::PhantomData }),
    {
        ModuleInit { module, marker: core::marker::PhantomData }
    }
}

} // verus!
