//! Construction of a value in the place where it will live.
//!
//! A [`Slot`] stands for memory at a fixed address that holds either nothing
//! that may be read or one live value. A [`PinInit`] is a recipe that, run once
//! on a vacant slot, either fills it with a single write or fails and leaves
//! it as it was.
//!
//! Whoever owns the slot runs the recipe, and runs it once: a recipe is used
//! up by its run, and a run asks for a vacant slot. Nothing is tested while
//! the program runs; the contracts carry the discipline.

use vstd::prelude::*;

verus! {

/// A slot as contracts see it.
pub struct SlotView<T> {
    /// The address of the memory. It never changes.
    pub addr: usize,
    /// The live value, if the memory holds one.
    pub value: Option<T>,
    /// How many writes the memory has received.
    pub writes: nat,
}

impl<T> SlotView<T> {
    /// The slot at `addr` before anything was written to it.
    pub open spec fn vacant(addr: usize) -> SlotView<T> {
        SlotView { addr, value: None, writes: 0 }
    }

    /// This slot after one write of `value`.
    pub open spec fn written(self, value: T) -> SlotView<T> {
        SlotView { addr: self.addr, value: Some(value), writes: self.writes + 1 }
    }

    /// Whether the slot was written once if it holds a value, and never if it
    /// holds none. This holds of every slot that a program has.
    pub open spec fn written_once(self) -> bool {
        self.writes == if self.value is Some { 1nat } else { 0nat }
    }
}

/// Memory for one `T` at a fixed address. It starts without a value, receives
/// at most one write, and gives its value up only by being dropped.
pub struct Slot<T> {
    addr: usize,
    value: Option<T>,
    writes: Ghost<nat>,
}

impl<T> View for Slot<T> {
    type V = SlotView<T>;

    closed spec fn view(&self) -> SlotView<T> {
        SlotView { addr: self.addr, value: self.value, writes: self.writes@ }
    }
}

impl<T> Slot<T> {
    /// A slot with a value has been written once, one without never.
    #[verifier::type_invariant]
    spec fn inv(self) -> bool {
        self@.written_once()
    }

    /// The vacant slot at `addr`.
    pub fn new(addr: usize) -> (slot: Slot<T>)
        ensures
            slot@ == SlotView::<T>::vacant(addr),
    {
        Slot { addr, value: None, writes: Ghost(0) }
    }

    /// Writes `value` into the vacant slot.
    pub fn write(&mut self, value: T)
        requires
            old(self)@.value is None,
        ensures
            final(self)@ == old(self)@.written(value),
            final(self)@.writes == 1,
    {
        proof {
            use_type_invariant(&*self);
        }
        *self = Slot { addr: self.addr, value: Some(value), writes: Ghost(1) };
    }

    /// The address of the slot.
    pub fn addr(&self) -> (addr: usize)
        ensures
            addr == self@.addr,
    {
        self.addr
    }

    /// Whether the slot holds a live value, which it does exactly if it has
    /// been written.
    pub fn is_init(&self) -> (init: bool)
        ensures
            init == self@.value is Some,
            self@.written_once(),
    {
        proof {
            use_type_invariant(self);
        }
        self.value.is_some()
    }

    /// The live value, or `None` while the slot holds none.
    pub fn get(&self) -> (value: Option<&T>)
        ensures
            match value {
                Some(v) => self@.value == Some(*v),
                None => self@.value is None,
            },
            self@.written_once(),
    {
        proof {
            use_type_invariant(self);
        }
        self.value.as_ref()
    }
}

/// How a slot may change when a recipe runs on it: on success it received
/// exactly one write and holds a value; on failure it is as it was. The
/// address stays the same either way.
pub open spec fn all_or_nothing<T, E>(before: SlotView<T>, after: SlotView<T>, r: Result<(), E>) -> bool {
    match r {
        Ok(_) => after.value is Some && after == before.written(after.value->0),
        Err(_) => after == before,
    }
}

/// The outcome of a recipe as one value: what the slot holds after success,
/// or the error.
pub open spec fn observed<T, E>(after: SlotView<T>, r: Result<(), E>) -> Result<T, E> {
    match r {
        Ok(_) => Ok(after.value->0),
        Err(e) => Err(e),
    }
}

/// A run of a recipe writes to the slot once if it succeeds and not at all if
/// it fails: never more than once. The slot stays where it is.
pub proof fn lemma_at_most_one_write<T, E>(before: SlotView<T>, after: SlotView<T>, r: Result<(), E>)
    requires
        all_or_nothing(before, after, r),
    ensures
        r is Ok ==> after.writes == before.writes + 1,
        r is Err ==> after.writes == before.writes,
        after.writes <= before.writes + 1,
        after.addr == before.addr,
{
}

/// After a run on a vacant slot, the slot holds a value exactly if the run
/// succeeded. After a failure there is nothing that could be read as a `T`,
/// and [`Slot::get`] returns `None`.
pub proof fn lemma_value_only_on_success<T, E>(before: SlotView<T>, after: SlotView<T>, r: Result<(), E>)
    requires
        before.value is None,
        all_or_nothing(before, after, r),
    ensures
        r is Ok <==> after.value is Some,
        r is Err <==> after.value is None,
        r is Err ==> after == before,
{
}

/// A recipe for one `T`, built where it will live, that may fail with `E`.
pub trait PinInit<T, E>: Sized {
    /// Runs the recipe on `slot`. This uses the recipe up.
    fn __pinned_init(self, slot: &mut Slot<T>) -> (r: Result<(), E>)
        requires
            old(slot)@.value is None,
        ensures
            all_or_nothing(old(slot)@, final(slot)@, r),
    ;
}

/// What [`write_on_success`] does with an outcome: a value is written and
/// success reported; an error is handed on as it is and nothing is written.
pub open spec fn placed<T, E>(outcome: Result<T, E>, before: SlotView<T>, after: SlotView<T>, r: Result<(), E>) -> bool {
    match outcome {
        Ok(value) => r is Ok && after == before.written(value),
        Err(e) => r == Err::<(), E>(e) && after == before,
    }
}

/// Puts the outcome of a finished construction into `slot`: the value of a
/// success with one write, nothing for a failure, whose error is returned
/// unchanged.
pub fn write_on_success<T, E>(outcome: Result<T, E>, slot: &mut Slot<T>) -> (r: Result<(), E>)
    requires
        old(slot)@.value is None,
    ensures
        placed(outcome, old(slot)@, final(slot)@, r),
{
    match outcome {
        Ok(value) => {
            slot.write(value);
            Ok(())
        },
        Err(e) => Err(e),
    }
}

/// Calls `f` on `slot`. Its precondition is what a closure owes to become a
/// recipe: it accepts every vacant slot, and whatever it returns, the slot
/// changed all or nothing.
///
/// The second debt speaks of the slot after the call, which the invariant of
/// a type cannot do. [`InitClosure`] therefore keeps it in this form: its
/// invariant says that this function may be called with its closure.
fn run_closure<T, E, F: FnOnce(&mut Slot<T>) -> Result<(), E>>(f: F, slot: &mut Slot<T>) -> (r: Result<(), E>)
    requires
        old(slot)@.value is None,
        forall|s: &mut Slot<T>| s@.value is None ==> call_requires(f, (s,)),
        forall|s: &mut Slot<T>, r: Result<(), E>|
            s@.value is None && call_ensures(f, (s,), r) ==> all_or_nothing(s@, final(s)@, r),
    ensures
        all_or_nothing(old(slot)@, final(slot)@, r),
        exists|s: &mut Slot<T>| s@ == old(slot)@ && final(s)@ == final(slot)@ && call_ensures(f, (s,), r),
{
    f(slot)
}

/// The recipe that a closure makes: running it calls the closure on the slot.
#[verifier::reject_recursive_types(F)]
#[verifier::reject_recursive_types(T)]
#[verifier::reject_recursive_types(E)]
pub struct InitClosure<F: FnOnce(&mut Slot<T>) -> Result<(), E>, T, E> {
    f: F,
    _marker: core::marker::PhantomData<(T, E)>,
}

impl<F: FnOnce(&mut Slot<T>) -> Result<(), E>, T, E> InitClosure<F, T, E> {
    /// The closure may be handed to `run_closure` with any vacant slot: it
    /// has paid what that function asks of a closure.
    #[verifier::type_invariant]
    spec fn runnable(self) -> bool {
        forall|s: &mut Slot<T>| s@.value is None ==> #[trigger] call_requires(run_closure::<T, E, F>, (self.f, s))
    }

    /// The closure that the recipe was made from.
    pub closed spec fn closure(self) -> F {
        self.f
    }
}

/// Makes a recipe from a closure that is given the destination.
///
/// Nothing watches the closure when it runs. The caller shows here that it
/// accepts every vacant slot, that when it returns `Ok` it has filled the slot
/// with exactly one write, and that when it returns `Err` it has left the
/// slot as it was.
pub fn pin_init_from_closure<T, E, F: FnOnce(&mut Slot<T>) -> Result<(), E>>(f: F) -> (init: InitClosure<F, T, E>)
    requires
        forall|s: &mut Slot<T>| s@.value is None ==> call_requires(f, (s,)),
        forall|s: &mut Slot<T>, r: Result<(), E>|
            s@.value is None && call_ensures(f, (s,), r) ==> all_or_nothing(s@, final(s)@, r),
    ensures
        init.closure() == f,
{
    InitClosure { f, _marker: core::marker::PhantomData }
}

impl<F: FnOnce(&mut Slot<T>) -> Result<(), E>, T, E> PinInit<T, E> for InitClosure<F, T, E> {
    /// Runs the closure on `slot`: the result and the slot afterwards are what
    /// the closure returned and left.
    fn __pinned_init(self, slot: &mut Slot<T>) -> (r: Result<(), E>)
        ensures
            exists|s: &mut Slot<T>|
                s@ == old(slot)@ && final(s)@ == final(slot)@ && call_ensures(self.closure(), (s,), r),
    {
        proof {
            use_type_invariant(&self);
        }
        let run = run_closure::<T, E, F>;
        run(self.f, slot)
    }
}

} // verus!
