//! A cell that hands out at most one borrow of its value at a time, and only
//! inside a critical section.
use critical_section::CriticalSection;
use vstd::prelude::*;

verus! {

/// Interrupts-masked token: holding one proves that no handler can preempt.
#[verifier::external_type_specification]
#[verifier::external_body]
pub struct ExCriticalSection<'cs>(CriticalSection<'cs>);

/// The tag of a cell.
#[derive(PartialEq, Eq, Structural, Clone, Copy, Debug)]
pub enum MutexInnerState {
    Locked,
    Uinit,
    Unlock,
}

/// What a cell holds, as seen by contracts.
pub enum CellView<T> {
    Uninit,
    Unlocked(T),
    Locked(T),
}

/// State after `init` with `value`, from any state that allows it.
pub open spec fn init_next<T>(value: T) -> CellView<T> {
    CellView::Unlocked(value)
}

/// The value handed out by a lock attempt on `s`, if any.
pub open spec fn lock_result<T>(s: CellView<T>) -> Option<T> {
    match s {
        CellView::Unlocked(v) => Some(v),
        _ => None,
    }
}

/// What a cell holds once a borrow has ended with tag `state` and value `v`.
pub open spec fn cell_after<T>(state: MutexInnerState, v: T) -> CellView<T> {
    if state == MutexInnerState::Unlock {
        CellView::Unlocked(v)
    } else {
        CellView::Locked(v)
    }
}

/// Exclusive-access cell, possibly initialized after construction.
pub struct Mutex<T> {
    state: MutexInnerState,
    value: Option<T>,
}

/// Proof of a successful lock: reads and writes the value, and unlocks the
/// cell when dropped. It borrows the cell, so the cell cannot be reached
/// while the guard lives, and the token's lifetime bounds the borrow.
pub struct LockGaurd<'a, T> {
    /// The cell's tag, Locked while the guard lives.
    pub state: &'a mut MutexInnerState,
    /// The stored value.
    pub value: &'a mut T,
}

impl<T> View for Mutex<T> {
    type V = CellView<T>;

    closed spec fn view(&self) -> CellView<T> {
        match self.value {
            Some(v) => cell_after(self.state, v),
            None => CellView::Uninit,
        }
    }
}

impl<T> Mutex<T> {
    /// Creates an unlocked cell holding `value`.
    pub fn new(value: T) -> (r: Self)
        ensures
            r@ == CellView::Unlocked(value),
    {
        Mutex { state: MutexInnerState::Unlock, value: Some(value) }
    }

    /// Creates a cell whose value is given later, by `init`.
    pub fn new_uinit() -> (r: Self)
        ensures
            r@ == CellView::<T>::Uninit,
    {
        Mutex { state: MutexInnerState::Uinit, value: None }
    }

    /// Stores the first value of a cell made by `new_uinit`; a second
    /// initialization is a programming error and is excluded.
    pub fn init(&mut self, _cs: CriticalSection, value: T)
        requires
            old(self)@ is Uninit,
        ensures
            final(self)@ == init_next(value),
    {
        self.state = MutexInnerState::Unlock;
        self.value = Some(value);
    }

    /// Locks the cell if it is initialized and not locked, never waiting.
    pub fn try_lock<'a>(&'a mut self, _cs: CriticalSection<'a>) -> (r: Option<LockGaurd<'a, T>>)
        ensures
            r is Some <==> lock_result(old(self)@) is Some,
            r is None ==> *final(self) == *old(self),
            r matches Some(g) ==> Some(*g.value) == lock_result(old(self)@),
            r matches Some(g) ==> *g.state == MutexInnerState::Locked,
            r matches Some(g) ==> final(self)@ == cell_after(*final(g.state), *final(g.value)),
    {
        if self.state == MutexInnerState::Unlock {
            match &mut self.value {
                Some(value) => {
                    self.state = MutexInnerState::Locked;
                    Some(LockGaurd { state: &mut self.state, value })
                },
                None => None,
            }
        } else {
            None
        }
    }
}

impl<T> Mutex<T> {
    /// Borrows the value of an initialized, unlocked cell for the length of
    /// the borrow, never waiting. The tag stays Unlock: the borrow itself
    /// keeps everyone else out, and nothing needs undoing when it ends.
    pub fn try_borrow_mut<'a>(&'a mut self, _cs: CriticalSection<'a>) -> (r: Option<&'a mut T>)
        ensures
            r is Some <==> lock_result(old(self)@) is Some,
            r is None ==> *final(self) == *old(self),
            r matches Some(v) ==> Some(*v) == lock_result(old(self)@),
            r matches Some(v) ==> final(self)@ == CellView::Unlocked(*final(v)),
    {
        if self.state == MutexInnerState::Unlock {
            match &mut self.value {
                Some(value) => Some(value),
                None => None,
            }
        } else {
            None
        }
    }
}

/// Dropping the guard ends the borrow and unlocks the cell.
impl<'a, T> Drop for LockGaurd<'a, T> {
    fn drop(&mut self)
        opens_invariants none
        no_unwind
    {
        *self.state = MutexInnerState::Unlock;
    }
}

impl<'a, T> core::ops::Deref for LockGaurd<'a, T> {
    type Target = T;

    fn deref(&self) -> &T {
        &*self.value
    }
}

impl<'a, T> core::ops::DerefMut for LockGaurd<'a, T> {
    fn deref_mut(&mut self) -> &mut T {
        &mut *self.value
    }
}

/// A cell refuses every lock attempt while its tag reads Locked: a borrower
/// still holds it, or never gave it back.
pub proof fn lemma_locked_refuses<T>(v: T)
    ensures
        lock_result(cell_after(MutexInnerState::Locked, v)) is None,
{
}

/// An uninitialized cell refuses every lock attempt; once initialized with
/// `v`, a lock attempt succeeds and yields `v`.
pub proof fn lemma_init_then_lock<T>(v: T)
    ensures
        lock_result(CellView::<T>::Uninit) is None,
        lock_result(init_next(v)) == Some(v),
{
}

/// A borrow that ends with the tag set back to Unlock, as dropping the guard
/// does, leaves a cell that the next lock attempt takes, yielding the value
/// the borrower left.
pub proof fn lemma_release_then_lock<T>(v: T)
    ensures
        cell_after(MutexInnerState::Unlock, v) == CellView::Unlocked(v),
        lock_result(cell_after(MutexInnerState::Unlock, v)) == Some(v),
{
}

} // verus!
