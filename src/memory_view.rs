use vstd::prelude::*;
use core::marker::PhantomData;
use std::sync::atomic::{AtomicI16, AtomicI32, AtomicI64, AtomicI8, AtomicU16, AtomicU32, AtomicU64, AtomicU8};

verus! {

/// An element type with an atomic counterpart of the same bit width.
pub trait Atomic {
    type Output;
}

impl Atomic for i8 {
    type Output = AtomicI8;
}

impl Atomic for i16 {
    type Output = AtomicI16;
}

impl Atomic for i32 {
    type Output = AtomicI32;
}

impl Atomic for i64 {
    type Output = AtomicI64;
}

impl Atomic for u8 {
    type Output = AtomicU8;
}

impl Atomic for u16 {
    type Output = AtomicU16;
}

impl Atomic for u32 {
    type Output = AtomicU32;
}

impl Atomic for u64 {
    type Output = AtomicU64;
}

/// Marks whether accesses through a view are atomic.
pub trait Atomicity {}

/// Accesses through the view are atomic.
pub struct Atomically;

impl Atomicity for Atomically {}

/// Accesses through the view are plain, interior-mutable ones.
pub struct NonAtomically;

impl Atomicity for NonAtomically {}

/// A typed window over guest linear memory: the address of its first element
/// and the number of elements. The view does not own the memory.
pub struct MemoryView<T, A = NonAtomically> {
    addr: usize,
    length: usize,
    _phantom: PhantomData<(T, A)>,
}

impl<T, A> View for MemoryView<T, A> {
    /// The start address and the element count.
    type V = (usize, nat);

    closed spec fn view(&self) -> (usize, nat) {
        (self.addr, self.length as nat)
    }
}

impl<T, A> MemoryView<T, A> {
    pub open spec fn addr_spec(&self) -> usize {
        self@.0
    }

    pub open spec fn len_spec(&self) -> nat {
        self@.1
    }

    /// The address of the first element.
    pub fn addr(&self) -> (r: usize)
        ensures
            r == self@.0,
    {
        self.addr
    }

    /// The number of elements in the view.
    pub fn len(&self) -> (r: usize)
        ensures
            r == self@.1,
    {
        self.length
    }
}

impl<T> MemoryView<T, NonAtomically> {
    /// A non-atomic view of `length` elements starting at `addr`. The caller
    /// answers for the region being valid guest memory while the view lives.
    pub fn new(addr: usize, length: u32) -> (r: Self)
        ensures
            r@ == (addr, length as nat),
    {
        MemoryView { addr, length: length as usize, _phantom: PhantomData }
    }
}

impl<T: Atomic> MemoryView<T, NonAtomically> {
    /// The same region, seen as atomic integers of the element's bit width.
    /// Nothing is copied, moved or resized.
    pub fn atomically(&self) -> (r: MemoryView<T::Output, Atomically>)
        ensures
            r@ == self@,
    {
        MemoryView { addr: self.addr, length: self.length, _phantom: PhantomData }
    }
}

impl<U> MemoryView<U, Atomically> {
    /// The same region, seen again as plain elements of type `T`, the type
    /// whose atomic counterpart is `U`. Nothing is copied, moved or resized.
    pub fn non_atomically<T: Atomic<Output = U>>(&self) -> (r: MemoryView<T, NonAtomically>)
        ensures
            r@ == self@,
    {
        MemoryView { addr: self.addr, length: self.length, _phantom: PhantomData }
    }
}

/// Converting a view to its atomic form and back gives a view of the same
/// region: the same start address and the same element count.
pub proof fn lemma_atomic_round_trip<T: Atomic>(
    view: MemoryView<T, NonAtomically>,
    atomic: MemoryView<T::Output, Atomically>,
    back: MemoryView<T, NonAtomically>,
)
    requires
        atomic@ == view@,
        back@ == atomic@,
    ensures
        back@ == view@,
        back.addr_spec() == view.addr_spec(),
        back.len_spec() == view.len_spec(),
{
}

} // verus!
