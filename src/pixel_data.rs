//! The ownership record of a buffer that the native codec allocated.
//!
//! The record holds the buffer's address and size, and whether the buffer is
//! still held. Releasing hands the address out for the codec's deallocation
//! entry point the first time and never again, so a holder that releases on
//! detach and again at the end of its scope frees the buffer exactly once.
use vstd::prelude::*;

use crate::error::{DecodeError, Error};

verus! {

/// The abstract state of a [`PixelData`] record.
pub struct BufferState {
    /// Where the codec's buffer starts; never zero.
    pub address: usize,
    /// How many bytes the buffer holds.
    pub size: usize,
    /// Whether the buffer is still owned, that is not yet released.
    pub held: bool,
}

/// One release step: the new state, and the address to free if any.
pub open spec fn release_step(s: BufferState) -> (BufferState, Option<usize>) {
    (
        BufferState { address: s.address, size: s.size, held: false },
        if s.held { Some(s.address) } else { None },
    )
}

/// How many of `n` successive release steps from `s` hand out an address.
pub open spec fn releases_in(s: BufferState, n: nat) -> nat
    decreases n,
{
    if n == 0 {
        0
    } else {
        let (next, freed) = release_step(s);
        (if freed is Some { 1nat } else { 0nat }) + releases_in(next, (n - 1) as nat)
    }
}

/// Pixel data that the native codec decoded, owned until released.
#[derive(Debug)]
pub struct PixelData {
    size: usize,
    address: usize,
    held: bool,
}

impl View for PixelData {
    type V = BufferState;

    closed spec fn view(&self) -> BufferState {
        BufferState { address: self.address, size: self.size, held: self.held }
    }
}

impl PixelData {
    #[verifier::type_invariant]
    closed spec fn inv(&self) -> bool {
        self.address != 0
    }

    /// Takes ownership of the buffer of `size` bytes at `data`; a null
    /// address (zero) is refused as an invalid pointer.
    pub fn new(data: usize, size: usize) -> (r: Result<Self, Error>)
        ensures
            match r {
                Ok(p) => data != 0 && p@ == (BufferState { address: data, size, held: true }),
                Err(e) => data == 0 && e == Error(DecodeError::InvalidPointer),
            },
    {
        if data == 0 {
            Err(Error(DecodeError::InvalidPointer))
        } else {
            Ok(PixelData { size, address: data, held: true })
        }
    }

    /// The number of bytes of the buffer.
    pub fn size(&self) -> (r: usize)
        ensures
            r == self@.size,
    {
        self.size
    }

    /// Whether the buffer is still owned.
    pub fn is_held(&self) -> (r: bool)
        ensures
            r == self@.held,
    {
        self.held
    }

    /// Address and size of the buffer while it is owned: the region that may
    /// be read. Nothing once it is released.
    pub fn region(&self) -> (r: Option<(usize, usize)>)
        ensures
            self@.address != 0,
            r == (if self@.held { Some((self@.address, self@.size)) } else { None::<(usize, usize)> }),
    {
        proof {
            use_type_invariant(self);
        }
        if self.held {
            Some((self.address, self.size))
        } else {
            None
        }
    }

    /// Gives up ownership: returns the address to hand to the codec's
    /// deallocation entry point the first time, and nothing after that.
    pub fn release(&mut self) -> (r: Option<usize>)
        ensures
            (final(self)@, r) == release_step(old(self)@),
            r matches Some(a) ==> a != 0,
    {
        proof {
            use_type_invariant(&*self);
        }
        let freed = if self.held { Some(self.address) } else { None };
        self.held = false;
        freed
    }
}

/// A held buffer is released exactly once over any run of one or more
/// releases, whether the first comes from a detach or from the end of the
/// owner's scope: never zero times, never twice.
pub proof fn lemma_released_exactly_once(s: BufferState, n: nat)
    requires
        s.held,
        n >= 1,
    ensures
        releases_in(s, n) == 1,
    decreases n,
{
    let next = release_step(s).0;
    lemma_released_never_again(next, (n - 1) as nat);
}

/// Once released, further releases hand out nothing.
pub proof fn lemma_released_never_again(s: BufferState, n: nat)
    requires
        !s.held,
    ensures
        releases_in(s, n) == 0,
    decreases n,
{
    if n > 0 {
        lemma_released_never_again(release_step(s).0, (n - 1) as nat);
    }
}

} // verus!
