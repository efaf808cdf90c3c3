//! The secret container.

use crate::erase::wipe;
use crate::erase::zeros;
use vstd::prelude::*;

verus! {

/// Holds `LENGTH` secret bytes on the heap.
///
/// A `Secret` is move-only: it has no `Clone` and no `Copy`, so the bytes are
/// never duplicated by accident, and moving a `Secret` moves only the pointer
/// to them. When the value is dropped its storage is overwritten with zeros
/// before it is released.
///
/// The protection is best effort: the operating system may still write the
/// bytes to swap or to a core dump, and nothing here resists side channels.
pub struct Secret<const LENGTH: usize> {
    bytes: Box<[u8; LENGTH]>,
}

impl<const LENGTH: usize> Secret<LENGTH> {
    /// The array that the container owns.
    pub closed spec fn contents(&self) -> [u8; LENGTH] {
        *self.bytes
    }

    /// Moves the secret out of `secret` into a new container.
    ///
    /// **The caller's buffer is overwritten**: on return it holds `LENGTH`
    /// zero bytes, and the container holds what the buffer held. The bytes
    /// are exchanged with a freshly zeroed allocation in one swap, so no
    /// third copy of the secret is made on the way.
    pub fn new(secret: &mut [u8; LENGTH]) -> (s: Self)
        ensures
            s@ == old(secret)@,
            s@.len() == LENGTH,
            final(secret)@ == zeros(LENGTH as nat),
    {
        let mut bytes = Box::new([0u8; LENGTH]);
        assert(bytes@ =~= zeros(LENGTH as nat));
        std::mem::swap(&mut *bytes, secret);
        Self { bytes }
    }

    /// A container always holds exactly `LENGTH` bytes.
    pub proof fn lemma_length(&self)
        ensures
            self@.len() == LENGTH,
    {
    }
}

impl<const LENGTH: usize> View for Secret<LENGTH> {
    type V = Seq<u8>;

    /// The secret bytes, in order.
    open spec fn view(&self) -> Seq<u8> {
        self.contents()@
    }
}

impl<const LENGTH: usize> AsRef<[u8; LENGTH]> for Secret<LENGTH> {
    /// Lends the secret bytes out, read-only, for as long as the container is
    /// borrowed.
    ///
    /// Do not copy the bytes into storage of your own, log them or serialize
    /// them: the container can only keep the one copy that it owns clean.
    fn as_ref(&self) -> (r: &[u8; LENGTH])
        ensures
            r@ == self@,
            r@.len() == LENGTH,
    {
        &*self.bytes
    }
}

impl<const LENGTH: usize> Drop for Secret<LENGTH> {
    /// Overwrites the secret with zeros. The storage is released only after
    /// this has returned.
    fn drop(&mut self)
        ensures
            final(self)@ == zeros(LENGTH as nat),
        opens_invariants none
        no_unwind
    {
        wipe(&mut *self.bytes);
    }
}

} // verus!
