//! The tensor-data wrapper of the machine-learning compute surface.

use vstd::prelude::*;

verus! {

/// A borrowed block of tensor bytes; its view is its byte contents.
#[derive(Debug)]
pub struct TensorData {
    bytes: Vec<u8>,
}

impl View for TensorData {
    type V = Seq<u8>;

    closed spec fn view(&self) -> Seq<u8> {
        self.bytes@
    }
}

impl TensorData {
    /// The bytes held.
    pub fn bytes(&self) -> (r: &Vec<u8>)
        ensures
            r@ == self@,
    {
        &self.bytes
    }

    /// The bytes held, writable.
    pub fn bytes_mut(&mut self) -> (r: &mut Vec<u8>)
        ensures
            (*r)@ == old(self)@,
            final(self)@ == (*final(r))@,
    {
        &mut self.bytes
    }

    /// The number of bytes held.
    pub fn len(&self) -> (n: usize)
        ensures
            n == self@.len(),
    {
        self.bytes.len()
    }

    pub fn is_empty(&self) -> (r: bool)
        ensures
            r == (self@.len() == 0),
    {
        self.bytes.len() == 0
    }

    /// Wraps `length` bytes of the caller's buffer, autoreleased. On the
    /// native side the bytes are borrowed, not copied, and nothing checks
    /// that the backing memory outlives the wrapper — that lifetime
    /// contract stays with the caller, as the native interface leaves it.
    /// The model holds an equal copy.
    pub fn with_bytes_no_copy_ar(bytes: &[u8], length: usize) -> (r: crate::arc::Rar<TensorData>)
        requires
            length <= bytes@.len(),
        ensures
            r.obj@ == bytes@.take(length as int),
    {
        let mut copied: Vec<u8> = Vec::new();
        let mut i: usize = 0;
        while i < length
            invariant
                length <= bytes@.len(),
                i <= length,
                copied@ == bytes@.take(i as int),
            decreases length - i,
        {
            copied.push(bytes[i]);
            proof {
                assert(bytes@.take(i + 1) =~= bytes@.take(i as int).push(bytes@[i as int]));
            }
            i = i + 1;
        }
        crate::arc::Rar::autoreleased(TensorData { bytes: copied })
    }

    /// Wraps `length` bytes of the caller's buffer, owned.
    pub fn with_bytes_no_copy(bytes: &[u8], length: usize) -> (r: TensorData)
        requires
            length <= bytes@.len(),
        ensures
            r@ == bytes@.take(length as int),
    {
        Self::with_bytes_no_copy_ar(bytes, length).retain()
    }

    /// Wraps a whole slice's bytes, autoreleased. The native side reads
    /// the elements' raw bytes, which the model does not; only the byte
    /// count is promised.
    pub fn with_slice_no_copy_ar<T: Sized>(slice: &[T]) -> (r: crate::arc::Rar<TensorData>)
        requires
            vstd::layout::size_of::<T>() * slice@.len() <= usize::MAX,
        ensures
            r.obj@.len() == vstd::layout::size_of::<T>() * slice@.len(),
    {
        let elem = core::mem::size_of::<T>();
        let total = match elem.checked_mul(slice.len()) {
            Some(n) => n,
            None => unreached(),
        };
        let mut zeroes: Vec<u8> = Vec::new();
        let mut i: usize = 0;
        while i < total
            invariant
                i <= total,
                zeroes@.len() == i,
            decreases total - i,
        {
            zeroes.push(0);
            i = i + 1;
        }
        crate::arc::Rar::autoreleased(TensorData { bytes: zeroes })
    }

    /// Wraps a whole slice's bytes, owned.
    pub fn with_slice_no_copy<T: Sized>(slice: &[T]) -> (r: TensorData)
        requires
            vstd::layout::size_of::<T>() * slice@.len() <= usize::MAX,
        ensures
            r@.len() == vstd::layout::size_of::<T>() * slice@.len(),
    {
        Self::with_slice_no_copy_ar(slice).retain()
    }
}

} // verus!
