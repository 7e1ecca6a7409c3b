//! The device-visible byte buffer; its view is its byte contents.

use vstd::prelude::*;

verus! {

/// A buffer of device-visible memory.
#[derive(Debug)]
pub struct Buffer {
    bytes: Vec<u8>,
    gpu_address: u64,
}

impl View for Buffer {
    type V = Seq<u8>;

    closed spec fn view(&self) -> Seq<u8> {
        self.bytes@
    }
}

impl Buffer {
    /// The address the device sees the buffer at.
    pub closed spec fn gpu_address_model(self) -> u64 {
        self.gpu_address
    }

    /// Only the device allocates buffers.
    pub(crate) fn with_bytes(bytes: Vec<u8>, gpu_address: u64) -> (r: Buffer)
        ensures
            r@ == bytes@,
            r.gpu_address_model() == gpu_address,
    {
        Buffer { bytes, gpu_address }
    }

    /// The buffer's length in bytes.
    pub fn len(&self) -> (n: usize)
        ensures
            n == self@.len(),
    {
        self.bytes.len()
    }

    pub fn is_empty(&self) -> (r: bool)
        ensures
            r == (self@.len() == 0),
    {
        self.bytes.len() == 0
    }

    /// The processor-visible contents.
    pub fn contents(&self) -> (r: &Vec<u8>)
        ensures
            r@ == self@,
    {
        &self.bytes
    }

    /// The address the device sees the buffer at.
    pub fn gpu_address(&self) -> (r: u64)
        ensures
            r == self.gpu_address_model(),
    {
        self.gpu_address
    }
}

} // verus!
