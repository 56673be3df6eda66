//! Caller-owned byte buffers handed across the ABI.

use vstd::prelude::*;
use vstd::string::*;
use vstd::utf8::*;
use crate::text::{utf8_lossy, lossy_utf8};

verus! {

broadcast use vstd::utf8::encode_utf8_valid_utf8, vstd::utf8::encode_utf8_decode_utf8;

/// Caller-owned byte buffer returned by the ABI. Freeing an empty buffer is
/// harmless; a freed buffer is empty.
#[derive(Debug)]
pub struct CuaDriverBuffer {
    data: Vec<u8>,
}

impl View for CuaDriverBuffer {
    type V = Seq<u8>;

    open spec fn view(&self) -> Seq<u8> {
        self.spec_bytes()
    }
}

impl CuaDriverBuffer {
    /// The bytes the buffer holds.
    pub closed spec fn spec_bytes(&self) -> Seq<u8> {
        self.data@
    }

    /// A buffer that holds nothing.
    pub fn empty() -> (buffer: CuaDriverBuffer)
        ensures
            buffer@ == Seq::<u8>::empty(),
    {
        CuaDriverBuffer { data: Vec::new() }
    }

    /// A buffer holding the UTF-8 encoding of `value`; an empty string gives
    /// the empty buffer.
    pub fn from_string(value: String) -> (buffer: CuaDriverBuffer)
        ensures
            buffer@ == encode_utf8(value@),
            value@.len() == 0 <==> buffer@.len() == 0,
    {
        if value.as_str().is_empty() {
            return CuaDriverBuffer::empty();
        }
        let data = value.as_str().as_bytes_vec();
        proof {
            if data@.len() == 0 {
                assert(decode_utf8(encode_utf8(value@)) == value@);
            }
        }
        CuaDriverBuffer { data }
    }

    /// A buffer that takes over `data`.
    pub fn from_bytes(data: Vec<u8>) -> (buffer: CuaDriverBuffer)
        ensures
            buffer@ == data@,
    {
        CuaDriverBuffer { data }
    }

    /// The number of bytes held.
    pub fn len(&self) -> (len: usize)
        ensures
            len == self@.len(),
    {
        self.data.len()
    }

    /// The bytes held.
    pub fn as_slice(&self) -> (bytes: &[u8])
        ensures
            bytes@ == self@,
    {
        self.data.as_slice()
    }

    /// Gives up the buffer's bytes.
    pub fn into_bytes(self) -> (data: Vec<u8>)
        ensures
            data@ == self@,
    {
        self.data
    }

    /// Releases what the buffer holds and leaves it empty.
    pub fn free(&mut self)
        ensures
            final(self)@ == Seq::<u8>::empty(),
    {
        *self = CuaDriverBuffer::empty();
    }
}

/// Frees a caller-owned buffer and leaves it empty; freeing an empty buffer
/// is harmless. (A null buffer pointer is ignored before this is reached.)
pub fn cua_driver_buffer_free_v1(buffer: &mut CuaDriverBuffer)
    ensures
        final(buffer)@ == Seq::<u8>::empty(),
{
    buffer.free();
}

/// Reads a buffer's bytes as text (ill-formed UTF-8 replaced) and frees it.
pub fn copy_and_free_buffer(buffer: &mut CuaDriverBuffer) -> (value: String)
    ensures
        old(buffer)@.len() == 0 ==> value@ == Seq::<char>::empty(),
        old(buffer)@.len() != 0 ==> value@ == lossy_utf8(old(buffer)@),
        valid_utf8(old(buffer)@) ==> value@ == decode_utf8(old(buffer)@),
        final(buffer)@ == Seq::<u8>::empty(),
{
    let value = if buffer.len() == 0 {
        String::new()
    } else {
        utf8_lossy(buffer.as_slice())
    };
    buffer.free();
    value
}

/// Text written into a buffer is read back unchanged.
pub proof fn lemma_buffer_round_trip(text: Seq<char>)
    ensures
        valid_utf8(encode_utf8(text)),
        decode_utf8(encode_utf8(text)) == text,
        encode_utf8(text).len() == 0 <==> text.len() == 0,
{
    if encode_utf8(text).len() == 0 {
        assert(decode_utf8(encode_utf8(text)) == text);
    }
}

} // verus!
