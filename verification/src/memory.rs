//! Validated access to guest memory.
//!
//! A guest hands the host a pointer and a length as two 32-bit values. Both are
//! read as unsigned numbers, the range is checked against the memory's current
//! size, and only then are the bytes looked at.

use crate::signature::Limits;
use vstd::prelude::*;
use vstd::slice::slice_subrange;
use vstd::utf8::{
    decode_utf8,
    decode_utf8_encode_utf8,
    encode_utf8,
    encode_utf8_decode_utf8,
    encode_utf8_valid_utf8,
    valid_utf8,
};

verus! {

/// Why a guest-supplied range could not be turned into a host value.
#[derive(Clone, Copy, Debug, PartialEq, Eq, Structural)]
pub enum MemoryError {
    /// The calling instance exports no memory.
    NoMemoryExport,
    /// The range does not lie inside the memory's current size.
    OutOfBounds,
    /// The range is valid but its bytes are not UTF-8.
    InvalidEncoding,
}

/// A 32-bit guest value read as an unsigned number.
pub open spec fn unsigned(x: i32) -> int {
    if x < 0 {
        x + 0x1_0000_0000
    } else {
        x as int
    }
}

/// Whether `[ptr, ptr + len)`, both read as unsigned, lies inside `size` bytes.
pub open spec fn in_bounds(size: nat, ptr: i32, len: i32) -> bool {
    unsigned(ptr) + unsigned(len) <= size
}

/// The bytes of `memory` that a valid range denotes.
pub open spec fn guest_bytes(memory: Seq<u8>, ptr: i32, len: i32) -> Seq<u8>
    recommends
        in_bounds(memory.len(), ptr, len),
{
    memory.subrange(unsigned(ptr), unsigned(ptr) + unsigned(len))
}

/// What reading a byte range yields.
pub open spec fn bytes_at(memory: Seq<u8>, ptr: i32, len: i32) -> Result<Seq<u8>, MemoryError> {
    if in_bounds(memory.len(), ptr, len) {
        Ok(guest_bytes(memory, ptr, len))
    } else {
        Err(MemoryError::OutOfBounds)
    }
}

/// What reading a string yields: the memory must exist, then the range must be
/// in bounds, then the bytes must be UTF-8, in this order.
pub open spec fn str_at(memory: Option<Seq<u8>>, ptr: i32, len: i32) -> Result<
    Seq<char>,
    MemoryError,
> {
    match memory {
        None => Err(MemoryError::NoMemoryExport),
        Some(bytes) => match bytes_at(bytes, ptr, len) {
            Err(e) => Err(e),
            Ok(range) => if valid_utf8(range) {
                Ok(decode_utf8(range))
            } else {
                Err(MemoryError::InvalidEncoding)
            },
        },
    }
}

/// Reads a 32-bit guest value as unsigned, without sign extension.
pub fn to_unsigned(x: i32) -> (u: u32)
    ensures
        u == unsigned(x),
{
    let u: u32 = x as u32;
    assert(x < 0 ==> u == x + 0x1_0000_0000) by (bit_vector)
        requires
            u == x as u32,
    ;
    assert(x >= 0 ==> u == x) by (bit_vector)
        requires
            u == x as u32,
    ;
    u
}

/// Whether the guest range lies inside a memory of `size` bytes.
pub fn range_in_bounds(size: usize, ptr: i32, len: i32) -> (ok: bool)
    ensures
        ok == in_bounds(size as nat, ptr, len),
{
    let end: u64 = to_unsigned(ptr) as u64 + to_unsigned(len) as u64;
    end <= size as u64
}

/// `core::str::from_utf8`: succeeds exactly on well-formed UTF-8, and the
/// string it returns has the given bytes as its encoding.
#[verifier::external_body]
fn utf8_str<'a>(bytes: &'a [u8]) -> (text: Option<&'a str>)
    ensures
        text.is_some() == valid_utf8(bytes@),
        text matches Some(s) ==> encode_utf8(s@) == bytes@,
{
    match core::str::from_utf8(bytes) {
        Ok(s) => Some(s),
        Err(_) => None,
    }
}

/// Decodes bytes as UTF-8 text.
pub fn decode<'a>(bytes: &'a [u8]) -> (text: Result<&'a str, MemoryError>)
    ensures
        match text {
            Ok(s) => valid_utf8(bytes@) && s@ == decode_utf8(bytes@),
            Err(e) => !valid_utf8(bytes@) && e == MemoryError::InvalidEncoding,
        },
{
    match utf8_str(bytes) {
        Some(s) => {
            proof {
                encode_utf8_decode_utf8(s@);
            }
            Ok(s)
        },
        None => Err(MemoryError::InvalidEncoding),
    }
}

/// The bytes of the guest range, or `OutOfBounds`; nothing outside the range
/// is read.
pub fn read_bytes<'a>(memory: &'a [u8], ptr: i32, len: i32) -> (range: Result<
    &'a [u8],
    MemoryError,
>)
    ensures
        match range {
            Ok(r) => bytes_at(memory@, ptr, len) == Ok::<Seq<u8>, MemoryError>(r@),
            Err(e) => bytes_at(memory@, ptr, len) == Err::<Seq<u8>, MemoryError>(e),
        },
{
    let start: u32 = to_unsigned(ptr);
    let end: u64 = start as u64 + to_unsigned(len) as u64;
    if end > memory.len() as u64 {
        return Err(MemoryError::OutOfBounds);
    }
    Ok(slice_subrange(memory, start as usize, end as usize))
}

/// The text that a guest passed by pointer and length.
///
/// `memory` is the calling instance's exported memory, if it has one.
pub fn read_str<'a>(memory: Option<&'a [u8]>, ptr: i32, len: i32) -> (text: Result<
    &'a str,
    MemoryError,
>)
    ensures
        match text {
            Ok(s) => str_at(memory_view(memory), ptr, len) == Ok::<Seq<char>, MemoryError>(s@),
            Err(e) => str_at(memory_view(memory), ptr, len) == Err::<Seq<char>, MemoryError>(e),
        },
        memory is None ==> text == Err::<&str, MemoryError>(MemoryError::NoMemoryExport),
        memory matches Some(m) ==> {
            &&& !in_bounds(m@.len(), ptr, len) ==> text == Err::<&str, MemoryError>(
                MemoryError::OutOfBounds,
            )
            &&& in_bounds(m@.len(), ptr, len) && !valid_utf8(guest_bytes(m@, ptr, len)) ==> text
                == Err::<&str, MemoryError>(MemoryError::InvalidEncoding)
            &&& in_bounds(m@.len(), ptr, len) && valid_utf8(guest_bytes(m@, ptr, len)) ==> text
                is Ok
            &&& text matches Ok(s) ==> encode_utf8(s@) == guest_bytes(m@, ptr, len)
        },
{
    match memory {
        None => Err(MemoryError::NoMemoryExport),
        Some(bytes) => match read_bytes(bytes, ptr, len) {
            Err(e) => Err(e),
            Ok(range) => {
                proof {
                    if valid_utf8(range@) {
                        decode_utf8_encode_utf8(range@);
                    }
                }
                decode(range)
            },
        },
    }
}

/// The content of an optional memory.
pub open spec fn memory_view(memory: Option<&[u8]>) -> Option<Seq<u8>> {
    match memory {
        None => None,
        Some(m) => Some(m@),
    }
}

/// A range that passes the end of the memory is refused as out of bounds,
/// whatever the memory holds; one that does not is never refused as such.
pub proof fn law_range_past_the_end_is_out_of_bounds(memory: Seq<u8>, ptr: i32, len: i32)
    ensures
        unsigned(ptr) + unsigned(len) > memory.len() ==> bytes_at(memory, ptr, len) == Err::<
            Seq<u8>,
            MemoryError,
        >(MemoryError::OutOfBounds) && str_at(Some(memory), ptr, len) == Err::<
            Seq<char>,
            MemoryError,
        >(MemoryError::OutOfBounds),
        unsigned(ptr) + unsigned(len) <= memory.len() ==> bytes_at(memory, ptr, len) is Ok
            && str_at(Some(memory), ptr, len) != Err::<Seq<char>, MemoryError>(
            MemoryError::OutOfBounds,
        ),
        0 <= unsigned(ptr) < 0x1_0000_0000,
        0 <= unsigned(len) < 0x1_0000_0000,
{
}

/// A read sees the bytes of its range and nothing else: two memories that
/// agree inside the range give the same result, whatever lies outside it.
pub proof fn law_read_sees_only_its_range(first: Seq<u8>, second: Seq<u8>, ptr: i32, len: i32)
    requires
        in_bounds(first.len(), ptr, len),
        in_bounds(second.len(), ptr, len),
        forall|i: int|
            unsigned(ptr) <= i < unsigned(ptr) + unsigned(len) ==> first[i] == second[i],
    ensures
        bytes_at(first, ptr, len) == bytes_at(second, ptr, len),
        str_at(Some(first), ptr, len) == str_at(Some(second), ptr, len),
{
    assert(guest_bytes(first, ptr, len) =~= guest_bytes(second, ptr, len));
}

/// A valid range that holds the encoding of a text reads as exactly that
/// text; a valid range whose bytes are not UTF-8 gives an encoding error.
pub proof fn law_utf8_decodes_exactly(memory: Seq<u8>, ptr: i32, len: i32, text: Seq<char>)
    requires
        in_bounds(memory.len(), ptr, len),
    ensures
        guest_bytes(memory, ptr, len) == encode_utf8(text) ==> str_at(Some(memory), ptr, len)
            == Ok::<Seq<char>, MemoryError>(text),
        !valid_utf8(guest_bytes(memory, ptr, len)) ==> str_at(Some(memory), ptr, len) == Err::<
            Seq<char>,
            MemoryError,
        >(MemoryError::InvalidEncoding),
        str_at(Some(memory), ptr, len) matches Ok(read) ==> encode_utf8(read) == guest_bytes(
            memory,
            ptr,
            len,
        ),
{
    if guest_bytes(memory, ptr, len) == encode_utf8(text) {
        encode_utf8_valid_utf8(text);
        encode_utf8_decode_utf8(text);
    }
    if valid_utf8(guest_bytes(memory, ptr, len)) {
        decode_utf8_encode_utf8(guest_bytes(memory, ptr, len));
    }
}

/// Bytes in one page of linear memory.
pub const PAGE_SIZE: u64 = 65536;

/// Most pages a linear memory can have: with them it spans the 32-bit
/// address space.
pub const MAX_PAGES: u64 = 65536;

/// The page bound that `limits` declares: its own maximum, or the largest
/// memory there is.
pub open spec fn page_bound(limits: Limits) -> int {
    match limits.maximum {
        Some(max) => max as int,
        None => MAX_PAGES as int,
    }
}

/// Limits that a memory can be made with.
pub open spec fn limits_valid(limits: Limits) -> bool {
    limits.minimum <= page_bound(limits) <= MAX_PAGES
}

/// A growable, bounds-checked, byte-addressable memory.
pub struct LinearMemory {
    bytes: Vec<u8>,
    limits: Limits,
}

impl View for LinearMemory {
    type V = Seq<u8>;

    closed spec fn view(&self) -> Seq<u8> {
        self.bytes@
    }
}

impl LinearMemory {
    /// The limits that the memory was declared with.
    pub closed spec fn limits(&self) -> Limits {
        self.limits
    }

    /// The invariant of a memory: whole pages, within the declared limits.
    pub closed spec fn wf(&self) -> bool {
        &&& limits_valid(self.limits)
        &&& (self.bytes@.len() as int) % (PAGE_SIZE as int) == 0
        &&& self.limits.minimum * PAGE_SIZE <= self.bytes@.len() <= page_bound(self.limits)
            * PAGE_SIZE
    }

    /// Pages currently in the memory.
    pub open spec fn pages(&self) -> int {
        self@.len() as int / (PAGE_SIZE as int)
    }

    /// A zeroed memory of the declared minimum size, unless the limits are
    /// not valid or the minimum does not fit this machine's address space.
    pub fn new(limits: Limits) -> (memory: Option<LinearMemory>)
        ensures
            memory.is_some() == (limits_valid(limits) && limits.minimum * PAGE_SIZE
                <= usize::MAX),
            memory matches Some(m) ==> {
                &&& m.wf()
                &&& m.limits() == limits
                &&& m@.len() == limits.minimum * PAGE_SIZE
                &&& forall|i: int| 0 <= i < m@.len() ==> m@[i] == 0
            },
    {
        let bound = match limits.maximum {
            Some(max) => max,
            None => MAX_PAGES,
        };
        if limits.minimum > bound || bound > MAX_PAGES {
            return None;
        }
        let size: u64 = limits.minimum * PAGE_SIZE;
        if size > usize::MAX as u64 {
            return None;
        }
        let bytes: Vec<u8> = vec![0u8; size as usize];
        Some(LinearMemory { bytes, limits })
    }

    /// The limits that the memory was declared with.
    pub fn declared_limits(&self) -> (limits: Limits)
        ensures
            limits == self.limits(),
    {
        self.limits
    }

    /// Current size in bytes.
    pub fn size(&self) -> (size: usize)
        ensures
            size == self@.len(),
    {
        self.bytes.len()
    }

    /// The whole memory, for reading.
    pub fn data(&self) -> (data: &[u8])
        ensures
            data@ == self@,
    {
        self.bytes.as_slice()
    }

    /// Grows the memory by `delta` zeroed pages and returns the page count
    /// before. Nothing changes where the result would pass the declared
    /// maximum or this machine's address space.
    pub fn grow(&mut self, delta: u64) -> (previous: Option<u64>)
        requires
            old(self).wf(),
        ensures
            final(self).wf(),
            final(self).limits() == old(self).limits(),
            previous.is_some() == (old(self).pages() + delta <= page_bound(old(self).limits()) && (
            old(self).pages() + delta) * PAGE_SIZE <= usize::MAX),
            match previous {
                Some(pages) => {
                    &&& pages == old(self).pages()
                    &&& final(self)@.len() == old(self)@.len() + delta * PAGE_SIZE
                    &&& final(self)@.subrange(0, old(self)@.len() as int) == old(self)@
                    &&& forall|i: int|
                        old(self)@.len() <= i < final(self)@.len() ==> final(self)@[i] == 0
                },
                None => final(self)@ == old(self)@,
            },
    {
        let bound = match self.limits.maximum {
            Some(max) => max,
            None => MAX_PAGES,
        };
        let pages: u64 = self.bytes.len() as u64 / PAGE_SIZE;
        if delta > bound - pages {
            return None;
        }
        let size: u64 = (pages + delta) * PAGE_SIZE;
        if size > usize::MAX as u64 {
            return None;
        }
        self.bytes.resize(size as usize, 0u8);
        Some(pages)
    }

    /// Copies `bytes` into the memory at `offset`, or changes nothing where
    /// they do not fit.
    pub fn write(&mut self, offset: u32, bytes: &[u8]) -> (done: Result<(), MemoryError>)
        requires
            old(self).wf(),
        ensures
            final(self).wf(),
            final(self).limits() == old(self).limits(),
            match done {
                Ok(()) => {
                    &&& offset + bytes@.len() <= old(self)@.len()
                    &&& final(self)@ == old(self)@.subrange(0, offset as int) + bytes@
                        + old(self)@.subrange(offset + bytes@.len(), old(self)@.len() as int)
                },
                Err(e) => {
                    &&& e == MemoryError::OutOfBounds
                    &&& offset + bytes@.len() > old(self)@.len()
                    &&& final(self)@ == old(self)@
                },
            },
    {
        let size = self.bytes.len();
        if bytes.len() > size || offset as usize > size - bytes.len() {
            return Err(MemoryError::OutOfBounds);
        }
        let start = offset as usize;
        let ghost before = self.bytes@;
        let mut i: usize = 0;
        while i < bytes.len()
            invariant
                i <= bytes.len(),
                start + bytes.len() <= size,
                self.bytes@.len() == size,
                self.limits == old(self).limits,
                before == old(self)@,
                before.len() == size,
                forall|j: int| 0 <= j < start ==> self.bytes@[j] == before[j],
                forall|j: int| start <= j < start + i ==> self.bytes@[j] == bytes@[j - start],
                forall|j: int| start + i <= j < size ==> self.bytes@[j] == before[j],
            decreases bytes.len() - i,
        {
            self.bytes.set(start + i, bytes[i]);
            i += 1;
        }
        assert(self.bytes@ =~= before.subrange(0, start as int) + bytes@ + before.subrange(
            start + bytes@.len(),
            before.len() as int,
        ));
        Ok(())
    }

    /// The bytes of a guest range.
    pub fn read_bytes(&self, ptr: i32, len: i32) -> (range: Result<&[u8], MemoryError>)
        ensures
            match range {
                Ok(r) => bytes_at(self@, ptr, len) == Ok::<Seq<u8>, MemoryError>(r@),
                Err(e) => bytes_at(self@, ptr, len) == Err::<Seq<u8>, MemoryError>(e),
            },
    {
        read_bytes(self.bytes.as_slice(), ptr, len)
    }

    /// The text of a guest range.
    pub fn read_str(&self, ptr: i32, len: i32) -> (text: Result<&str, MemoryError>)
        ensures
            match text {
                Ok(s) => str_at(Some(self@), ptr, len) == Ok::<Seq<char>, MemoryError>(s@),
                Err(e) => str_at(Some(self@), ptr, len) == Err::<Seq<char>, MemoryError>(e),
            },
    {
        read_str(Some(self.bytes.as_slice()), ptr, len)
    }
}

} // verus!
