//! The per-instance string buffer.
//!
//! The renderer keeps a fixed-capacity buffer of one integer character code
//! per glyph instance. Writing a payload fills the front of the buffer, one
//! code per byte; what lies past the payload keeps its old contents. Only
//! the bytes that the current payload occupies are uploaded, so the upload
//! size is clamped to the buffer's capacity.

use vstd::prelude::*;

verus! {

/// Capacity of the string buffer, in glyph instances.
pub const STRING_BUFFER_CAPACITY: usize = 1024;

/// Size in bytes of one buffered character code.
pub const CHAR_CODE_BYTES: usize = 4;

/// Number of codes of a payload of `payload_len` bytes that the buffer can
/// hold: the payload's length, clamped to the buffer's capacity.
pub open spec fn spec_copied_len(payload_len: nat) -> nat {
    if payload_len < STRING_BUFFER_CAPACITY as nat {
        payload_len
    } else {
        STRING_BUFFER_CAPACITY as nat
    }
}

/// The fixed-capacity buffer of per-glyph character codes.
pub struct StringBuffer {
    pub data: Vec<i32>,
}

impl StringBuffer {
    /// The buffer always holds exactly its capacity in codes.
    pub open spec fn well_formed(self) -> bool {
        self.data@.len() == STRING_BUFFER_CAPACITY
    }

    /// A fresh buffer, zero-filled.
    pub fn new() -> (b: StringBuffer)
        ensures
            b.well_formed(),
            forall|i: int| 0 <= i < STRING_BUFFER_CAPACITY ==> b.data@[i] == 0,
    {
        let mut data: Vec<i32> = Vec::new();
        let mut i: usize = 0;
        while i < STRING_BUFFER_CAPACITY
            invariant
                i <= STRING_BUFFER_CAPACITY,
                data@.len() == i,
                forall|j: int| 0 <= j < i ==> data@[j] == 0,
            decreases STRING_BUFFER_CAPACITY - i,
        {
            data.push(0);
            i = i + 1;
        }
        StringBuffer { data }
    }

    /// Write the payload's bytes into the front of the buffer, one code per
    /// byte; codes past the payload are left as they were. A payload longer
    /// than the capacity is cut off at the capacity.
    pub fn copy_str_to_buffer(&mut self, payload: &[u8])
        requires
            old(self).well_formed(),
        ensures
            final(self).well_formed(),
            forall|i: int|
                0 <= i < spec_copied_len(payload@.len())
                    ==> final(self).data@[i] == payload@[i] as i32,
            forall|i: int|
                spec_copied_len(payload@.len()) <= i < STRING_BUFFER_CAPACITY
                    ==> final(self).data@[i] == old(self).data@[i],
    {
        let n = if payload.len() < STRING_BUFFER_CAPACITY {
            payload.len()
        } else {
            STRING_BUFFER_CAPACITY
        };
        let mut i: usize = 0;
        while i < n
            invariant
                i <= n,
                n == spec_copied_len(payload@.len()),
                n <= payload@.len(),
                self.well_formed(),
                forall|j: int| 0 <= j < i ==> self.data@[j] == payload@[j] as i32,
                forall|j: int|
                    i <= j < STRING_BUFFER_CAPACITY ==> self.data@[j] == old(self).data@[j],
            decreases n - i,
        {
            let code = payload[i];
            self.data[i] = code as i32;
            i = i + 1;
        }
    }

    /// Size in bytes of the upload that refreshes the payload's codes on the
    /// device: one code's size for each copied byte.
    pub fn upload_byte_size(&self, payload_len: usize) -> (n: usize)
        requires
            self.well_formed(),
        ensures
            n == CHAR_CODE_BYTES * spec_copied_len(payload_len as nat),
            n <= CHAR_CODE_BYTES * STRING_BUFFER_CAPACITY,
    {
        let copied = if payload_len < STRING_BUFFER_CAPACITY {
            payload_len
        } else {
            STRING_BUFFER_CAPACITY
        };
        CHAR_CODE_BYTES * copied
    }
}

} // verus!
