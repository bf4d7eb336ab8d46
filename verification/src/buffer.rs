//! Byte buffers handed back across the boundary.

use vstd::prelude::*;

use crate::error::{clear_last_error, LastError};

verus! {

/// An owned byte buffer handed back to the caller, who releases it with [`imbh_bytes_free`]. `len`
/// is the number of bytes in `data`.
#[derive(Debug)]
pub struct imbh_bytes {
    pub data: Vec<u8>,
    pub len: usize,
}

impl imbh_bytes {
    /// The buffer is one that the binding hands out.
    pub open spec fn wf(self) -> bool {
        self.len == self.data@.len()
    }
}

/// Wrap owned bytes for the caller.
pub fn make_bytes(v: Vec<u8>) -> (buffer: imbh_bytes)
    ensures
        buffer.wf(),
        buffer.data@ == v@,
{
    let len: usize = v.len();
    imbh_bytes { data: v, len }
}

/// Release a buffer. An empty buffer, or one released before, stays as it is.
pub fn imbh_bytes_free(buffer: &mut imbh_bytes, last: &mut LastError)
    requires
        old(buffer).wf(),
    ensures
        final(buffer).wf(),
        final(buffer).data@ == Seq::<u8>::empty(),
        old(buffer).len == 0 ==> *final(buffer) == *old(buffer),
        final(last)@ is None,
{
    clear_last_error(last);
    if buffer.len > 0 {
        *buffer = imbh_bytes { data: Vec::new(), len: 0 };
    }
}

/// A buffer that is handed out holds the bytes it was made of, and says how many they are; freeing
/// it leaves none.
pub proof fn buffers_hold_their_bytes(
    v: Vec<u8>,
    made: imbh_bytes,
    b: &mut imbh_bytes,
    last: &mut LastError,
)
    requires
        call_ensures(make_bytes, (v,), made),
        call_ensures(imbh_bytes_free, (b, last), ()),
    ensures
        made.data@ == v@,
        made.len == v@.len(),
        final(b).len == 0,
        final(b).data@.len() == 0,
        final(last)@ is None,
{
}

} // verus!
