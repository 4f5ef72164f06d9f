//! Fixed-capacity byte writers for assembling text and wire payloads.
//!
//! Each writer owns its buffer and a cursor. Writing appends the
//! string's bytes up to the buffer's capacity: what does not fit is
//! dropped, and the cursor never passes the capacity.

use vstd::prelude::*;
use vstd::string::StringSliceAdditionalSpecFns;

verus! {

/// A writer over a caller-supplied buffer.
pub struct ByteMutWriter {
    pub buf: Vec<u8>,
    pub cursor: usize,
}

/// The buffer contents after appending `s` at `cursor`, truncated to
/// the buffer's length.
pub open spec fn spec_written(buf: Seq<u8>, cursor: int, s: Seq<u8>) -> Seq<u8> {
    Seq::new(
        buf.len(),
        |i: int|
            if cursor <= i < cursor + s.len() {
                s[i - cursor]
            } else {
                buf[i]
            },
    )
}

impl ByteMutWriter {
    pub open spec fn wf(self) -> bool {
        self.cursor <= self.buf@.len()
    }

    /// Wrap a buffer, writing from its start.
    pub fn new(buf: Vec<u8>) -> (r: ByteMutWriter)
        ensures
            r.buf@ == buf@,
            r.cursor == 0,
            r.wf(),
    {
        ByteMutWriter { buf, cursor: 0 }
    }

    /// How many bytes have been written.
    pub fn cursor(&self) -> (r: usize)
        ensures
            r == self.cursor,
    {
        self.cursor
    }

    /// The buffer's total size.
    pub fn capacity(&self) -> (r: usize)
        ensures
            r == self.buf@.len(),
    {
        self.buf.len()
    }

    /// Zero the buffer and rewind the cursor.
    pub fn clear(&mut self)
        ensures
            final(self).buf@ =~= Seq::new(old(self).buf@.len(), |i: int| 0u8),
            final(self).cursor == 0,
            final(self).wf(),
    {
        let n = self.buf.len();
        let mut i: usize = 0;
        while i < n
            invariant
                i <= n,
                self.buf@.len() == n,
                forall|j: int| 0 <= j < i ==> self.buf@[j] == 0u8,
            decreases n - i,
        {
            self.buf.set(i, 0);
            i = i + 1;
        }
        self.cursor = 0;
        proof {
            assert(self.buf@ =~= Seq::new(old(self).buf@.len(), |i: int| 0u8));
        }
    }

    /// How many bytes have been written.
    pub fn len(&self) -> (r: usize)
        ensures
            r == self.cursor,
    {
        self.cursor
    }

    /// Whether nothing has been written.
    pub fn empty(&self) -> (r: bool)
        ensures
            r == (self.cursor == 0),
    {
        self.cursor == 0
    }

    /// Whether the buffer is full.
    pub fn full(&self) -> (r: bool)
        ensures
            r == (self.cursor == self.buf@.len()),
    {
        self.cursor == self.buf.len()
    }

    /// Append the bytes of `s`, dropping what does not fit; the cursor
    /// advances by the string's length but never past the capacity.
    pub fn write_str(&mut self, s: &str)
        requires
            old(self).wf(),
        ensures
            final(self).wf(),
            final(self).buf@ == spec_written(
                old(self).buf@,
                old(self).cursor as int,
                s.spec_bytes().take(
                    vstd::math::min(
                        s.spec_bytes().len() as int,
                        old(self).buf@.len() - old(self).cursor,
                    ),
                ),
            ),
            final(self).cursor == vstd::math::min(
                old(self).buf@.len() as int,
                old(self).cursor + s.spec_bytes().len(),
            ),
    {
        let bytes = s.as_bytes();
        let cap = self.buf.len();
        let room = cap - self.cursor;
        let count = if bytes.len() < room {
            bytes.len()
        } else {
            room
        };
        let mut i: usize = 0;
        while i < count
            invariant
                i <= count,
                count <= bytes@.len(),
                self.cursor + count <= cap,
                self.buf@.len() == cap,
                self.cursor == old(self).cursor,
                self.buf@.len() == old(self).buf@.len(),
                bytes@ == s.spec_bytes(),
                forall|j: int|
                    0 <= j < self.buf@.len() ==> self.buf@[j] == if self.cursor <= j < self.cursor
                        + i {
                        bytes@[j - self.cursor]
                    } else {
                        old(self).buf@[j]
                    },
            decreases count - i,
        {
            let b = bytes[i];
            proof {
                assert(self.cursor + i < self.buf@.len());
            }
            let idx: usize = self.cursor + i;
            self.buf.set(idx, b);
            i = i + 1;
        }
        let advance = if bytes.len() < room {
            bytes.len()
        } else {
            room
        };
        self.cursor = self.cursor + advance;
        proof {
            assert(self.buf@ =~= spec_written(
                old(self).buf@,
                old(self).cursor as int,
                s.spec_bytes().take(
                    vstd::math::min(
                        s.spec_bytes().len() as int,
                        old(self).buf@.len() - old(self).cursor,
                    ),
                ),
            ));
        }
    }

    /// The written prefix as text, or the empty string where the
    /// bytes are not valid text.
    ///
    /// Relies on core's `str::from_utf8`: on success the returned
    /// text is exactly the input bytes.
    #[verifier::external_body]
    pub fn as_str(&self) -> (r: &str)
        requires
            self.wf(),
        ensures
            r.spec_bytes() == self.buf@.take(self.cursor as int) || r.spec_bytes().len() == 0,
    {
        match core::str::from_utf8(&self.buf[0..self.cursor]) {
            Ok(s) => s,
            Err(_) => "",
        }
    }

    /// The written prefix of the buffer.
    pub fn as_bytes(&self) -> (r: &[u8])
        requires
            self.wf(),
        ensures
            r@ == self.buf@.take(self.cursor as int),
    {
        proof {
            assert(self.buf@.subrange(0, self.cursor as int) =~= self.buf@.take(
                self.cursor as int,
            ));
        }
        vstd::slice::slice_subrange(self.buf.as_slice(), 0, self.cursor)
    }
}

/// A writer over its own fixed-size buffer.
pub struct ByteMutWriterCap<const N: usize> {
    pub buf: [u8; N],
    pub cursor: usize,
}

impl<const N: usize> ByteMutWriterCap<N> {
    pub open spec fn wf(self) -> bool {
        self.cursor <= N
    }

    /// A zeroed writer.
    pub fn new() -> (r: ByteMutWriterCap<N>)
        ensures
            r.cursor == 0,
            r.wf(),
    {
        ByteMutWriterCap { buf: [0; N], cursor: 0 }
    }

    /// How many bytes have been written.
    pub fn cursor(&self) -> (r: usize)
        ensures
            r == self.cursor,
    {
        self.cursor
    }

    /// The buffer's total size.
    pub fn capacity(&self) -> (r: usize)
        ensures
            r == N,
    {
        N
    }

    /// Zero the buffer and rewind the cursor.
    pub fn clear(&mut self)
        ensures
            final(self).buf@ =~= Seq::new(N as nat, |i: int| 0u8),
            final(self).cursor == 0,
            final(self).wf(),
    {
        self.buf = [0; N];
        self.cursor = 0;
        proof {
            assert(self.buf@ =~= Seq::new(N as nat, |i: int| 0u8));
        }
    }

    /// How many bytes have been written.
    pub fn len(&self) -> (r: usize)
        ensures
            r == self.cursor,
    {
        self.cursor
    }

    /// Whether nothing has been written.
    pub fn empty(&self) -> (r: bool)
        ensures
            r == (self.cursor == 0),
    {
        self.cursor == 0
    }

    /// Whether nothing has been written.
    pub fn is_empty(&self) -> (r: bool)
        ensures
            r == (self.cursor == 0),
    {
        self.cursor == 0
    }

    /// Whether the buffer is full.
    pub fn full(&self) -> (r: bool)
        ensures
            r == (self.cursor == N),
    {
        self.cursor == N
    }

    /// Append the bytes of `s`, dropping what does not fit.
    pub fn write_str(&mut self, s: &str)
        requires
            old(self).wf(),
        ensures
            final(self).wf(),
            final(self).cursor == vstd::math::min(
                N as int,
                old(self).cursor + s.spec_bytes().len(),
            ),
            final(self).buf@ == spec_written(
                old(self).buf@,
                old(self).cursor as int,
                s.spec_bytes().take(
                    vstd::math::min(s.spec_bytes().len() as int, N - old(self).cursor),
                ),
            ),
    {
        let bytes = s.as_bytes();
        let room = N - self.cursor;
        let count = if bytes.len() < room {
            bytes.len()
        } else {
            room
        };
        let mut i: usize = 0;
        while i < count
            invariant
                i <= count,
                count <= bytes@.len(),
                self.cursor + count <= N,
                self.cursor == old(self).cursor,
                self.buf@.len() == N,
                bytes@ == s.spec_bytes(),
                forall|j: int|
                    0 <= j < N ==> self.buf@[j] == if self.cursor <= j < self.cursor + i {
                        bytes@[j - self.cursor]
                    } else {
                        old(self).buf@[j]
                    },
            decreases count - i,
        {
            let b = bytes[i];
            self.buf[self.cursor + i] = b;
            i = i + 1;
        }
        let advance = if bytes.len() < room {
            bytes.len()
        } else {
            room
        };
        self.cursor = self.cursor + advance;
        proof {
            assert(self.buf@ =~= spec_written(
                old(self).buf@,
                old(self).cursor as int,
                s.spec_bytes().take(
                    vstd::math::min(s.spec_bytes().len() as int, N - old(self).cursor),
                ),
            ));
        }
    }

    /// The written prefix as text, or the empty string where the
    /// bytes are not valid text.
    ///
    /// Relies on core's `str::from_utf8`: on success the returned
    /// text is exactly the input bytes.
    #[verifier::external_body]
    pub fn as_str(&self) -> (r: &str)
        requires
            self.wf(),
        ensures
            r.spec_bytes() == self.buf@.take(self.cursor as int) || r.spec_bytes().len() == 0,
    {
        match core::str::from_utf8(&self.buf[0..self.cursor]) {
            Ok(s) => s,
            Err(_) => "",
        }
    }

    /// The written prefix of the buffer.
    pub fn as_bytes(&self) -> (r: &[u8])
        requires
            self.wf(),
        ensures
            r@ == self.buf@.take(self.cursor as int),
    {
        proof {
            assert(self.buf@.subrange(0, self.cursor as int) =~= self.buf@.take(
                self.cursor as int,
            ));
        }
        vstd::slice::slice_subrange(self.buf.as_slice(), 0, self.cursor)
    }
}

} // verus!
