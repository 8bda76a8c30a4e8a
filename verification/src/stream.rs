//! A duplex stream made of a read half and a write half.
use vstd::prelude::*;

verus! {

/// A stream that reads from `reader` and writes to `writer`.
pub struct AsyncReadWrite<R, W> {
    reader: R,
    writer: W,
}

impl<R, W> AsyncReadWrite<R, W> {
    /// The read half.
    pub closed spec fn reader_half(&self) -> R {
        self.reader
    }

    /// The write half.
    pub closed spec fn writer_half(&self) -> W {
        self.writer
    }

    /// A stream of the two halves.
    pub fn new(reader: R, writer: W) -> (s: Self)
        ensures
            s.reader_half() == reader,
            s.writer_half() == writer,
    {
        AsyncReadWrite { reader, writer }
    }

    /// The two halves, read half first.
    pub fn into_parts(self) -> (r: (R, W))
        ensures
            r.0 == self.reader_half(),
            r.1 == self.writer_half(),
    {
        (self.reader, self.writer)
    }
}

} // verus!
