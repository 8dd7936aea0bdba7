//! Buffered diagnostic text for a host output primitive.
//!
//! The writer accumulates text until it is flushed; flushing hands the
//! accumulated text out and empties the buffer. The library never performs
//! the output itself: the host environment owns the primitive that takes a
//! byte buffer, so callers pass what a flush returns to that primitive.

use vstd::prelude::*;

verus! {

/// Accumulates diagnostic text until the host output primitive is given it.
pub struct KernelDebugWriter {
    buffer: String,
}

impl View for KernelDebugWriter {
    type V = Seq<char>;

    closed spec fn view(&self) -> Seq<char> {
        self.buffer@
    }
}

impl KernelDebugWriter {
    /// A writer with nothing buffered.
    pub fn new() -> (w: Self)
        ensures
            w@ == Seq::<char>::empty(),
    {
        KernelDebugWriter { buffer: String::new() }
    }

    /// Appends text to the buffer; nothing leaves the writer until
    /// [`Self::flush`].
    pub fn write_str(&mut self, s: &str)
        ensures
            final(self)@ == old(self)@ + s@,
    {
        self.buffer.append(s);
    }

    /// Takes the buffered text out for the host output primitive and leaves
    /// the buffer empty. The caller owns handing the result to the host.
    pub fn flush(&mut self) -> (out: String)
        ensures
            out@ == old(self)@,
            final(self)@ == Seq::<char>::empty(),
    {
        let out = self.buffer.clone();
        self.buffer = String::new();
        out
    }
}

/// Buffers one piece of text and flushes the writer: the result is
/// everything the writer held followed by `s`, ready for the host output
/// primitive, and the writer is left empty.
pub fn print(writer: &mut KernelDebugWriter, s: &str) -> (out: String)
    ensures
        out@ == old(writer)@ + s@,
        final(writer)@ == Seq::<char>::empty(),
{
    writer.write_str(s);
    writer.flush()
}

} // verus!
