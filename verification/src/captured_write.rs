use vstd::prelude::*;

use crate::text::push_str;

verus! {

/// A sink for written text, kept for inspection instead of going to a terminal.
#[derive(Debug, Clone)]
pub struct CapturedWrite {
    pub buffer: String,
    pub flushed: bool,
}

impl CapturedWrite {
    /// Nothing written, not flushed.
    pub fn new() -> (r: CapturedWrite)
        ensures
            r.buffer@ == Seq::<char>::empty(),
            !r.flushed,
    {
        CapturedWrite { buffer: String::new(), flushed: false }
    }

    /// Forgets what was written.
    pub fn reset(&mut self)
        ensures
            final(self).buffer@ == Seq::<char>::empty(),
            !final(self).flushed,
    {
        self.buffer = String::new();
        self.flushed = false;
    }

    /// Takes written text (already decoded from UTF-8): it is appended, and
    /// the sink is no longer flushed. Returns the number of bytes taken.
    pub fn write_text(&mut self, content: &str) -> (r: usize)
        ensures
            final(self).buffer@ == old(self).buffer@ + content@,
            !final(self).flushed,
            r == crate::components::byte_len(content@),
    {
        push_str(&mut self.buffer, content);
        self.flushed = false;
        content.len()
    }

    /// Marks the written text as flushed.
    pub fn flush(&mut self)
        ensures
            final(self).buffer@ == old(self).buffer@,
            final(self).flushed,
    {
        self.flushed = true;
    }
}

} // verus!
