//! A log that gathers lines in memory until they are flushed.

use vstd::prelude::*;
use vstd::string::StringSliceAdditionalSpecFns;

verus! {

/// The byte that ends a line.
pub const LINE_END: u8 = 10;

/// A log kept in memory. Lines are gathered as pending bytes; a flush moves
/// them, in order, behind what was flushed before. A reader that shows the
/// pending bytes shows the lines logged since the last flush.
pub struct CustomLogger {
    pending: Vec<u8>,
    flushed: Vec<u8>,
}

impl CustomLogger {
    /// The bytes logged since the last flush.
    pub closed spec fn pending_bytes(&self) -> Seq<u8> {
        self.pending@
    }

    /// The bytes that flushes have taken over so far.
    pub closed spec fn flushed_bytes(&self) -> Seq<u8> {
        self.flushed@
    }

    /// Everything that was ever logged, in order.
    pub open spec fn all_bytes(&self) -> Seq<u8> {
        self.flushed_bytes() + self.pending_bytes()
    }

    /// An empty log.
    pub fn new() -> (logger: CustomLogger)
        ensures
            logger.pending_bytes() == Seq::<u8>::empty(),
            logger.flushed_bytes() == Seq::<u8>::empty(),
    {
        CustomLogger { pending: Vec::new(), flushed: Vec::new() }
    }

    /// Appends `message` and a line end to the pending bytes.
    pub fn log(&mut self, message: &str)
        ensures
            final(self).pending_bytes() == old(self).pending_bytes() + message.spec_bytes()
                + seq![LINE_END],
            final(self).flushed_bytes() == old(self).flushed_bytes(),
            final(self).all_bytes() == old(self).all_bytes() + message.spec_bytes() + seq![
                LINE_END,
            ],
    {
        self.pending.extend_from_slice(message.as_bytes());
        self.pending.push(LINE_END);
    }

    /// Moves the pending bytes behind the flushed ones.
    pub fn flush(&mut self)
        ensures
            final(self).flushed_bytes() == old(self).flushed_bytes() + old(self).pending_bytes(),
            final(self).pending_bytes() == Seq::<u8>::empty(),
            final(self).all_bytes() == old(self).all_bytes(),
    {
        self.flushed.append(&mut self.pending);
    }

    /// The bytes logged since the last flush.
    pub fn pending(&self) -> (bytes: &Vec<u8>)
        ensures
            bytes@ == self.pending_bytes(),
    {
        &self.pending
    }

    /// The bytes that flushes have taken over so far.
    pub fn flushed(&self) -> (bytes: &Vec<u8>)
        ensures
            bytes@ == self.flushed_bytes(),
    {
        &self.flushed
    }
}

} // verus!
