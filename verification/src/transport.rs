//! The byte-transfer capability that carries the driver's bus traffic.
//!
//! The driver never talks to hardware itself: every exchange goes through
//! an implementation of [`Transport`] supplied by the caller. The trait
//! carries a ghost log of the transactions submitted so far, and each
//! method's contract says how a successful call extends it. The driver's
//! own contracts are proved against these obligations; an implementation
//! outside the verified library is trusted to meet them, in the same way
//! the hardware behind it is.

use vstd::prelude::*;

verus! {

/// One bus transaction, as the ghost log records it.
pub enum BusOp {
    /// Bytes sent with the response ignored.
    Write(Seq<u8>),
    /// Bytes sent and, in the same transaction, the bytes received.
    Exchange(Seq<u8>, Seq<u8>),
    /// Bytes sent, then a blocking delay of the given nanoseconds, all in
    /// one transaction.
    WriteDelay(Seq<u8>, u32),
}

/// A blocking byte-transfer capability: one chip-select-asserted
/// transaction per call.
pub trait Transport {
    /// The transport's own error type.
    type Error;

    /// The transactions submitted so far, oldest first. This is ghost
    /// state: an implementation overrides it with its own model of the
    /// traffic, and the method contracts below tie every call to it.
    open spec fn requests(&self) -> Seq<BusOp> {
        Seq::empty()
    }

    /// Send `bytes` and ignore the response.
    fn write(&mut self, bytes: &[u8]) -> (r: Result<(), Self::Error>)
        ensures
            r is Ok ==> final(self).requests() == old(self).requests().push(
                BusOp::Write(bytes@),
            ),
    ;

    /// Send the buffer's contents and overwrite them with the bytes
    /// received, one received byte per byte sent.
    fn exchange_in_place(&mut self, buffer: &mut Vec<u8>) -> (r: Result<(), Self::Error>)
        ensures
            r is Ok ==> final(buffer)@.len() == old(buffer)@.len(),
            r is Ok ==> final(self).requests() == old(self).requests().push(
                BusOp::Exchange(old(buffer)@, final(buffer)@),
            ),
    ;

    /// Send `bytes`, then block for at least `delay_ns` nanoseconds before
    /// the transaction ends.
    fn write_then_delay(&mut self, bytes: &[u8], delay_ns: u32) -> (r: Result<(), Self::Error>)
        ensures
            r is Ok ==> final(self).requests() == old(self).requests().push(
                BusOp::WriteDelay(bytes@, delay_ns),
            ),
    ;
}

} // verus!
