//! The bus transport collaborator and the non-blocking poll outcome.
//!
//! The physical two-wire bus is outside the driver core. Integrators
//! implement [`Transport`] for their bus hardware; the driver states its
//! guarantees relative to that contract.

use vstd::prelude::*;

verus! {

/// The fixed bus address of the device.
pub const DEV_ADDR: u8 = 0x39;

/// The bus transport the driver talks through.
///
/// An implementation performs the two primitive transactions of a
/// register-addressed two-wire bus. `Fault` is the implementation's own
/// error for "the transport reported a fault" (no acknowledgment, bus busy,
/// bus error); the driver propagates it verbatim and never retries.
pub trait Transport {
    /// The transport's fault type, surfaced to the caller unchanged.
    type Fault;

    /// The log of acknowledged write transactions: the device address and
    /// payload of every `bus_write` that returned success, oldest first.
    /// A faulted transaction records nothing.
    open spec fn bus_writes(&self) -> Seq<(u8, Seq<u8>)> {
        Seq::empty()
    }

    /// The log of acknowledged write-then-read transactions: the device
    /// address, written bytes, and reply bytes of every `bus_write_read`
    /// that returned success, oldest first. A faulted transaction records
    /// nothing.
    open spec fn bus_reads(&self) -> Seq<(u8, Seq<u8>, Seq<u8>)> {
        Seq::empty()
    }

    /// Write `bytes` to the device at bus address `device_address`.
    ///
    /// On success exactly this payload was acknowledged by the device and
    /// the write log grows by exactly that one transaction; on a fault the
    /// write log is unchanged. Read transactions never happen here.
    fn bus_write(&mut self, device_address: u8, bytes: &Vec<u8>) -> (r: Result<(), Self::Fault>)
        ensures
            r is Ok ==> final(self).bus_writes() == old(self).bus_writes().push(
                (device_address, bytes@),
            ),
            r is Err ==> final(self).bus_writes() == old(self).bus_writes(),
            final(self).bus_reads() == old(self).bus_reads(),
    ;

    /// Write `bytes` to the device at bus address `device_address`, then
    /// read back `read_len` bytes in the same combined transaction.
    ///
    /// On success the reply holds exactly `read_len` bytes — their values
    /// are whatever the device answered — and the read log grows by exactly
    /// that one transaction; on a fault the read log is unchanged. Write
    /// transactions never happen here.
    fn bus_write_read(&mut self, device_address: u8, bytes: &Vec<u8>, read_len: usize) -> (r:
        Result<Vec<u8>, Self::Fault>)
        ensures
            r matches Ok(reply) ==> reply@.len() == read_len && final(self).bus_reads() == old(
                self,
            ).bus_reads().push((device_address, bytes@, reply@)),
            r is Err ==> final(self).bus_reads() == old(self).bus_reads(),
            final(self).bus_writes() == old(self).bus_writes(),
    ;
}

/// The outcome of one non-blocking data-retrieval attempt.
///
/// `NotReady` is a distinguished non-error outcome: the readiness bit was
/// not set, so the caller should retry later with its own wait strategy.
/// `Fault` is a hard transport error, never used for the not-ready case.
#[derive(Debug, PartialEq, Eq)]
pub enum Poll<T, F> {
    /// The payload was available and was read.
    Ready(T),
    /// The readiness bit is not set yet; retry later.
    NotReady,
    /// The transport reported a fault during the status check or the read.
    Fault(F),
}

} // verus!
