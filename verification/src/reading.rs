//! Gesture data retrieval and device identification.
//!
//! Gesture datasets queue up in the device's FIFO, four bytes per dataset
//! (up, down, left, right). A burst read is gated by the gesture-valid
//! readiness bit and truncates silently to the caller's buffer: unread FIFO
//! bytes stay queued on the device.

use vstd::prelude::*;

use crate::device::Apds9960;
use crate::registers::{GFIFO_U, GFLVL, GSTATUS, GSTATUS_GVALID, ID};
use crate::transport::{Poll, Transport, DEV_ADDR};

verus! {

/// Whether a gesture status byte has the gesture-valid readiness bit set.
pub open spec fn spec_gesture_valid(gstatus: u8) -> bool {
    gstatus & GSTATUS_GVALID != 0
}

/// Test the gesture-valid readiness bit of a gesture status byte.
pub fn gesture_valid(gstatus: u8) -> (r: bool)
    ensures
        r == spec_gesture_valid(gstatus),
{
    gstatus & GSTATUS_GVALID != 0
}

/// The number of bytes one gesture burst copies: the bytes available in the
/// FIFO (four per dataset at `level`) truncated to the buffer's capacity.
pub open spec fn spec_gesture_byte_count(level: u8, capacity: nat) -> nat {
    if 4 * level <= capacity {
        4 * (level as nat)
    } else {
        capacity
    }
}

/// Compute `min(capacity, 4 * level)`, the byte count of one gesture burst.
pub fn gesture_byte_count(level: u8, capacity: usize) -> (n: usize)
    ensures
        n == spec_gesture_byte_count(level, capacity as nat),
        n <= capacity,
{
    let available: usize = 4 * (level as usize);
    if available <= capacity {
        available
    } else {
        capacity
    }
}

/// Copy all of `src` over the front of `dst`, leaving every byte of `dst`
/// at or beyond `src.len()` untouched.
pub fn copy_to_front(dst: &mut Vec<u8>, src: &Vec<u8>)
    requires
        src@.len() <= old(dst)@.len(),
    ensures
        final(dst)@.len() == old(dst)@.len(),
        final(dst)@ == src@ + old(dst)@.skip(src@.len() as int),
{
    let mut i: usize = 0;
    while i < src.len()
        invariant
            i <= src@.len(),
            src@.len() <= dst@.len(),
            dst@.len() == old(dst)@.len(),
            forall|j: int| 0 <= j < i ==> dst@[j] == src@[j],
            forall|j: int| i <= j < dst@.len() ==> dst@[j] == old(dst)@[j],
        decreases src@.len() - i,
    {
        let b = src[i];
        dst.set(i, b);
        i += 1;
    }
    proof {
        assert(dst@ =~= src@ + old(dst)@.skip(src@.len() as int));
    }
}

/// One acknowledged read of the gesture status register whose reply byte
/// `gstatus` answers the gesture readiness question `v`.
pub open spec fn gesture_status_logged<T: Transport>(
    pre: Apds9960<T>,
    post: Apds9960<T>,
    v: bool,
    gstatus: u8,
) -> bool {
    &&& Apds9960::<T>::byte_read_logged(pre, post, GSTATUS, gstatus)
    &&& v == spec_gesture_valid(gstatus)
}

/// An acknowledged gesture-status read with the readiness bit set, followed
/// by an acknowledged FIFO-level read answering `level`.
pub open spec fn gesture_level_logged<T: Transport>(
    pre: Apds9960<T>,
    post: Apds9960<T>,
    gstatus: u8,
    level: u8,
) -> bool {
    &&& spec_gesture_valid(gstatus)
    &&& post.bus_reads() == pre.bus_reads().push((DEV_ADDR, seq![GSTATUS], seq![gstatus])).push(
        (DEV_ADDR, seq![GFLVL], seq![level]),
    )
}

/// One complete gesture burst against the transaction log: the gesture
/// status register was read with the readiness bit set, the FIFO level
/// register answered `level`, and one burst read of exactly
/// `min(buffer.len(), 4 * level)` bytes from the FIFO start filled the
/// front of the buffer, every byte at or beyond that count keeping its old
/// value.
pub open spec fn gesture_burst_logged<T: Transport>(
    pre: Apds9960<T>,
    post: Apds9960<T>,
    buffer_pre: Seq<u8>,
    buffer_post: Seq<u8>,
    gstatus: u8,
    level: u8,
) -> bool {
    let n = spec_gesture_byte_count(level, buffer_pre.len());
    &&& spec_gesture_valid(gstatus)
    &&& post.bus_reads() == pre.bus_reads().push((DEV_ADDR, seq![GSTATUS], seq![gstatus])).push(
        (DEV_ADDR, seq![GFLVL], seq![level]),
    ).push((DEV_ADDR, seq![GFIFO_U], buffer_post.take(n as int)))
    &&& buffer_post.len() == buffer_pre.len()
    &&& buffer_post.skip(n as int) == buffer_pre.skip(n as int)
}

/// The shape of one gesture burst: with FIFO level `level` and a buffer
/// `buffer`, exactly `min(buffer.len(), 4 * level)` bytes of FIFO data are
/// copied to the front, and no index at or beyond that count is altered.
pub proof fn lemma_gesture_burst_shape(level: u8, buffer: Seq<u8>, fifo: Seq<u8>)
    requires
        fifo.len() == spec_gesture_byte_count(level, buffer.len()),
    ensures
        ({
            let n = spec_gesture_byte_count(level, buffer.len());
            let burst = fifo + buffer.skip(n as int);
            &&& n <= buffer.len()
            &&& (4 * level <= buffer.len() ==> n == 4 * level)
            &&& (buffer.len() < 4 * level ==> n == buffer.len())
            &&& burst.len() == buffer.len()
            &&& forall|i: int| n <= i < buffer.len() ==> burst[i] == buffer[i]
        }),
{
    let n = spec_gesture_byte_count(level, buffer.len());
    let burst = fifo + buffer.skip(n as int);
    assert forall|i: int| n <= i < buffer.len() implies burst[i] == buffer[i] by {
        assert(burst[i] == buffer.skip(n as int)[i - n]);
    }
}

impl<T: Transport> Apds9960<T> {
    /// Read the number of gesture datasets queued in the FIFO (one dataset
    /// is four bytes: up, down, left, right): on success the returned count
    /// is exactly the reply byte of one acknowledged level-register read.
    pub fn read_gesture_data_level(&mut self) -> (r: Result<u8, T::Fault>)
        ensures
            final(self).same_shadows(*old(self)),
            final(self).bus_writes() == old(self).bus_writes(),
            r matches Ok(level) ==> Self::byte_read_logged(*old(self), *final(self), GFLVL, level),
            r is Err ==> final(self).bus_reads() == old(self).bus_reads(),
    {
        self.read_register(GFLVL)
    }

    /// Read whether there is valid gesture data available: one read of the
    /// gesture status register, whose reply byte's gesture-valid bit is the
    /// answer.
    pub fn is_gesture_data_valid(&mut self) -> (r: Result<bool, T::Fault>)
        ensures
            final(self).same_shadows(*old(self)),
            final(self).bus_writes() == old(self).bus_writes(),
            r is Ok ==> exists|gstatus: u8|
                #[trigger] gesture_status_logged(*old(self), *final(self), r->Ok_0, gstatus),
            r is Err ==> final(self).bus_reads() == old(self).bus_reads(),
    {
        let ghost pre = *self;
        match self.read_register(GSTATUS) {
            Ok(gstatus) => {
                let v = gesture_valid(gstatus);
                let out: Result<bool, T::Fault> = Ok(v);
                proof {
                    assert(out->Ok_0 == v);
                    assert(gesture_status_logged(pre, *self, v, gstatus));
                    assert(exists|gs: u8|
                        #[trigger] gesture_status_logged(pre, *self, out->Ok_0, gs));
                }
                out
            },
            Err(e) => Err(e),
        }
    }

    /// Read queued gesture datasets into the front of `data` without
    /// blocking.
    ///
    /// While the gesture-valid bit is clear the result is `NotReady` and
    /// `data` is untouched. Otherwise the FIFO level is read and exactly
    /// `min(data.len(), 4 * level)` bytes are burst-read into the front of
    /// `data`, every later byte keeping its old value. Truncation is silent:
    /// unread bytes stay queued on the device, so size `data` to at least
    /// four bytes per expected dataset. The data arrives as
    /// `[up, down, left, right]`, dataset by dataset. A transport fault in
    /// any transaction is surfaced as `Fault` and leaves `data` untouched.
    pub fn read_gesture_data(&mut self, data: &mut Vec<u8>) -> (r: Poll<(), T::Fault>)
        ensures
            final(self).same_shadows(*old(self)),
            final(self).bus_writes() == old(self).bus_writes(),
            final(data)@.len() == old(data)@.len(),
            !(r is Ready) ==> final(data)@ == old(data)@,
            r is Ready ==> exists|gstatus: u8, level: u8|
                #[trigger] gesture_burst_logged(
                    *old(self),
                    *final(self),
                    old(data)@,
                    final(data)@,
                    gstatus,
                    level,
                ),
            r is NotReady ==> exists|gstatus: u8|
                #[trigger] gesture_status_logged(*old(self), *final(self), false, gstatus),
            r is Fault ==> final(self).bus_reads() == old(self).bus_reads() || (exists|gstatus: u8|
                #[trigger] gesture_status_logged(*old(self), *final(self), true, gstatus)) || (
            exists|gstatus: u8, level: u8|
                #[trigger] gesture_level_logged(*old(self), *final(self), gstatus, level)),
    {
        let ghost pre = *self;
        let ghost data0 = data@;
        let ready = match self.is_gesture_data_valid() {
            Ok(b) => b,
            Err(e) => {
                return Poll::Fault(e);
            },
        };
        let ghost mid = *self;
        let ghost g = choose|gs: u8| gesture_status_logged(pre, mid, ready, gs);
        if !ready {
            proof {
                assert(gesture_status_logged(pre, *self, false, g));
            }
            return Poll::NotReady;
        }
        let level = match self.read_gesture_data_level() {
            Ok(l) => l,
            Err(e) => {
                proof {
                    assert(gesture_status_logged(pre, *self, true, g));
                }
                return Poll::Fault(e);
            },
        };
        let count = gesture_byte_count(level, data.len());
        let bytes = match self.read_data(GFIFO_U, count) {
            Ok(b) => b,
            Err(e) => {
                proof {
                    assert(gesture_level_logged(pre, *self, g, level));
                }
                return Poll::Fault(e);
            },
        };
        copy_to_front(data, &bytes);
        proof {
            assert(data@.take(count as int) =~= bytes@);
            assert(data@.skip(count as int) =~= data0.skip(count as int));
            assert(gesture_burst_logged(pre, *self, data0, data@, g, level));
        }
        Poll::Ready(())
    }

    /// Read the device identification register (`0xAB` by default): on
    /// success the returned byte is exactly the reply of one acknowledged
    /// read of that register.
    pub fn read_device_id(&mut self) -> (r: Result<u8, T::Fault>)
        ensures
            final(self).same_shadows(*old(self)),
            final(self).bus_writes() == old(self).bus_writes(),
            r matches Ok(b) ==> Self::byte_read_logged(*old(self), *final(self), ID, b),
            r is Err ==> final(self).bus_reads() == old(self).bus_reads(),
    {
        self.read_register(ID)
    }
}

} // verus!
