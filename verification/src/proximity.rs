//! Proximity sensing: engine control, thresholds, offsets, interrupts, and
//! the non-blocking proximity read.

use vstd::prelude::*;

use crate::device::Apds9960;
use crate::registers::{
    ShadowRegister, CONFIG2_PSIEN, ENABLE_PEN, ENABLE_PIEN, PDATA, PERS, PICLEAR, PIHT, PILT,
    POFFSET_DL, POFFSET_UR, STATUS, STATUS_PINT, STATUS_PVALID,
};
use crate::transport::{Poll, Transport, DEV_ADDR};

verus! {

/// Whether a status byte has the proximity-valid readiness bit set.
pub open spec fn spec_proximity_valid(status: u8) -> bool {
    status & STATUS_PVALID != 0
}

/// Whether a status byte reports an active proximity interrupt.
pub open spec fn spec_proximity_interrupt(status: u8) -> bool {
    status & STATUS_PINT != 0
}

/// The persistence register byte after its high nibble is replaced by
/// `triggers`: the low nibble of the read-back value is kept, the high
/// nibble holds the trigger count.
pub open spec fn spec_persistence_byte(initial: u8, triggers: u8) -> u8 {
    (initial & 0b0000_1111) | ((triggers << 4) & 0b1111_0000)
}

/// The fault-free outcome of one proximity poll, as a function of the bytes
/// the device answered: not ready whenever the proximity-valid bit of the
/// status byte is clear, and the payload byte whenever it is set.
pub open spec fn spec_proximity_poll<F>(status: u8, payload: u8) -> Poll<u8, F> {
    if spec_proximity_valid(status) {
        Poll::Ready(payload)
    } else {
        Poll::NotReady
    }
}

/// The two's-complement byte a signed photodiode offset is sent as.
pub open spec fn spec_offset_byte(offset: i8) -> u8 {
    if offset >= 0 {
        offset as u8
    } else {
        (offset + 256) as u8
    }
}

/// Encode a signed photodiode offset as its two's-complement byte.
pub fn offset_byte(offset: i8) -> (r: u8)
    ensures
        r == spec_offset_byte(offset),
{
    if offset >= 0 {
        offset as u8
    } else {
        ((offset as i16) + 256) as u8
    }
}

/// One acknowledged read of the status register whose reply byte `status`
/// answers the proximity readiness question `v`.
pub open spec fn proximity_status_logged<T: Transport>(
    pre: Apds9960<T>,
    post: Apds9960<T>,
    v: bool,
    status: u8,
) -> bool {
    &&& Apds9960::<T>::byte_read_logged(pre, post, STATUS, status)
    &&& v == spec_proximity_valid(status)
}

/// One acknowledged read of the status register whose reply byte `status`
/// answers the proximity interrupt question `v`.
pub open spec fn proximity_int_logged<T: Transport>(
    pre: Apds9960<T>,
    post: Apds9960<T>,
    v: bool,
    status: u8,
) -> bool {
    &&& Apds9960::<T>::byte_read_logged(pre, post, STATUS, status)
    &&& v == spec_proximity_interrupt(status)
}

/// One acknowledged read of the persistence register answering `initial`,
/// followed by one acknowledged write of the byte with its high nibble
/// replaced by `triggers`.
pub open spec fn persistence_logged<T: Transport>(
    pre: Apds9960<T>,
    post: Apds9960<T>,
    triggers: u8,
    initial: u8,
) -> bool {
    &&& post.bus_reads() == pre.bus_reads().push((DEV_ADDR, seq![PERS], seq![initial]))
    &&& post.bus_writes() == pre.bus_writes().push(
        (DEV_ADDR, seq![PERS, spec_persistence_byte(initial, triggers)]),
    )
}

/// The fault-free outcome of one proximity poll, against the transaction
/// log: the status register was read answering `status`; when its
/// proximity-valid bit is clear that is the only transaction and the
/// outcome is not-ready; when it is set the payload register was read
/// answering `payload`, which the outcome carries verbatim.
pub open spec fn proximity_poll_logged<T: Transport>(
    pre: Apds9960<T>,
    post: Apds9960<T>,
    r: Poll<u8, T::Fault>,
    status: u8,
    payload: u8,
) -> bool {
    &&& r == spec_proximity_poll::<T::Fault>(status, payload)
    &&& if spec_proximity_valid(status) {
        post.bus_reads() == pre.bus_reads().push((DEV_ADDR, seq![STATUS], seq![status])).push(
            (DEV_ADDR, seq![PDATA], seq![payload]),
        )
    } else {
        post.bus_reads() == pre.bus_reads().push((DEV_ADDR, seq![STATUS], seq![status]))
    }
}

/// For every status byte, the proximity poll outcome is `NotReady` exactly
/// when the proximity-valid bit is zero, and carries the payload byte
/// exactly when the bit is one.
pub proof fn lemma_proximity_poll_complete(status: u8, payload: u8)
    ensures
        !spec_proximity_valid(status) <==> spec_proximity_poll::<()>(status, payload)
            is NotReady,
        spec_proximity_valid(status) <==> spec_proximity_poll::<()>(status, payload) == Poll::<
            u8,
            (),
        >::Ready(payload),
{
}

/// Test the proximity-valid readiness bit of a status byte.
pub fn proximity_valid(status: u8) -> (r: bool)
    ensures
        r == spec_proximity_valid(status),
{
    status & STATUS_PVALID != 0
}

/// Test the proximity-interrupt bit of a status byte.
pub fn proximity_interrupt(status: u8) -> (r: bool)
    ensures
        r == spec_proximity_interrupt(status),
{
    status & STATUS_PINT != 0
}

impl<T: Transport> Apds9960<T> {
    /// Enable proximity detection.
    pub fn enable_proximity(&mut self) -> (r: Result<(), T::Fault>)
        ensures
            Self::flag_applied(
                *old(self),
                *final(self),
                ShadowRegister::Enable,
                ENABLE_PEN,
                true,
                r is Ok,
            ),
    {
        self.apply_flag(ShadowRegister::Enable, ENABLE_PEN, true)
    }

    /// Disable proximity detection.
    pub fn disable_proximity(&mut self) -> (r: Result<(), T::Fault>)
        ensures
            Self::flag_applied(
                *old(self),
                *final(self),
                ShadowRegister::Enable,
                ENABLE_PEN,
                false,
                r is Ok,
            ),
    {
        self.apply_flag(ShadowRegister::Enable, ENABLE_PEN, false)
    }

    /// Enable proximity interrupt generation.
    pub fn enable_proximity_interrupts(&mut self) -> (r: Result<(), T::Fault>)
        ensures
            Self::flag_applied(
                *old(self),
                *final(self),
                ShadowRegister::Enable,
                ENABLE_PIEN,
                true,
                r is Ok,
            ),
    {
        self.apply_flag(ShadowRegister::Enable, ENABLE_PIEN, true)
    }

    /// Disable proximity interrupt generation.
    pub fn disable_proximity_interrupts(&mut self) -> (r: Result<(), T::Fault>)
        ensures
            Self::flag_applied(
                *old(self),
                *final(self),
                ShadowRegister::Enable,
                ENABLE_PIEN,
                false,
                r is Ok,
            ),
    {
        self.apply_flag(ShadowRegister::Enable, ENABLE_PIEN, false)
    }

    /// Enable proximity saturation interrupt generation.
    pub fn enable_proximity_saturation_interrupts(&mut self) -> (r: Result<(), T::Fault>)
        ensures
            Self::flag_applied(
                *old(self),
                *final(self),
                ShadowRegister::Config2,
                CONFIG2_PSIEN,
                true,
                r is Ok,
            ),
    {
        self.apply_flag(ShadowRegister::Config2, CONFIG2_PSIEN, true)
    }

    /// Disable proximity saturation interrupt generation.
    pub fn disable_proximity_saturation_interrupts(&mut self) -> (r: Result<(), T::Fault>)
        ensures
            Self::flag_applied(
                *old(self),
                *final(self),
                ShadowRegister::Config2,
                CONFIG2_PSIEN,
                false,
                r is Ok,
            ),
    {
        self.apply_flag(ShadowRegister::Config2, CONFIG2_PSIEN, false)
    }

    /// Set the proximity interrupt low threshold.
    pub fn set_proximity_low_threshold(&mut self, threshold: u8) -> (r: Result<(), T::Fault>)
        ensures
            Self::write_logged(*old(self), *final(self), seq![PILT, threshold], r is Ok),
            final(self).same_shadows(*old(self)),
    {
        self.write_register(PILT, threshold)
    }

    /// Set the proximity interrupt high threshold.
    pub fn set_proximity_high_threshold(&mut self, threshold: u8) -> (r: Result<(), T::Fault>)
        ensures
            Self::write_logged(*old(self), *final(self), seq![PIHT, threshold], r is Ok),
            final(self).same_shadows(*old(self)),
    {
        self.write_register(PIHT, threshold)
    }

    /// Set the number of times the value must fall out of range for an
    /// interrupt to trigger: the persistence register is read back, its low
    /// nibble kept, and its high nibble replaced by `triggers`; the combined
    /// byte is written back. On a fault the write log never grows and at
    /// most the read-back is acknowledged.
    pub fn set_proximity_persistence_filter(&mut self, triggers: u8) -> (r: Result<(), T::Fault>)
        ensures
            final(self).same_shadows(*old(self)),
            r is Ok ==> exists|initial: u8|
                #[trigger] persistence_logged(*old(self), *final(self), triggers, initial),
            r is Err ==> final(self).bus_writes() == old(self).bus_writes() && (final(self)
                .bus_reads() == old(self).bus_reads() || exists|initial: u8|
                Self::byte_read_logged(*old(self), *final(self), PERS, initial)),
    {
        let ghost pre = *self;
        let initial = match self.read_register(PERS) {
            Ok(b) => b,
            Err(e) => {
                return Err(e);
            },
        };
        let r = self.write_register(PERS, persistence_byte(initial, triggers));
        proof {
            if r is Ok {
                assert(persistence_logged(pre, *self, triggers, initial));
            } else {
                assert(Self::byte_read_logged(pre, *self, PERS, initial));
            }
        }
        r
    }

    /// Check whether a proximity interrupt has occurred: one status-register
    /// read, whose reply byte's interrupt bit is the answer.
    pub fn get_proximity_interupt(&mut self) -> (r: Result<bool, T::Fault>)
        ensures
            final(self).same_shadows(*old(self)),
            final(self).bus_writes() == old(self).bus_writes(),
            r is Ok ==> exists|status: u8|
                #[trigger] proximity_int_logged(*old(self), *final(self), r->Ok_0, status),
            r is Err ==> final(self).bus_reads() == old(self).bus_reads(),
    {
        let ghost pre = *self;
        match self.read_register(STATUS) {
            Ok(status) => {
                let v = proximity_interrupt(status);
                let out: Result<bool, T::Fault> = Ok(v);
                proof {
                    assert(out->Ok_0 == v);
                    assert(proximity_int_logged(pre, *self, v, status));
                    assert(exists|st: u8|
                        #[trigger] proximity_int_logged(pre, *self, out->Ok_0, st));
                }
                out
            },
            Err(e) => Err(e),
        }
    }

    /// Set the proximity up/right photodiode offset, sent as its
    /// two's-complement byte.
    pub fn set_proximity_up_right_offset(&mut self, offset: i8) -> (r: Result<(), T::Fault>)
        ensures
            Self::write_logged(
                *old(self),
                *final(self),
                seq![POFFSET_UR, spec_offset_byte(offset)],
                r is Ok,
            ),
            final(self).same_shadows(*old(self)),
    {
        self.write_register(POFFSET_UR, offset_byte(offset))
    }

    /// Set the proximity down/left photodiode offset, sent as its
    /// two's-complement byte.
    pub fn set_proximity_down_left_offset(&mut self, offset: i8) -> (r: Result<(), T::Fault>)
        ensures
            Self::write_logged(
                *old(self),
                *final(self),
                seq![POFFSET_DL, spec_offset_byte(offset)],
                r is Ok,
            ),
            final(self).same_shadows(*old(self)),
    {
        self.write_register(POFFSET_DL, offset_byte(offset))
    }

    /// Set both photodiode offsets in one bus transaction, starting at the
    /// up/right offset register, each sent as its two's-complement byte.
    pub fn set_proximity_offsets(&mut self, offset_up_right: i8, offset_down_left: i8) -> (r:
        Result<(), T::Fault>)
        ensures
            Self::write_logged(
                *old(self),
                *final(self),
                seq![
                    POFFSET_UR,
                    spec_offset_byte(offset_up_right),
                    spec_offset_byte(offset_down_left),
                ],
                r is Ok,
            ),
            final(self).same_shadows(*old(self)),
    {
        let bytes: Vec<u8> = vec![
            POFFSET_UR,
            offset_byte(offset_up_right),
            offset_byte(offset_down_left),
        ];
        proof {
            assert(bytes@ =~= seq![
                POFFSET_UR,
                spec_offset_byte(offset_up_right),
                spec_offset_byte(offset_down_left),
            ]);
        }
        self.bus_write_bytes(&bytes)
    }

    /// Clear the proximity interrupt.
    pub fn clear_proximity_interrupt(&mut self) -> (r: Result<(), T::Fault>)
        ensures
            Self::write_logged(*old(self), *final(self), seq![PICLEAR], r is Ok),
            final(self).same_shadows(*old(self)),
    {
        self.touch_register(PICLEAR)
    }

    /// Read the proximity sensor data without blocking.
    ///
    /// Checks the proximity-valid status bit first: while it is clear the
    /// result is `NotReady` and no payload register is touched. Once it is
    /// set, the payload byte is read in a second, separate bus transaction
    /// and returned verbatim (readiness may flip between the two; that race
    /// belongs to the device). A transport fault in either transaction is
    /// surfaced as `Fault`, never as `NotReady`. The shadows are never
    /// touched, and nothing is ever written.
    pub fn read_proximity(&mut self) -> (r: Poll<u8, T::Fault>)
        ensures
            final(self).same_shadows(*old(self)),
            final(self).bus_writes() == old(self).bus_writes(),
            !(r is Fault) ==> exists|status: u8, payload: u8|
                #[trigger] proximity_poll_logged(*old(self), *final(self), r, status, payload),
            r is Fault ==> final(self).bus_reads() == old(self).bus_reads() || exists|status: u8|
                #[trigger] proximity_status_logged(*old(self), *final(self), true, status),
    {
        let ghost pre = *self;
        let ready = match self.is_proximity_data_valid() {
            Ok(b) => b,
            Err(e) => {
                return Poll::Fault(e);
            },
        };
        let ghost mid = *self;
        let ghost s = choose|status: u8| proximity_status_logged(pre, mid, ready, status);
        if !ready {
            proof {
                assert(proximity_poll_logged(pre, *self, Poll::<u8, T::Fault>::NotReady, s, 0));
            }
            return Poll::NotReady;
        }
        match self.read_register(PDATA) {
            Ok(byte) => {
                proof {
                    assert(proximity_poll_logged(
                        pre,
                        *self,
                        Poll::<u8, T::Fault>::Ready(byte),
                        s,
                        byte,
                    ));
                }
                Poll::Ready(byte)
            },
            Err(e) => {
                proof {
                    assert(proximity_status_logged(pre, *self, true, s));
                }
                Poll::Fault(e)
            },
        }
    }

    /// Read whether the proximity sensor data is valid: one status-register
    /// read, whose reply byte's proximity-valid bit is the answer. Pure
    /// query, safe to call repeatedly; checked internally by
    /// [`Apds9960::read_proximity`] as well.
    pub fn is_proximity_data_valid(&mut self) -> (r: Result<bool, T::Fault>)
        ensures
            final(self).same_shadows(*old(self)),
            final(self).bus_writes() == old(self).bus_writes(),
            r is Ok ==> exists|status: u8|
                #[trigger] proximity_status_logged(*old(self), *final(self), r->Ok_0, status),
            r is Err ==> final(self).bus_reads() == old(self).bus_reads(),
    {
        let ghost pre = *self;
        match self.read_register(STATUS) {
            Ok(status) => {
                let v = proximity_valid(status);
                let out: Result<bool, T::Fault> = Ok(v);
                proof {
                    assert(out->Ok_0 == v);
                    assert(proximity_status_logged(pre, *self, v, status));
                    assert(exists|st: u8|
                        #[trigger] proximity_status_logged(pre, *self, out->Ok_0, st));
                }
                out
            },
            Err(e) => Err(e),
        }
    }
}

/// Compute the persistence register byte: keep the low nibble of the
/// read-back value, replace the high nibble with the trigger count.
pub fn persistence_byte(initial: u8, triggers: u8) -> (r: u8)
    ensures
        r == spec_persistence_byte(initial, triggers),
{
    (initial & 0b0000_1111) | ((triggers << 4) & 0b1111_0000)
}

} // verus!
