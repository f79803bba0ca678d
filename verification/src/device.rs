//! The device handle and the register access layer.
//!
//! The handle owns the bus transport exclusively, together with the cached
//! shadow values of the flag registers. Shadows exist because the flag
//! registers are treated as write-only on the bus: updating one field takes
//! a read-modify-write against the local copy, never a partial bus read.

use vstd::prelude::*;

use crate::flags::{spec_with_flag, with_flag};
use crate::registers::{shadow_address, ShadowRegister};
use crate::transport::{Transport, DEV_ADDR};

verus! {

/// Driver handle for the sensor.
///
/// Owns the bus transport and the shadow values of the flag registers. The
/// shadows are correct as long as every write to those registers goes
/// through this handle; after an out-of-band change (such as a device
/// reset), call [`Apds9960::resync_shadow`].
pub struct Apds9960<T: Transport> {
    transport: T,
    enable: u8,
    config1: u8,
    config2: u8,
    gconfig4: u8,
}

impl<T: Transport> Apds9960<T> {
    /// The driver's cached shadow value for the flag register `reg`.
    pub closed spec fn shadow(self, reg: ShadowRegister) -> u8 {
        match reg {
            ShadowRegister::Enable => self.enable,
            ShadowRegister::Config1 => self.config1,
            ShadowRegister::Config2 => self.config2,
            ShadowRegister::GConfig4 => self.gconfig4,
        }
    }

    /// The acknowledged write transactions the driver's transport has
    /// carried: device address and payload, oldest first.
    pub closed spec fn bus_writes(self) -> Seq<(u8, Seq<u8>)> {
        self.transport.bus_writes()
    }

    /// The acknowledged write-then-read transactions the driver's transport
    /// has carried: device address, written bytes, reply bytes, oldest
    /// first.
    pub closed spec fn bus_reads(self) -> Seq<(u8, Seq<u8>, Seq<u8>)> {
        self.transport.bus_reads()
    }

    /// The effect of one plain register write on the transaction logs: on
    /// success exactly one write of `payload` to the device was acknowledged;
    /// on a fault nothing was; no read transaction happens either way.
    pub open spec fn write_logged(pre: Self, post: Self, payload: Seq<u8>, ok: bool) -> bool {
        &&& ok ==> post.bus_writes() == pre.bus_writes().push((DEV_ADDR, payload))
        &&& !ok ==> post.bus_writes() == pre.bus_writes()
        &&& post.bus_reads() == pre.bus_reads()
    }

    /// One single-byte register read was acknowledged: the read log grew by
    /// exactly the request `[register]` with the one-byte reply `[reply]`.
    pub open spec fn byte_read_logged(pre: Self, post: Self, register: u8, reply: u8) -> bool {
        post.bus_reads() == pre.bus_reads().push((DEV_ADDR, seq![register], seq![reply]))
    }

    /// True when the two driver states cache the same shadow values.
    pub open spec fn same_shadows(self, other: Self) -> bool {
        forall|reg: ShadowRegister| #![trigger self.shadow(reg)] self.shadow(reg) == other.shadow(
            reg,
        )
    }

    /// The caller-visible effect of one flag update. On success the
    /// addressed shadow holds the read-modify-written value and exactly that
    /// value was acknowledged in one bus write to the register's address; on
    /// failure the shadow is unchanged and nothing was acknowledged. Every
    /// other shadow is unchanged either way, and no read transaction
    /// happens.
    pub open spec fn flag_applied(
        pre: Self,
        post: Self,
        reg: ShadowRegister,
        flag: u8,
        value: bool,
        ok: bool,
    ) -> bool {
        &&& ok ==> post.shadow(reg) == spec_with_flag(pre.shadow(reg), flag, value)
        &&& !ok ==> post.shadow(reg) == pre.shadow(reg)
        &&& Self::write_logged(
            pre,
            post,
            seq![
                crate::registers::spec_shadow_address(reg),
                spec_with_flag(pre.shadow(reg), flag, value),
            ],
            ok,
        )
        &&& forall|other: ShadowRegister|
            other != reg ==> #[trigger] post.shadow(other) == pre.shadow(other)
    }

    /// Create a driver for the device behind `transport`.
    ///
    /// Every shadow starts at the register's power-on value of zero, and the
    /// transaction logs are the given transport's.
    pub fn new(transport: T) -> (d: Self)
        ensures
            forall|reg: ShadowRegister| #[trigger] d.shadow(reg) == 0,
            d.bus_writes() == transport.bus_writes(),
            d.bus_reads() == transport.bus_reads(),
    {
        Apds9960 { transport, enable: 0, config1: 0, config2: 0, gconfig4: 0 }
    }

    fn shadow_value(&self, reg: ShadowRegister) -> (r: u8)
        ensures
            r == self.shadow(reg),
    {
        match reg {
            ShadowRegister::Enable => self.enable,
            ShadowRegister::Config1 => self.config1,
            ShadowRegister::Config2 => self.config2,
            ShadowRegister::GConfig4 => self.gconfig4,
        }
    }

    fn set_shadow_value(&mut self, reg: ShadowRegister, value: u8)
        ensures
            final(self).shadow(reg) == value,
            final(self).bus_writes() == old(self).bus_writes(),
            final(self).bus_reads() == old(self).bus_reads(),
            forall|other: ShadowRegister|
                other != reg ==> #[trigger] final(self).shadow(other) == old(self).shadow(other),
    {
        match reg {
            ShadowRegister::Enable => self.enable = value,
            ShadowRegister::Config1 => self.config1 = value,
            ShadowRegister::Config2 => self.config2 = value,
            ShadowRegister::GConfig4 => self.gconfig4 = value,
        }
    }

    /// Write one byte to one register address.
    ///
    /// On success exactly one bus write of `[address, value]` was
    /// acknowledged. A transport fault is surfaced immediately, without
    /// retries, and nothing was acknowledged.
    pub fn write_register(&mut self, address: u8, value: u8) -> (r: Result<(), T::Fault>)
        ensures
            Self::write_logged(*old(self), *final(self), seq![address, value], r is Ok),
            final(self).same_shadows(*old(self)),
    {
        let bytes: Vec<u8> = vec![address, value];
        self.transport.bus_write(DEV_ADDR, &bytes)
    }

    /// Write a 16-bit value as two consecutive register bytes, low byte
    /// first, starting at `start_register`: on success exactly one bus write
    /// of `[start_register, low byte, high byte]` was acknowledged.
    pub fn write_double_register(&mut self, start_register: u8, value: u16) -> (r: Result<
        (),
        T::Fault,
    >)
        ensures
            Self::write_logged(
                *old(self),
                *final(self),
                seq![start_register, (value % 256) as u8, (value / 256) as u8],
                r is Ok,
            ),
            final(self).same_shadows(*old(self)),
    {
        let bytes = wide_register_bytes(start_register, value);
        self.transport.bus_write(DEV_ADDR, &bytes)
    }

    /// Write zero payload bytes to `address`, triggering the register's
    /// side-effecting action rather than storing a value: on success exactly
    /// one bus write of `[address]` alone was acknowledged.
    pub fn touch_register(&mut self, address: u8) -> (r: Result<(), T::Fault>)
        ensures
            Self::write_logged(*old(self), *final(self), seq![address], r is Ok),
            final(self).same_shadows(*old(self)),
    {
        let bytes: Vec<u8> = vec![address];
        proof {
            assert(bytes@ =~= seq![address]);
        }
        self.transport.bus_write(DEV_ADDR, &bytes)
    }

    /// Read `count` bytes starting at `register` in one combined
    /// write-then-read bus transaction: on success the reply holds exactly
    /// `count` bytes and that one transaction, request `[register]`, is
    /// acknowledged; on a fault nothing is. No bus write happens either way.
    pub fn read_data(&mut self, register: u8, count: usize) -> (r: Result<Vec<u8>, T::Fault>)
        ensures
            final(self).same_shadows(*old(self)),
            final(self).bus_writes() == old(self).bus_writes(),
            r matches Ok(data) ==> data@.len() == count && final(self).bus_reads() == old(self)
                .bus_reads().push((DEV_ADDR, seq![register], data@)),
            r is Err ==> final(self).bus_reads() == old(self).bus_reads(),
    {
        let bytes: Vec<u8> = vec![register];
        proof {
            assert(bytes@ =~= seq![register]);
        }
        self.transport.bus_write_read(DEV_ADDR, &bytes, count)
    }

    /// Read one byte from `register`: on success the returned byte is
    /// exactly the one-byte reply of one acknowledged read transaction; on a
    /// fault nothing is acknowledged. No bus write happens either way.
    pub fn read_register(&mut self, register: u8) -> (r: Result<u8, T::Fault>)
        ensures
            final(self).same_shadows(*old(self)),
            final(self).bus_writes() == old(self).bus_writes(),
            r matches Ok(b) ==> Self::byte_read_logged(*old(self), *final(self), register, b),
            r is Err ==> final(self).bus_reads() == old(self).bus_reads(),
    {
        match self.read_data(register, 1) {
            Ok(data) => {
                proof {
                    assert(data@ =~= seq![data@[0]]);
                }
                Ok(data[0])
            },
            Err(e) => Err(e),
        }
    }

    /// Write a raw payload to the device in one bus transaction.
    pub(crate) fn bus_write_bytes(&mut self, bytes: &Vec<u8>) -> (r: Result<(), T::Fault>)
        ensures
            Self::write_logged(*old(self), *final(self), bytes@, r is Ok),
            final(self).same_shadows(*old(self)),
    {
        self.transport.bus_write(DEV_ADDR, bytes)
    }

    /// Write `value` to the flag register `reg` without touching the shadow.
    pub(crate) fn config_register(&mut self, reg: ShadowRegister, value: u8) -> (r: Result<
        (),
        T::Fault,
    >)
        ensures
            Self::write_logged(
                *old(self),
                *final(self),
                seq![crate::registers::spec_shadow_address(reg), value],
                r is Ok,
            ),
            final(self).same_shadows(*old(self)),
    {
        let address = shadow_address(reg);
        self.write_register(address, value)
    }

    /// Set or clear one flag field of a shadowed register.
    ///
    /// Read-modify-write against the cached shadow: the new value is
    /// computed locally, written over the bus, and only on success stored
    /// back into the shadow. A failing write leaves the shadow at its
    /// pre-call value, and no other shadow is ever touched.
    pub fn apply_flag(&mut self, reg: ShadowRegister, flag: u8, value: bool) -> (r: Result<
        (),
        T::Fault,
    >)
        ensures
            Self::flag_applied(*old(self), *final(self), reg, flag, value, r is Ok),
    {
        let current = self.shadow_value(reg);
        let new = with_flag(current, flag, value);
        match self.config_register(reg, new) {
            Ok(()) => {
                self.set_shadow_value(reg, new);
                Ok(())
            },
            Err(e) => Err(e),
        }
    }

    /// Re-read the flag register `reg` from the device and reset its shadow
    /// to the byte the device answered, recovering from an out-of-band
    /// register change. On success the returned byte is both the new shadow
    /// value and the reply of one acknowledged read of the register's
    /// address; on a fault every shadow is unchanged and nothing was read.
    /// No bus write happens either way.
    pub fn resync_shadow(&mut self, reg: ShadowRegister) -> (r: Result<u8, T::Fault>)
        ensures
            final(self).bus_writes() == old(self).bus_writes(),
            r matches Ok(v) ==> final(self).shadow(reg) == v && Self::byte_read_logged(
                *old(self),
                *final(self),
                crate::registers::spec_shadow_address(reg),
                v,
            ),
            r is Err ==> final(self).shadow(reg) == old(self).shadow(reg) && final(self).bus_reads()
                == old(self).bus_reads(),
            forall|other: ShadowRegister|
                other != reg ==> #[trigger] final(self).shadow(other) == old(self).shadow(other),
    {
        let address = shadow_address(reg);
        match self.read_register(address) {
            Ok(v) => {
                self.set_shadow_value(reg, v);
                Ok(v)
            },
            Err(e) => Err(e),
        }
    }
}

/// The bus payload of a 16-bit register write: the start address, then the
/// low byte of the value, then the high byte (the device's little-endian
/// register pairing).
pub fn wide_register_bytes(start_register: u8, value: u16) -> (bytes: Vec<u8>)
    ensures
        bytes@ == seq![start_register, (value % 256) as u8, (value / 256) as u8],
{
    let low: u8 = (value % 256) as u8;
    let high: u8 = (value / 256) as u8;
    let bytes: Vec<u8> = vec![start_register, low, high];
    bytes
}

} // verus!
