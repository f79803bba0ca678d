//! Common configuration: power, the wait feature, and interrupt actions.
//!
//! Every flag update goes through the read-modify-write primitive
//! [`Apds9960::apply_flag`], so it never disturbs the other fields of the
//! register; the contracts here state the exact shadow effect of each call.

use vstd::prelude::*;

use crate::device::Apds9960;
use crate::registers::{
    ShadowRegister, CONFIG1_WLONG, ENABLE_ALL, ENABLE_PON, ENABLE_WEN, AICLEAR, IFORCE, WTIME,
};
use crate::transport::Transport;

verus! {

impl<T: Transport> Apds9960<T> {
    /// Turn power on.
    pub fn enable(&mut self) -> (r: Result<(), T::Fault>)
        ensures
            Self::flag_applied(
                *old(self),
                *final(self),
                ShadowRegister::Enable,
                ENABLE_PON,
                true,
                r is Ok,
            ),
    {
        self.apply_flag(ShadowRegister::Enable, ENABLE_PON, true)
    }

    /// Deactivate everything and put the device to sleep.
    pub fn disable(&mut self) -> (r: Result<(), T::Fault>)
        ensures
            Self::flag_applied(
                *old(self),
                *final(self),
                ShadowRegister::Enable,
                ENABLE_ALL,
                false,
                r is Ok,
            ),
    {
        self.apply_flag(ShadowRegister::Enable, ENABLE_ALL, false)
    }

    /// Enable the wait feature: a delay between sensing cycles whose duration
    /// is configured with [`Apds9960::set_wait_time`] and
    /// [`Apds9960::enable_wait_long`].
    pub fn enable_wait(&mut self) -> (r: Result<(), T::Fault>)
        ensures
            Self::flag_applied(
                *old(self),
                *final(self),
                ShadowRegister::Enable,
                ENABLE_WEN,
                true,
                r is Ok,
            ),
    {
        self.apply_flag(ShadowRegister::Enable, ENABLE_WEN, true)
    }

    /// Disable the wait feature.
    pub fn disable_wait(&mut self) -> (r: Result<(), T::Fault>)
        ensures
            Self::flag_applied(
                *old(self),
                *final(self),
                ShadowRegister::Enable,
                ENABLE_WEN,
                false,
                r is Ok,
            ),
    {
        self.apply_flag(ShadowRegister::Enable, ENABLE_WEN, false)
    }

    /// Enable long wait: the wait time is multiplied by twelve.
    ///
    /// Wait must be enabled with [`Apds9960::enable_wait`].
    pub fn enable_wait_long(&mut self) -> (r: Result<(), T::Fault>)
        ensures
            Self::flag_applied(
                *old(self),
                *final(self),
                ShadowRegister::Config1,
                CONFIG1_WLONG,
                true,
                r is Ok,
            ),
    {
        self.apply_flag(ShadowRegister::Config1, CONFIG1_WLONG, true)
    }

    /// Disable long wait.
    pub fn disable_wait_long(&mut self) -> (r: Result<(), T::Fault>)
        ensures
            Self::flag_applied(
                *old(self),
                *final(self),
                ShadowRegister::Config1,
                CONFIG1_WLONG,
                false,
                r is Ok,
            ),
    {
        self.apply_flag(ShadowRegister::Config1, CONFIG1_WLONG, false)
    }

    /// Set the waiting time between sensing cycles, as the two's complement
    /// of the number of cycles. This must be set before enabling detection,
    /// and takes effect only while wait is enabled.
    pub fn set_wait_time(&mut self, value: u8) -> (r: Result<(), T::Fault>)
        ensures
            Self::write_logged(*old(self), *final(self), seq![WTIME, value], r is Ok),
            final(self).same_shadows(*old(self)),
    {
        self.write_register(WTIME, value)
    }

    /// Force an interrupt.
    pub fn force_interrupt(&mut self) -> (r: Result<(), T::Fault>)
        ensures
            Self::write_logged(*old(self), *final(self), seq![IFORCE], r is Ok),
            final(self).same_shadows(*old(self)),
    {
        self.touch_register(IFORCE)
    }

    /// Clear all non-gesture interrupts.
    pub fn clear_interrupts(&mut self) -> (r: Result<(), T::Fault>)
        ensures
            Self::write_logged(*old(self), *final(self), seq![AICLEAR], r is Ok),
            final(self).same_shadows(*old(self)),
    {
        self.touch_register(AICLEAR)
    }
}

} // verus!
