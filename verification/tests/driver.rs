//! Driver behavior against a scripted mock bus transport.

use std::cell::RefCell;
use std::rc::Rc;

use apds9960::registers;
use apds9960::{Apds9960, Poll, ShadowRegister, Transport, DEV_ADDR};

#[derive(Debug, PartialEq, Eq, Clone, Copy)]
struct MockFault;

#[derive(Default)]
struct MockState {
    /// Every `bus_write` payload, with its device address.
    writes: Vec<(u8, Vec<u8>)>,
    /// Every `bus_write_read` request: device address, written bytes, read length.
    reads: Vec<(u8, Vec<u8>, usize)>,
    /// Queued replies for `bus_write_read`, front first; padded or truncated
    /// to the requested length so the transport honors its contract.
    replies: Vec<Vec<u8>>,
    fail_writes: bool,
    fail_reads: bool,
}

#[derive(Clone)]
struct MockBus {
    state: Rc<RefCell<MockState>>,
}

impl MockBus {
    fn new() -> MockBus {
        MockBus { state: Rc::new(RefCell::new(MockState::default())) }
    }

    fn push_reply(&self, reply: &[u8]) {
        self.state.borrow_mut().replies.push(reply.to_vec());
    }

    fn writes(&self) -> Vec<(u8, Vec<u8>)> {
        self.state.borrow().writes.clone()
    }

    fn reads(&self) -> Vec<(u8, Vec<u8>, usize)> {
        self.state.borrow().reads.clone()
    }

    fn set_fail_writes(&self, fail: bool) {
        self.state.borrow_mut().fail_writes = fail;
    }

    fn set_fail_reads(&self, fail: bool) {
        self.state.borrow_mut().fail_reads = fail;
    }
}

impl Transport for MockBus {
    type Fault = MockFault;

    fn bus_write(&mut self, device_address: u8, bytes: &Vec<u8>) -> Result<(), MockFault> {
        let mut state = self.state.borrow_mut();
        if state.fail_writes {
            return Err(MockFault);
        }
        state.writes.push((device_address, bytes.clone()));
        Ok(())
    }

    fn bus_write_read(
        &mut self,
        device_address: u8,
        bytes: &Vec<u8>,
        read_len: usize,
    ) -> Result<Vec<u8>, MockFault> {
        let mut state = self.state.borrow_mut();
        if state.fail_reads {
            return Err(MockFault);
        }
        state.reads.push((device_address, bytes.clone(), read_len));
        let mut reply = if state.replies.is_empty() {
            Vec::new()
        } else {
            state.replies.remove(0)
        };
        reply.resize(read_len, 0);
        Ok(reply)
    }
}

fn driver() -> (MockBus, Apds9960<MockBus>) {
    let bus = MockBus::new();
    let dev = Apds9960::new(bus.clone());
    (bus, dev)
}

#[test]
fn wide_register_bytes_low_then_high() {
    let bytes = apds9960::wide_register_bytes(0x83, 0x1234);
    assert_eq!(bytes, vec![0x83, 0x34, 0x12]);
}

#[test]
fn write_double_register_emits_low_byte_first() {
    let (bus, mut dev) = driver();
    assert_eq!(dev.write_double_register(0x83, 0x1234), Ok(()));
    assert_eq!(bus.writes(), vec![(DEV_ADDR, vec![0x83, 0x34, 0x12])]);
}

#[test]
fn enable_writes_power_on_bit() {
    let (bus, mut dev) = driver();
    assert_eq!(dev.enable(), Ok(()));
    assert_eq!(bus.writes(), vec![(DEV_ADDR, vec![registers::ENABLE, 0b0000_0001])]);
}

#[test]
fn flag_sequence_keeps_earlier_fields() {
    let (bus, mut dev) = driver();
    assert_eq!(dev.enable(), Ok(()));
    assert_eq!(dev.enable_proximity(), Ok(()));
    assert_eq!(dev.enable_wait(), Ok(()));
    assert_eq!(
        bus.writes(),
        vec![
            (DEV_ADDR, vec![registers::ENABLE, 0b0000_0001]),
            (DEV_ADDR, vec![registers::ENABLE, 0b0000_0101]),
            (DEV_ADDR, vec![registers::ENABLE, 0b0000_1101]),
        ]
    );
}

#[test]
fn clearing_one_flag_keeps_the_others() {
    let (bus, mut dev) = driver();
    assert_eq!(dev.enable(), Ok(()));
    assert_eq!(dev.enable_proximity(), Ok(()));
    assert_eq!(dev.disable_proximity(), Ok(()));
    let writes = bus.writes();
    assert_eq!(writes[2], (DEV_ADDR, vec![registers::ENABLE, 0b0000_0001]));
}

#[test]
fn disable_clears_every_enable_field() {
    let (bus, mut dev) = driver();
    assert_eq!(dev.enable(), Ok(()));
    assert_eq!(dev.enable_proximity_interrupts(), Ok(()));
    assert_eq!(dev.disable(), Ok(()));
    let writes = bus.writes();
    assert_eq!(writes[2], (DEV_ADDR, vec![registers::ENABLE, 0b0000_0000]));
}

#[test]
fn wait_long_uses_first_config_register() {
    let (bus, mut dev) = driver();
    assert_eq!(dev.enable_wait_long(), Ok(()));
    assert_eq!(dev.disable_wait_long(), Ok(()));
    assert_eq!(
        bus.writes(),
        vec![
            (DEV_ADDR, vec![registers::CONFIG1, 0b0000_0010]),
            (DEV_ADDR, vec![registers::CONFIG1, 0b0000_0000]),
        ]
    );
}

#[test]
fn saturation_interrupts_use_second_config_register() {
    let (bus, mut dev) = driver();
    assert_eq!(dev.enable_proximity_saturation_interrupts(), Ok(()));
    assert_eq!(bus.writes(), vec![(DEV_ADDR, vec![registers::CONFIG2, 0b1000_0000])]);
}

#[test]
fn failed_flag_write_keeps_shadow_unchanged() {
    let (bus, mut dev) = driver();
    assert_eq!(dev.enable(), Ok(()));
    bus.set_fail_writes(true);
    assert_eq!(dev.enable_proximity(), Err(MockFault));
    bus.set_fail_writes(false);
    // The next update still sees only the power-on bit in the shadow.
    assert_eq!(dev.enable_wait(), Ok(()));
    let writes = bus.writes();
    assert_eq!(writes.len(), 2);
    assert_eq!(writes[1], (DEV_ADDR, vec![registers::ENABLE, 0b0000_1001]));
}

#[test]
fn apply_flag_failure_then_success_applies_cleanly() {
    let (bus, mut dev) = driver();
    bus.set_fail_writes(true);
    assert_eq!(dev.apply_flag(ShadowRegister::Enable, 0b0100_0000, true), Err(MockFault));
    bus.set_fail_writes(false);
    assert_eq!(dev.apply_flag(ShadowRegister::Enable, 0b0100_0000, true), Ok(()));
    assert_eq!(bus.writes(), vec![(DEV_ADDR, vec![registers::ENABLE, 0b0100_0000])]);
}

#[test]
fn set_wait_time_writes_the_value() {
    let (bus, mut dev) = driver();
    assert_eq!(dev.set_wait_time(0xF6), Ok(()));
    assert_eq!(bus.writes(), vec![(DEV_ADDR, vec![registers::WTIME, 0xF6])]);
}

#[test]
fn interrupt_actions_touch_their_registers() {
    let (bus, mut dev) = driver();
    assert_eq!(dev.force_interrupt(), Ok(()));
    assert_eq!(dev.clear_interrupts(), Ok(()));
    assert_eq!(dev.clear_proximity_interrupt(), Ok(()));
    assert_eq!(
        bus.writes(),
        vec![
            (DEV_ADDR, vec![registers::IFORCE]),
            (DEV_ADDR, vec![registers::AICLEAR]),
            (DEV_ADDR, vec![registers::PICLEAR]),
        ]
    );
}

#[test]
fn thresholds_write_their_registers() {
    let (bus, mut dev) = driver();
    assert_eq!(dev.set_proximity_low_threshold(0x11), Ok(()));
    assert_eq!(dev.set_proximity_high_threshold(0x77), Ok(()));
    assert_eq!(
        bus.writes(),
        vec![
            (DEV_ADDR, vec![registers::PILT, 0x11]),
            (DEV_ADDR, vec![registers::PIHT, 0x77]),
        ]
    );
}

#[test]
fn persistence_filter_keeps_low_nibble() {
    let (bus, mut dev) = driver();
    bus.push_reply(&[0b1010_0101]);
    assert_eq!(dev.set_proximity_persistence_filter(0b0000_0011), Ok(()));
    assert_eq!(bus.reads(), vec![(DEV_ADDR, vec![registers::PERS], 1)]);
    assert_eq!(bus.writes(), vec![(DEV_ADDR, vec![registers::PERS, 0b0011_0101])]);
}

#[test]
fn persistence_byte_exact_value() {
    assert_eq!(apds9960::persistence_byte(0b1010_0101, 0b0000_0011), 0b0011_0101);
    assert_eq!(apds9960::persistence_byte(0xFF, 0xFF), 0xFF);
    assert_eq!(apds9960::persistence_byte(0x0F, 0x00), 0x0F);
}

#[test]
fn offsets_write_their_registers() {
    let (bus, mut dev) = driver();
    assert_eq!(dev.set_proximity_up_right_offset(1), Ok(()));
    assert_eq!(dev.set_proximity_down_left_offset(-1), Ok(()));
    assert_eq!(
        bus.writes(),
        vec![
            (DEV_ADDR, vec![registers::POFFSET_UR, 0x01]),
            (DEV_ADDR, vec![registers::POFFSET_DL, 0xFF]),
        ]
    );
}

#[test]
fn paired_offsets_use_one_transaction() {
    let (bus, mut dev) = driver();
    assert_eq!(dev.set_proximity_offsets(-128, 127), Ok(()));
    assert_eq!(bus.writes(), vec![(DEV_ADDR, vec![registers::POFFSET_UR, 0x80, 0x7F])]);
}

#[test]
fn proximity_interrupt_flag_reads_status() {
    let (bus, mut dev) = driver();
    bus.push_reply(&[0b0010_0000]);
    assert_eq!(dev.get_proximity_interupt(), Ok(true));
    bus.push_reply(&[0b0000_0000]);
    assert_eq!(dev.get_proximity_interupt(), Ok(false));
    assert_eq!(
        bus.reads(),
        vec![
            (DEV_ADDR, vec![registers::STATUS], 1),
            (DEV_ADDR, vec![registers::STATUS], 1),
        ]
    );
}

#[test]
fn proximity_ready_bit_five_set() {
    let (bus, mut dev) = driver();
    bus.push_reply(&[0b0010_0000]);
    assert_eq!(dev.is_proximity_data_valid(), Ok(true));
}

#[test]
fn proximity_ready_bit_five_clear() {
    let (bus, mut dev) = driver();
    bus.push_reply(&[0b0000_0000]);
    assert_eq!(dev.is_proximity_data_valid(), Ok(false));
}

#[test]
fn proximity_valid_over_sampled_status_bytes() {
    for status in 0..=255u8 {
        assert_eq!(apds9960::proximity_valid(status), status & 0b0010_0000 != 0);
    }
}

#[test]
fn read_proximity_not_ready_skips_payload_read() {
    let (bus, mut dev) = driver();
    bus.push_reply(&[0b0000_0000]);
    assert_eq!(dev.read_proximity(), Poll::NotReady);
    // Only the status register was read; the payload register was not touched.
    assert_eq!(bus.reads(), vec![(DEV_ADDR, vec![registers::STATUS], 1)]);
}

#[test]
fn read_proximity_ready_returns_payload() {
    let (bus, mut dev) = driver();
    bus.push_reply(&[0b0010_0000]);
    bus.push_reply(&[0x42]);
    assert_eq!(dev.read_proximity(), Poll::Ready(0x42));
    assert_eq!(
        bus.reads(),
        vec![
            (DEV_ADDR, vec![registers::STATUS], 1),
            (DEV_ADDR, vec![registers::PDATA], 1),
        ]
    );
}

#[test]
fn read_proximity_fault_is_not_would_block() {
    let (bus, mut dev) = driver();
    bus.set_fail_reads(true);
    assert_eq!(dev.read_proximity(), Poll::Fault(MockFault));
}

#[test]
fn gesture_status_gates_on_bit_zero() {
    let (bus, mut dev) = driver();
    bus.push_reply(&[0b0000_0001]);
    assert_eq!(dev.is_gesture_data_valid(), Ok(true));
    bus.push_reply(&[0b0000_0000]);
    assert_eq!(dev.is_gesture_data_valid(), Ok(false));
}

#[test]
fn gesture_level_reads_its_register() {
    let (bus, mut dev) = driver();
    bus.push_reply(&[5]);
    assert_eq!(dev.read_gesture_data_level(), Ok(5));
    assert_eq!(bus.reads(), vec![(DEV_ADDR, vec![registers::GFLVL], 1)]);
}

#[test]
fn gesture_byte_count_exact_values() {
    assert_eq!(apds9960::gesture_byte_count(3, 8), 8);
    assert_eq!(apds9960::gesture_byte_count(3, 16), 12);
    assert_eq!(apds9960::gesture_byte_count(0, 16), 0);
    assert_eq!(apds9960::gesture_byte_count(255, 4096), 1020);
}

#[test]
fn gesture_burst_truncates_to_capacity() {
    let (bus, mut dev) = driver();
    bus.push_reply(&[0b0000_0001]);
    bus.push_reply(&[3]);
    bus.push_reply(&[1, 2, 3, 4, 5, 6, 7, 8]);
    let mut data = vec![0xEE; 8];
    assert_eq!(dev.read_gesture_data(&mut data), Poll::Ready(()));
    assert_eq!(data, vec![1, 2, 3, 4, 5, 6, 7, 8]);
    assert_eq!(
        bus.reads(),
        vec![
            (DEV_ADDR, vec![registers::GSTATUS], 1),
            (DEV_ADDR, vec![registers::GFLVL], 1),
            (DEV_ADDR, vec![registers::GFIFO_U], 8),
        ]
    );
}

#[test]
fn gesture_burst_leaves_tail_untouched() {
    let (bus, mut dev) = driver();
    bus.push_reply(&[0b0000_0001]);
    bus.push_reply(&[3]);
    bus.push_reply(&[1, 2, 3, 4, 5, 6, 7, 8, 9, 10, 11, 12]);
    let mut data = vec![0xEE; 16];
    assert_eq!(dev.read_gesture_data(&mut data), Poll::Ready(()));
    assert_eq!(data, vec![1, 2, 3, 4, 5, 6, 7, 8, 9, 10, 11, 12, 0xEE, 0xEE, 0xEE, 0xEE]);
    assert_eq!(bus.reads()[2], (DEV_ADDR, vec![registers::GFIFO_U], 12));
}

#[test]
fn gesture_burst_not_ready_leaves_buffer_untouched() {
    let (bus, mut dev) = driver();
    bus.push_reply(&[0b0000_0000]);
    let mut data = vec![0xEE; 8];
    assert_eq!(dev.read_gesture_data(&mut data), Poll::NotReady);
    assert_eq!(data, vec![0xEE; 8]);
    assert_eq!(bus.reads(), vec![(DEV_ADDR, vec![registers::GSTATUS], 1)]);
}

#[test]
fn gesture_burst_fault_leaves_buffer_untouched() {
    let (bus, mut dev) = driver();
    bus.set_fail_reads(true);
    let mut data = vec![0xEE; 8];
    assert_eq!(dev.read_gesture_data(&mut data), Poll::Fault(MockFault));
    assert_eq!(data, vec![0xEE; 8]);
}

#[test]
fn copy_to_front_keeps_tail() {
    let mut dst = vec![9, 9, 9, 9, 9];
    apds9960::copy_to_front(&mut dst, &vec![1, 2]);
    assert_eq!(dst, vec![1, 2, 9, 9, 9]);
}

#[test]
fn offset_byte_is_twos_complement() {
    assert_eq!(apds9960::offset_byte(0), 0x00);
    assert_eq!(apds9960::offset_byte(127), 0x7F);
    assert_eq!(apds9960::offset_byte(-1), 0xFF);
    assert_eq!(apds9960::offset_byte(-128), 0x80);
}

#[test]
fn with_flag_sets_and_clears() {
    assert_eq!(apds9960::with_flag(0b0000_0001, 0b0000_0100, true), 0b0000_0101);
    assert_eq!(apds9960::with_flag(0b0000_0101, 0b0000_0100, false), 0b0000_0001);
    assert_eq!(apds9960::with_flag(0b1111_1111, 0b0111_1111, false), 0b1000_0000);
}

#[test]
fn read_device_id_reads_its_register() {
    let (bus, mut dev) = driver();
    bus.push_reply(&[0xAB]);
    assert_eq!(dev.read_device_id(), Ok(0xAB));
    assert_eq!(bus.reads(), vec![(DEV_ADDR, vec![registers::ID], 1)]);
}

#[test]
fn resync_shadow_adopts_device_value() {
    let (bus, mut dev) = driver();
    bus.push_reply(&[0b0101_0000]);
    assert_eq!(dev.resync_shadow(ShadowRegister::Enable), Ok(0b0101_0000));
    // The next flag update read-modify-writes on the resynchronized value.
    assert_eq!(dev.enable(), Ok(()));
    assert_eq!(bus.writes(), vec![(DEV_ADDR, vec![registers::ENABLE, 0b0101_0001])]);
}

#[test]
fn resync_shadow_fault_keeps_shadow() {
    let (bus, mut dev) = driver();
    assert_eq!(dev.enable(), Ok(()));
    bus.set_fail_reads(true);
    assert_eq!(dev.resync_shadow(ShadowRegister::Enable), Err(MockFault));
    bus.set_fail_reads(false);
    assert_eq!(dev.enable_wait(), Ok(()));
    assert_eq!(bus.writes()[1], (DEV_ADDR, vec![registers::ENABLE, 0b0000_1001]));
}
