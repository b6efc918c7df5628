use dac_x0501::{
    finish_write, AlarmStatus, Dac, Dac60501, Dac70501, Dac80501, DacError, DacState, GainState,
    InternRefState, PowerState, RefDivState, TransportError,
};

#[test]
fn new_controller_has_zero_frame_and_reset_state() {
    let dac = Dac80501::new();
    assert_eq!(dac.frame(), [0, 0, 0]);
    assert_eq!(dac.state(), DacState::default());
    let dac = Dac70501::new();
    assert_eq!(dac.frame(), [0, 0, 0]);
    assert_eq!(dac.state(), DacState::default());
    let dac = Dac60501::new();
    assert_eq!(dac.frame(), [0, 0, 0]);
    assert_eq!(dac.state(), DacState::default());
}

#[test]
fn sixteen_bit_full_scale_is_accepted() {
    let mut dac = Dac80501::new();
    assert_eq!(dac.set_output_level(0xFFFF), Ok([0x08, 0xFF, 0xFF]));
    assert_eq!(dac.frame(), [0x08, 0xFF, 0xFF]);
}

#[test]
fn fourteen_bit_rejects_bit_fourteen() {
    let mut dac = Dac70501::new();
    assert_eq!(dac.set_output_level(0x4000), Err(DacError::ValueOverflow));
    assert_eq!(dac.frame(), [0, 0, 0]);
    assert_eq!(dac.state(), DacState::default());
}

#[test]
fn fourteen_bit_limits() {
    let mut dac = Dac70501::new();
    assert_eq!(dac.set_output_level(0x3FFF), Ok([0x08, 0x3F, 0xFF]));
    assert_eq!(dac.set_output_level(0x4000), Err(DacError::ValueOverflow));
    assert_eq!(dac.frame(), [0x08, 0x3F, 0xFF]);
}

#[test]
fn twelve_bit_limits() {
    let mut dac = Dac60501::new();
    assert_eq!(dac.set_output_level(0x0FFF), Ok([0x08, 0x0F, 0xFF]));
    assert_eq!(dac.set_output_level(0x1000), Err(DacError::ValueOverflow));
}

#[test]
fn a_high_bit_above_the_first_excess_bit_is_rejected_too() {
    let mut dac = Dac70501::new();
    assert_eq!(dac.set_output_level(0x8000), Err(DacError::ValueOverflow));
    assert_eq!(dac.set_output_level(0xBFFF), Err(DacError::ValueOverflow));
    assert_eq!(dac.set_output_level(0xFFFF), Err(DacError::ValueOverflow));
    let mut dac = Dac60501::new();
    assert_eq!(dac.set_output_level(0x2000), Err(DacError::ValueOverflow));
    assert_eq!(dac.set_output_level(0x4000), Err(DacError::ValueOverflow));
    assert_eq!(dac.set_output_level(0x8000), Err(DacError::ValueOverflow));
    assert_eq!(dac.set_output_level(0xEFFF), Err(DacError::ValueOverflow));
}

#[test]
fn level_is_sent_high_byte_first() {
    let mut dac = Dac80501::new();
    assert_eq!(dac.set_output_level(0x1234), Ok([0x08, 0x12, 0x34]));
    assert_eq!(dac.set_output_level(0x00FF), Ok([0x08, 0x00, 0xFF]));
    assert_eq!(dac.set_output_level(0x0100), Ok([0x08, 0x01, 0x00]));
    assert_eq!(dac.set_output_level(0), Ok([0x08, 0x00, 0x00]));
}

fn expect_for_all_levels<const BITS: u32>(limit: u32) {
    let mut dac = Dac::<BITS>::new();
    for level in 0..=u16::MAX {
        let [high, low] = level.to_be_bytes();
        let fits = u32::from(level) < limit;
        let expected = if fits { Ok([0x08, high, low]) } else { Err(DacError::ValueOverflow) };
        assert_eq!(Dac::<BITS>::accepts(level), fits);
        assert_eq!(dac.set_output_level(level), expected);
    }
}

#[test]
fn overflow_exactly_from_two_to_the_width() {
    expect_for_all_levels::<16>(1 << 16);
    expect_for_all_levels::<14>(1 << 14);
    expect_for_all_levels::<12>(1 << 12);
}

#[test]
fn other_widths_follow_the_same_rule() {
    expect_for_all_levels::<0>(1);
    expect_for_all_levels::<1>(2);
    expect_for_all_levels::<15>(1 << 15);
    expect_for_all_levels::<17>(1 << 16);
    expect_for_all_levels::<32>(1 << 16);
    expect_for_all_levels::<4000000000>(1 << 16);
}

#[test]
fn unchecked_level_is_never_refused() {
    let mut dac = Dac60501::new();
    assert_eq!(dac.set_output_level_unchecked(0x0FFF), [0x08, 0x0F, 0xFF]);
    assert_eq!(dac.set_output_level_unchecked(0x1000), [0x08, 0x10, 0x00]);
    assert_eq!(dac.set_output_level_unchecked(0xFFFF), [0x08, 0xFF, 0xFF]);
    assert_eq!(dac.frame(), [0x08, 0xFF, 0xFF]);
    let mut dac = Dac70501::new();
    for level in 0..=u16::MAX {
        let [high, low] = level.to_be_bytes();
        assert_eq!(dac.set_output_level_unchecked(level), [0x08, high, low]);
    }
}

#[test]
fn level_writes_leave_the_configuration_alone() {
    let mut dac = Dac70501::new();
    dac.set_power_state(PowerState::Off);
    dac.set_output_gain(GainState::OneX);
    let before = dac.state();
    assert_eq!(dac.set_output_level(0x0123), Ok([0x08, 0x01, 0x23]));
    assert_eq!(dac.state(), before);
    assert_eq!(dac.set_output_level(0xF000), Err(DacError::ValueOverflow));
    assert_eq!(dac.state(), before);
    dac.set_output_level_unchecked(0xF000);
    assert_eq!(dac.state(), before);
}

#[test]
fn power_off_then_reference_disable_sends_both_flags() {
    let mut dac = Dac80501::new();
    assert_eq!(dac.set_power_state(PowerState::Off), [0x03, 0, 1]);
    assert_eq!(dac.set_internal_reference(InternRefState::Disable), [0x03, 1, 1]);
    assert_eq!(dac.frame(), [0x03, 1, 1]);
}

#[test]
fn reference_disable_then_power_off_sends_both_flags() {
    let mut dac = Dac60501::new();
    assert_eq!(dac.set_internal_reference(InternRefState::Disable), [0x03, 1, 0]);
    assert_eq!(dac.set_power_state(PowerState::Off), [0x03, 1, 1]);
    assert_eq!(dac.set_internal_reference(InternRefState::Enable), [0x03, 0, 1]);
    assert_eq!(dac.set_power_state(PowerState::On), [0x03, 0, 0]);
}

#[test]
fn gain_register_frames_carry_both_flags() {
    let mut dac = Dac70501::new();
    assert_eq!(dac.set_reference_divider(RefDivState::Half), [0x04, 1, 1]);
    assert_eq!(dac.set_output_gain(GainState::OneX), [0x04, 1, 0]);
    assert_eq!(dac.set_reference_divider(RefDivState::OneX), [0x04, 0, 0]);
    assert_eq!(dac.set_output_gain(GainState::TwoX), [0x04, 0, 1]);
    assert_eq!(dac.frame(), [0x04, 0, 1]);
}

#[test]
fn setting_the_value_already_held_still_sends_the_frame() {
    let mut dac = Dac80501::new();
    assert_eq!(dac.set_power_state(PowerState::On), [0x03, 0, 0]);
    assert_eq!(dac.set_internal_reference(InternRefState::Enable), [0x03, 0, 0]);
    assert_eq!(dac.set_reference_divider(RefDivState::OneX), [0x04, 0, 1]);
    assert_eq!(dac.set_output_gain(GainState::TwoX), [0x04, 0, 1]);
    assert_eq!(dac.state(), DacState::default());
}

#[test]
fn config_and_gain_settings_do_not_touch_each_other() {
    let mut dac = Dac80501::new();
    dac.set_power_state(PowerState::Off);
    dac.set_reference_divider(RefDivState::Half);
    let state = dac.state();
    assert_eq!(state.config.dac_pwdwn, PowerState::Off);
    assert_eq!(state.config.ref_pwdwn, InternRefState::Enable);
    assert_eq!(state.gain.ref_div, RefDivState::Half);
    assert_eq!(state.gain.buff_gain, GainState::TwoX);
}

#[test]
fn every_state_is_reachable() {
    for intern_ref in [InternRefState::Enable, InternRefState::Disable] {
        for power in [PowerState::On, PowerState::Off] {
            for ref_div in [RefDivState::OneX, RefDivState::Half] {
                for gain in [GainState::OneX, GainState::TwoX] {
                    let mut dac = Dac60501::new();
                    dac.set_internal_reference(intern_ref);
                    dac.set_power_state(power);
                    dac.set_reference_divider(ref_div);
                    dac.set_output_gain(gain);
                    let state = dac.state();
                    assert_eq!(state.config.ref_pwdwn, intern_ref);
                    assert_eq!(state.config.dac_pwdwn, power);
                    assert_eq!(state.gain.ref_div, ref_div);
                    assert_eq!(state.gain.buff_gain, gain);
                }
            }
        }
    }
}

#[test]
fn a_failed_write_does_not_roll_the_state_back() {
    let mut dac = Dac80501::new();
    let frame = dac.set_power_state(PowerState::Off);
    assert_eq!(frame, [0x03, 0, 1]);
    assert_eq!(finish_write(Err(TransportError)), Err(DacError::SpiError));
    assert_eq!(dac.state().config.dac_pwdwn, PowerState::Off);
    assert_eq!(dac.set_internal_reference(InternRefState::Disable), [0x03, 1, 1]);
}

#[test]
fn finished_write_reports_the_transport_outcome() {
    assert_eq!(finish_write(Ok(())), Ok(()));
    assert_eq!(finish_write(Err(TransportError)), Err(DacError::SpiError));
}

#[test]
fn status_request_frame() {
    let mut dac = Dac80501::new();
    dac.set_output_level_unchecked(0xABCD);
    assert_eq!(dac.ref_alarm_request(), [0x07, 0, 0]);
    assert_eq!(dac.frame(), [0x07, 0, 0]);
}

#[test]
fn alarm_follows_the_third_byte_of_the_response() {
    let mut dac = Dac70501::new();
    dac.ref_alarm_request();
    assert_eq!(dac.ref_alarm_status(Ok([0x07, 0, 1])), Ok(AlarmStatus::High));
    assert_eq!(dac.ref_alarm_status(Ok([0x07, 0, 0])), Ok(AlarmStatus::Low));
    assert_eq!(dac.ref_alarm_status(Ok([0x07, 0, 2])), Ok(AlarmStatus::Low));
    assert_eq!(dac.ref_alarm_status(Ok([0x07, 0, 255])), Ok(AlarmStatus::Low));
    assert_eq!(dac.ref_alarm_status(Ok([1, 1, 0])), Ok(AlarmStatus::Low));
    assert_eq!(dac.ref_alarm_status(Ok([0, 0, 1])), Ok(AlarmStatus::High));
    assert_eq!(dac.ref_alarm_status(Ok([0xFF, 0xFF, 1])), Ok(AlarmStatus::High));
    for byte in 0..=255u8 {
        let expected = if byte == 1 { AlarmStatus::High } else { AlarmStatus::Low };
        assert_eq!(dac.ref_alarm_status(Ok([0x07, 0, byte])), Ok(expected));
    }
}

#[test]
fn status_response_replaces_the_frame_buffer() {
    let mut dac = Dac60501::new();
    dac.ref_alarm_request();
    assert_eq!(dac.ref_alarm_status(Ok([0xAA, 0xBB, 0x01])), Ok(AlarmStatus::High));
    assert_eq!(dac.frame(), [0xAA, 0xBB, 0x01]);
}

#[test]
fn failed_status_read_is_an_spi_error() {
    let mut dac = Dac80501::new();
    dac.set_reference_divider(RefDivState::Half);
    let state = dac.state();
    let request = dac.ref_alarm_request();
    assert_eq!(dac.ref_alarm_status(Err(TransportError)), Err(DacError::SpiError));
    assert_eq!(dac.frame(), request);
    assert_eq!(dac.state(), state);
}

#[test]
fn status_read_leaves_the_configuration_alone() {
    let mut dac = Dac80501::new();
    dac.set_power_state(PowerState::Off);
    let state = dac.state();
    dac.ref_alarm_request();
    assert_eq!(dac.state(), state);
    assert_eq!(dac.ref_alarm_status(Ok([0, 0, 1])), Ok(AlarmStatus::High));
    assert_eq!(dac.state(), state);
    assert_eq!(dac.set_internal_reference(InternRefState::Disable), [0x03, 1, 1]);
}
