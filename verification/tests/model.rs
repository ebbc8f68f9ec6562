//! The commands of the user, the clock, and what the card knows of its
//! channels.

use firmware_logic::clock::{clock_time, ClockTime};
use firmware_logic::controller::anchor_up_down::AnchorUpDown;
use firmware_logic::controller::lights::{Light, Lights};
use firmware_logic::controller::pumps::Pumps;
use firmware_logic::controller::ButtonsAndSwitches;
use firmware_logic::data::user_commands::UserCommands;
use firmware_logic::io::digital_input_impl::DigitalInputImpl;
use firmware_logic::io::digital_output_impl::{level_on_error, ApplyCommand, DigitalOutputImpl};
use firmware_logic::net::{is_connected, link_wait_over, tcp_socket_plan, TcpSocketStorage};
use firmware_logic::phy::{in_reset, link_up, PHY_INIT_BCR};
use firmware_logic::status::channel_index;
use firmware_logic::{
    BoardDeviceData, BoardMap, ButtonCommand, Command, Configuration, ControllerLogic,
    DeviceIdentifier, DigitalInput, DigitalOutput, FirmwareLogic, FirmwareReporting, IoCustomError,
    IoLevel, SwitchCommand, Timestamp, UserCommand, Wingman2HardwareStatus, Wingman2IOCardStatus,
    Wingman3HardwareStatus,
};
use std::cmp::Ordering;

fn output(address: usize, value_on_error: bool) -> DigitalOutput {
    DigitalOutput { address, value_on_error, bank_voltage: 24 }
}

fn command(timestamp: Option<u64>) -> UserCommand {
    UserCommand::new(Command::AnchorLight(SwitchCommand::On), timestamp.map(Timestamp::new))
}

#[test]
fn timestamps_hold_their_milliseconds() {
    assert_eq!(Timestamp::new(1234).millis(), 1234);
    assert_eq!(Timestamp::default(), Timestamp::new(0));
    assert_eq!(Timestamp::new(40) + Timestamp::new(2), Timestamp::new(42));
    assert!(Timestamp::new(1) < Timestamp::new(2));
}

#[test]
fn a_command_expires_after_the_eviction_delay() {
    let stamped = command(Some(1_000));
    assert!(stamped.is_valid(Timestamp::new(1_000)));
    assert!(stamped.is_valid(Timestamp::new(1_499)));
    assert!(stamped.is_expired(Timestamp::new(1_500)));
    assert!(stamped.is_expired(Timestamp::new(1_501)));
    assert!(!stamped.is_valid(Timestamp::new(u64::MAX)));
    assert!(stamped.is_valid(Timestamp::new(0)));
}

#[test]
fn a_command_without_stamp_is_expired() {
    assert!(command(None).is_expired(Timestamp::new(0)));
    assert!(!command(None).is_valid(Timestamp::new(0)));
}

#[test]
fn a_command_stamped_at_the_end_of_time_never_expires() {
    let late = command(Some(u64::MAX - 100));
    assert!(late.is_valid(Timestamp::new(u64::MAX)));
    assert!(!late.is_expired(Timestamp::new(u64::MAX)));
}

#[test]
fn set_timestamp_stamps_the_command() {
    let mut stamped = command(None);
    stamped.set_timestamp(Timestamp::new(77));
    assert_eq!(stamped.timestamp, Some(Timestamp::new(77)));
    assert_eq!(stamped.command, Command::AnchorLight(SwitchCommand::On));
}

#[test]
fn commands_compare_by_their_stamps() {
    assert_eq!(command(Some(5)).partial_cmp(&command(Some(7))), Some(Ordering::Less));
    assert_eq!(command(Some(7)).partial_cmp(&command(Some(7))), Some(Ordering::Equal));
    assert_eq!(command(Some(9)).partial_cmp(&command(Some(7))), Some(Ordering::Greater));
    assert_eq!(command(Some(0)).partial_cmp(&command(None)), Some(Ordering::Greater));
    assert_eq!(command(None).partial_cmp(&command(Some(0))), Some(Ordering::Less));
    assert_eq!(command(None).partial_cmp(&command(None)), None);
    assert!(command(Some(9)) > command(Some(7)));
}

#[test]
fn commands_that_ask_different_things_do_not_compare() {
    let other = UserCommand::new(Command::AnchorLight(SwitchCommand::Off), Some(Timestamp::new(1)));
    assert_eq!(command(Some(1)).partial_cmp(&other), None);
    let pump = UserCommand::new(
        Command::BilgePump(DeviceIdentifier::Device(1), SwitchCommand::On),
        Some(Timestamp::new(1)),
    );
    let all = UserCommand::new(
        Command::BilgePump(DeviceIdentifier::All, SwitchCommand::On),
        Some(Timestamp::new(2)),
    );
    assert_eq!(pump.partial_cmp(&all), None);
}

#[test]
fn device_identifiers_count_from_one() {
    assert_eq!(DeviceIdentifier::from_index(0), DeviceIdentifier::Device(1));
    assert_eq!(DeviceIdentifier::from_index(41), DeviceIdentifier::Device(42));
    assert_eq!(DeviceIdentifier::from(3usize), DeviceIdentifier::Device(3));
}

#[test]
fn board_device_data_keeps_what_it_is_given() {
    let data = BoardDeviceData::new("pumps/bilge", Some(2), output(5, true));
    assert_eq!(data.topic_name, "pumps/bilge");
    assert_eq!(data.position, Some(2));
    assert_eq!(data.device, output(5, true));
}

#[test]
fn a_card_starts_unconnected_and_unconfigured() {
    let status = Wingman2IOCardStatus::default();
    assert!(!status.is_connected_to_control_server);
    assert_eq!(status.control_server_qos, 0);
    assert_eq!(status.control_server_received_messages, 0);
    assert_eq!(status.configuration, Configuration::Unconfigured);
    assert_eq!(Configuration::default(), Configuration::Unconfigured);
}

#[test]
fn configurations_have_their_numbers() {
    assert_eq!(Configuration::Unconfigured.number(), 0);
    assert_eq!(Configuration::Prototype0.number(), 1);
    assert_eq!(Configuration::Prototype2.number(), 2);
    assert_eq!(Configuration::Spirit101.number(), 101);
    assert_eq!(Configuration::Spirit102.number(), 102);
    assert_eq!(Configuration::Spirit103.number(), 103);
    assert_eq!(Configuration::Spirit104.number(), 104);
    assert_eq!(Configuration::UnitTest.number(), 9999);
}

#[test]
fn channel_addresses_count_from_1_to_48() {
    assert_eq!(channel_index(0), None);
    assert_eq!(channel_index(1), Some(0));
    assert_eq!(channel_index(48), Some(47));
    assert_eq!(channel_index(49), None);
    assert_eq!(channel_index(usize::MAX), None);
}

#[test]
fn a_new_status_knows_nothing() {
    let status = Wingman2HardwareStatus::new(Configuration::Spirit102);
    assert_eq!(status.step, 0);
    assert_eq!(status.now, Timestamp::new(0));
    assert_eq!(status.configuration, Configuration::Spirit102);
    for address in 0..=49 {
        assert_eq!(status.get_digital_output(&output(address, false)), None);
        assert_eq!(status.get_digital_input(&DigitalInput { address }), None);
    }
    assert_eq!(Wingman2HardwareStatus::default().configuration, Configuration::Unconfigured);
    let shared = Wingman3HardwareStatus::new(Configuration::UnitTest);
    assert_eq!(shared.step, 0);
    assert_eq!(shared.configuration, Configuration::UnitTest);
    assert!(shared.digital_outputs.iter().all(|digital| digital.level.is_none()));
}

#[test]
fn advance_counts_the_steps() {
    let mut status = Wingman2HardwareStatus::new(Configuration::Unconfigured);
    status.advance(Timestamp::new(5));
    status.advance(Timestamp::new(10));
    assert_eq!(status.step, 2);
    assert_eq!(status.now, Timestamp::new(10));
}

#[test]
fn setting_an_output_changes_that_output_only() {
    let mut status = Wingman2HardwareStatus::new(Configuration::Unconfigured);
    status.set_digital_output(&output(7, false), IoLevel::High);
    for address in 1..=48 {
        let expected = if address == 7 { Some(IoLevel::High) } else { None };
        assert_eq!(status.get_digital_output(&output(address, false)), expected);
        assert_eq!(status.get_digital_input(&DigitalInput { address }), None);
    }
    status.set_digital_output(&output(0, false), IoLevel::High);
    status.set_digital_output(&output(49, false), IoLevel::High);
    assert_eq!(status.get_digital_output(&output(1, false)), None);
    assert_eq!(status.get_digital_output(&output(48, false)), None);
}

#[test]
fn inputs_are_read_from_the_status() {
    let mut status = Wingman2HardwareStatus::new(Configuration::Unconfigured);
    status.digital_inputs[2].level = Some(IoLevel::Low);
    assert_eq!(DigitalInput { address: 3 }.read(&status), Some(IoLevel::Low));
    assert_eq!(DigitalInput { address: 2 }.read(&status), None);
}

#[test]
fn writing_an_error_sets_the_level_on_error() {
    let mut status = Wingman2HardwareStatus::new(Configuration::Unconfigured);
    output(1, true).write(&mut status, Err(IoCustomError::OutOfRange));
    output(2, false).write(&mut status, Err(IoCustomError::SensorTripped));
    output(3, false).write(&mut status, Ok(IoLevel::HiZ));
    assert_eq!(output(1, true).read(&status), Some(IoLevel::High));
    assert_eq!(output(2, false).read(&status), Some(IoLevel::Low));
    assert_eq!(output(3, false).read(&status), Some(IoLevel::HiZ));
    assert_eq!(level_on_error(&output(1, true)), IoLevel::High);
    assert_eq!(level_on_error(&output(1, false)), IoLevel::Low);
}

#[test]
fn toggling_an_output_twice_gives_its_level_back() {
    let mut status = Wingman2HardwareStatus::new(Configuration::Unconfigured);
    let light = output(10, false);
    light.toggle(&mut status);
    assert_eq!(light.read(&status), None);
    light.write(&mut status, Ok(IoLevel::High));
    light.toggle(&mut status);
    assert_eq!(light.read(&status), Some(IoLevel::Low));
    light.toggle(&mut status);
    assert_eq!(light.read(&status), Some(IoLevel::High));
    light.write(&mut status, Ok(IoLevel::HiZ));
    light.toggle(&mut status);
    assert_eq!(light.read(&status), Some(IoLevel::HiZ));
}

#[test]
fn commands_are_applied_to_an_output() {
    let mut status = Wingman2HardwareStatus::new(Configuration::Unconfigured);
    let pump = output(20, false);
    pump.apply(&mut status, SwitchCommand::On);
    assert_eq!(pump.read(&status), Some(IoLevel::High));
    pump.apply(&mut status, SwitchCommand::Toggle);
    assert_eq!(pump.read(&status), Some(IoLevel::Low));
    pump.apply(&mut status, SwitchCommand::Toggle);
    assert_eq!(pump.read(&status), Some(IoLevel::High));
    pump.apply(&mut status, SwitchCommand::Off);
    assert_eq!(pump.read(&status), Some(IoLevel::Low));
    pump.apply(&mut status, ButtonCommand::On);
    assert_eq!(pump.read(&status), Some(IoLevel::High));
    pump.apply(&mut status, ButtonCommand::Off);
    assert_eq!(pump.read(&status), Some(IoLevel::Low));
}

#[test]
fn the_control_logic_changes_nothing_yet() {
    let mut status = Wingman2HardwareStatus::new(Configuration::Unconfigured);
    status.set_digital_output(&output(4, false), IoLevel::High);
    let mut commands = UserCommands::default();
    let mut reporting = FirmwareReporting::default();
    let mut logic = FirmwareLogic::default();
    logic.initialize(&mut status);
    logic.apply_user_commands(&mut commands, &mut status);
    logic.update(&mut status);
    logic.update_reporting(&mut reporting);
    let mut buttons = ButtonsAndSwitches::default();
    buttons.initialize(&mut status);
    buttons.apply_user_commands(&mut commands, &mut status);
    buttons.update(&mut status);
    let mut anchor = AnchorUpDown::default();
    anchor.update(&mut status);
    let mut lights = Lights::default();
    lights.apply_user_commands(&mut commands, &mut status);
    let mut pumps = Pumps::default();
    pumps.initialize(&mut status);
    let mut light = Light::Anchor;
    light.initialize(&mut status);
    light.force(&mut status, &SwitchCommand::On);
    light.on_apply_hook(&mut status, &SwitchCommand::On);
    assert_eq!(status.step, 0);
    for address in 1..=48 {
        let expected = if address == 4 { Some(IoLevel::High) } else { None };
        assert_eq!(status.get_digital_output(&output(address, false)), expected);
    }
}

#[test]
fn a_light_has_no_command_and_no_output_yet() {
    let board = BoardMap {
        digital_input_count: 48,
        digital_output_count: 48,
        analog_input_count: 48,
        analog_output_count: 36,
        pulse_wave_modulation_count: 0,
        anchor_up: None,
        anchor_down: None,
        anchor_light: Some(output(3, false)),
        navigation_light: None,
        courtesy_light: None,
        ambient_light: None,
        underwater_light: None,
        bilge_pumps: [None, None, None],
        black_water_pump: None,
        engine_room_lights: [None, None],
        engine_battery_port: None,
        engine_battery_stbd: None,
        bilge_pumps_running: [None, None, None],
        fresh_water_level: None,
        black_water_level: None,
    };
    for light in
        [Light::Navigation, Light::Anchor, Light::Courtesy, Light::Underwater, Light::Ambient]
    {
        assert_eq!(light.command_extractor(&command(Some(1))), None);
        assert_eq!(light.digital_output(&board), None);
    }
}

#[test]
fn the_clock_shows_hours_minutes_and_seconds() {
    assert_eq!(clock_time(Timestamp::new(0)), ClockTime { hours: 0, minutes: 0, seconds: 0 });
    assert_eq!(clock_time(Timestamp::new(999)), ClockTime { hours: 0, minutes: 0, seconds: 0 });
    assert_eq!(clock_time(Timestamp::new(59_999)), ClockTime { hours: 0, minutes: 0, seconds: 59 });
    assert_eq!(clock_time(Timestamp::new(60_000)), ClockTime { hours: 0, minutes: 1, seconds: 0 });
    assert_eq!(
        clock_time(Timestamp::new(3_723_456)),
        ClockTime { hours: 1, minutes: 2, seconds: 3 }
    );
    assert_eq!(
        clock_time(Timestamp::new(100 * 3_600_000 + 59 * 60_000 + 59_000)),
        ClockTime { hours: 100, minutes: 59, seconds: 59 }
    );
    let end = clock_time(Timestamp::new(u64::MAX));
    assert_eq!(end.hours, u64::MAX / 3_600_000);
    assert_eq!(end.hours * 3600 + end.minutes * 60 + end.seconds, u64::MAX / 1000);
}

#[test]
fn the_link_is_up_where_all_three_status_bits_are_set() {
    assert!(link_up(0x4024));
    assert!(link_up(0xFFFF));
    assert!(!link_up(0x4020));
    assert!(!link_up(0x4004));
    assert!(!link_up(0x0024));
    assert!(!link_up(0x0000));
    assert!(in_reset(0x8000));
    assert!(in_reset(0xB200));
    assert!(!in_reset(0x7FFF));
    assert_eq!(PHY_INIT_BCR, (1 << 12) | (1 << 9) | (1 << 13));
}

#[test]
fn the_card_is_connected_for_five_seconds_after_the_server_was_heard() {
    let heard = Some(Timestamp::new(10_000));
    assert!(is_connected(heard, Timestamp::new(10_000)));
    assert!(is_connected(heard, Timestamp::new(14_999)));
    assert!(!is_connected(heard, Timestamp::new(15_000)));
    assert!(!is_connected(heard, Timestamp::new(u64::MAX)));
    assert!(!is_connected(None, Timestamp::new(0)));
    assert!(is_connected(Some(Timestamp::new(u64::MAX)), Timestamp::new(u64::MAX)));
    assert!(!link_wait_over(5_000));
    assert!(link_wait_over(5_001));
}

#[test]
fn the_tcp_socket_is_listened_on_and_closed_as_its_state_asks() {
    let plan = tcp_socket_plan(false, false, false);
    assert!(plan.listen && !plan.close);
    let plan = tcp_socket_plan(true, false, true);
    assert!(!plan.listen && plan.close);
    let plan = tcp_socket_plan(true, true, true);
    assert!(!plan.listen && !plan.close);
    let plan = tcp_socket_plan(true, false, false);
    assert!(!plan.listen && !plan.close);
}

#[test]
fn socket_storage_starts_with_zeros() {
    let storage = TcpSocketStorage::new();
    assert_eq!(storage.rx_storage.len(), 4096);
    assert_eq!(storage.tx_storage.len(), 4096);
    assert!(storage.rx_storage.iter().all(|byte| *byte == 0));
    assert!(storage.tx_storage.iter().all(|byte| *byte == 0));
}
