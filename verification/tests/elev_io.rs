use elev_driver::elev_io::{
    button_light_addr, button_signal_addr, floor_sensor_addr, init_commands, motor_dir_commands,
    Button, ElevIo, Light, MotorDir, Signal, DOOR_LIGHT_ADDR, FLOOR_DISPLAY_BIT0_ADDR,
    FLOOR_DISPLAY_BIT1_ADDR, MOTOR_ADDR, MOTOR_DIR_ADDR, MOTOR_SPEED, N_FLOORS, STOP_LIGHT_ADDR,
    STOP_SENSOR_ADDR, TOP,
};
use elev_driver::err::ElevError;
use elev_driver::hw_io::{Command, HwIo};

fn fresh_adapter() -> ElevIo {
    ElevIo::new(HwIo::new()).expect("adapter initialization failed")
}

#[test]
fn test_elev_io_init() {
    if let Err(err) = ElevIo::new(HwIo::new()) {
        println!("{:?}", err);
    }
}

#[test]
fn init_establishes_known_state() {
    let elev = fresh_adapter();
    for addr in [
        0x309, 0x308, 0x306, 0x307, 0x305, 0x304, 0x313, 0x312, 0x311, 0x310,
        STOP_LIGHT_ADDR, DOOR_LIGHT_ADDR, FLOOR_DISPLAY_BIT1_ADDR, FLOOR_DISPLAY_BIT0_ADDR,
    ] {
        assert_eq!(elev.port().read_bit(addr).unwrap(), 0);
    }
}

#[test]
fn open_failure_is_passed_through() {
    let r = ElevIo::new(Err(ElevError::ConfigurationFailure));
    assert!(matches!(r, Err(ElevError::ConfigurationFailure)));
}

#[test]
fn closed_device_aborts_initialization() {
    let r = ElevIo::new(Ok(HwIo::closed()));
    assert!(matches!(r, Err(ElevError::IoFailure(0x309))));
}

#[test]
fn floor_light_displays_binary_encoding() {
    for floor in 0..N_FLOORS {
        let mut elev = fresh_adapter();
        elev.set_floor_light(floor).unwrap();
        let bit1 = elev.port().read_bit(FLOOR_DISPLAY_BIT1_ADDR).unwrap();
        let bit0 = elev.port().read_bit(FLOOR_DISPLAY_BIT0_ADDR).unwrap();
        assert_eq!(2 * bit1 + bit0, floor);
    }
}

#[test]
fn floor_light_rejects_missing_floor() {
    let mut elev = fresh_adapter();
    assert_eq!(elev.set_floor_light(N_FLOORS), Err(ElevError::InvalidInput));
}

#[test]
fn top_call_up_is_rejected_without_port_access() {
    let mut elev = fresh_adapter();
    assert_eq!(
        elev.set_button_light(Button::CallUp(TOP), Light::On),
        Err(ElevError::InvalidInput)
    );
    assert_eq!(
        elev.get_button_signal(Button::CallUp(TOP)),
        Err(ElevError::InvalidInput)
    );
}

#[test]
fn ground_call_down_is_rejected_without_port_access() {
    let mut elev = fresh_adapter();
    assert_eq!(
        elev.set_button_light(Button::CallDown(0), Light::On),
        Err(ElevError::InvalidInput)
    );
    assert_eq!(
        elev.get_button_signal(Button::CallDown(0)),
        Err(ElevError::InvalidInput)
    );
}

#[test]
fn internal_button_accepted_on_every_floor() {
    let mut elev = fresh_adapter();
    for floor in 0..N_FLOORS {
        assert!(elev.set_button_light(Button::Internal(floor), Light::On).is_ok());
        assert!(elev.get_button_signal(Button::Internal(floor)).is_ok());
    }
}

#[test]
fn light_and_signal_channel_of_a_button_differ() {
    let mut buttons = Vec::new();
    for floor in 0..N_FLOORS {
        if floor != TOP {
            buttons.push(Button::CallUp(floor));
        }
        if floor != 0 {
            buttons.push(Button::CallDown(floor));
        }
        buttons.push(Button::Internal(floor));
    }
    for b in buttons {
        assert_ne!(button_light_addr(b).unwrap(), button_signal_addr(b).unwrap());
    }
}

#[test]
fn call_tables_never_alias_across_floors() {
    for f1 in 0..TOP {
        for f2 in 0..TOP {
            assert_ne!(
                button_light_addr(Button::CallUp(f1)).unwrap(),
                button_signal_addr(Button::CallUp(f2)).unwrap()
            );
            assert_ne!(
                button_light_addr(Button::CallDown(f1 + 1)).unwrap(),
                button_signal_addr(Button::CallDown(f2 + 1)).unwrap()
            );
        }
    }
}

#[test]
fn button_light_drives_its_wired_channel() {
    let mut elev = fresh_adapter();
    elev.set_button_light(Button::CallUp(0), Light::On).unwrap();
    assert_eq!(elev.port().read_bit(0x309).unwrap(), 1);
    elev.set_button_light(Button::CallUp(0), Light::Off).unwrap();
    assert_eq!(elev.port().read_bit(0x309).unwrap(), 0);
    elev.set_button_light(Button::Internal(3), Light::On).unwrap();
    assert_eq!(elev.port().read_bit(0x310).unwrap(), 1);
}

#[test]
fn motor_commands_follow_the_wiring_asymmetry() {
    let mut elev = fresh_adapter();
    elev.set_motor_dir(MotorDir::Down).unwrap();
    assert_eq!(elev.port().read_bit(MOTOR_DIR_ADDR).unwrap(), 0);
    assert_eq!(elev.port().read_analog(MOTOR_ADDR).unwrap(), MOTOR_SPEED);
    elev.set_motor_dir(MotorDir::Stop).unwrap();
    assert_eq!(elev.port().read_bit(MOTOR_DIR_ADDR).unwrap(), 1);
    assert_eq!(elev.port().read_analog(MOTOR_ADDR).unwrap(), MOTOR_SPEED);
    elev.set_motor_dir(MotorDir::Up).unwrap();
    assert_eq!(elev.port().read_analog(MOTOR_ADDR).unwrap(), 0);
}

#[test]
fn motor_plans_match_the_adapter() {
    assert_eq!(
        motor_dir_commands(MotorDir::Up),
        vec![Command::WriteAnalog(MOTOR_ADDR, 0)]
    );
    assert_eq!(
        motor_dir_commands(MotorDir::Down),
        vec![
            Command::ClearBit(MOTOR_DIR_ADDR),
            Command::WriteAnalog(MOTOR_ADDR, MOTOR_SPEED)
        ]
    );
    assert_eq!(
        motor_dir_commands(MotorDir::Stop),
        vec![
            Command::SetBit(MOTOR_DIR_ADDR),
            Command::WriteAnalog(MOTOR_ADDR, MOTOR_SPEED)
        ]
    );
}

#[test]
fn init_plan_clears_every_light_and_the_display() {
    let plan = init_commands();
    let expected = vec![
        Command::ClearBit(0x309),
        Command::ClearBit(0x313),
        Command::ClearBit(0x308),
        Command::ClearBit(0x307),
        Command::ClearBit(0x312),
        Command::ClearBit(0x306),
        Command::ClearBit(0x305),
        Command::ClearBit(0x311),
        Command::ClearBit(0x304),
        Command::ClearBit(0x310),
        Command::ClearBit(STOP_LIGHT_ADDR),
        Command::ClearBit(DOOR_LIGHT_ADDR),
        Command::ClearBit(FLOOR_DISPLAY_BIT1_ADDR),
        Command::ClearBit(FLOOR_DISPLAY_BIT0_ADDR),
    ];
    assert_eq!(plan, expected);
}

#[test]
fn set_all_light_turns_every_light_on() {
    let mut elev = fresh_adapter();
    elev.set_all_light(Light::On).unwrap();
    for addr in [
        0x309, 0x308, 0x306, 0x307, 0x305, 0x304, 0x313, 0x312, 0x311, 0x310,
        STOP_LIGHT_ADDR, DOOR_LIGHT_ADDR,
    ] {
        assert_eq!(elev.port().read_bit(addr).unwrap(), 1);
    }
    assert_eq!(elev.port().read_bit(FLOOR_DISPLAY_BIT1_ADDR).unwrap(), 0);
}

#[test]
fn signal_thresholds_raw_values() {
    assert_eq!(Signal::new(0), Signal::Low);
    assert_eq!(Signal::new(1), Signal::High);
    assert_eq!(Signal::new(42), Signal::High);
}

#[test]
fn sensors_read_their_wired_channels() {
    let mut io = HwIo::new().unwrap();
    io.set_bit(0x206).unwrap();
    io.set_bit(STOP_SENSOR_ADDR).unwrap();
    let elev = ElevIo::new(Ok(io)).unwrap();
    assert_eq!(elev.get_floor_signal(2), Ok(Signal::High));
    assert_eq!(elev.get_floor_signal(0), Ok(Signal::Low));
    assert_eq!(elev.get_floor_signal(N_FLOORS), Err(ElevError::InvalidInput));
    assert_eq!(elev.get_stop_signal(), Ok(Signal::High));
    assert_eq!(elev.get_obstr_signal(), Ok(Signal::Low));
    assert_eq!(floor_sensor_addr(2), Ok(0x206));
}
