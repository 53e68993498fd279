//! The elevator I/O adapter: translates elevator-domain entities — buttons,
//! lights, floor sensors, the motor — into port-device channel addresses,
//! validates every floor/button combination before any port access, and
//! applies the resulting bit and analog operations to a port device.
//!
//! The channel address map encodes the physical wiring of the board and must
//! stay bit-compatible with it. Lit indicators and physical switches are
//! wired to different registers, so the light-write tables and the
//! signal-read tables are independent.

use vstd::prelude::*;

use crate::err::ElevError;
use crate::hw_io::{apply_commands, Command, HwIo, PortView, N_ADDR};

verus! {

/// A floor index; valid floors are `0 .. N_FLOORS`.
pub type Floor = usize;

/// The fixed floor count of this hardware topology.
pub const N_FLOORS: usize = 4;

/// The highest floor.
pub const TOP: usize = N_FLOORS - 1;

/// The floor just below the highest.
pub const SEC_TOP: usize = N_FLOORS - 2;

/// Analog channel that takes the motor drive level.
pub const MOTOR_ADDR: usize = 0x100;

/// Digital channel that takes the motor direction polarity bit.
pub const MOTOR_DIR_ADDR: usize = 0x315;

/// Drive level commanded for the powered motor states.
pub const MOTOR_SPEED: usize = 200;

/// Digital channel holding bit 1 of the floor-position display.
pub const FLOOR_DISPLAY_BIT1_ADDR: usize = 0x300;

/// Digital channel holding bit 0 of the floor-position display.
pub const FLOOR_DISPLAY_BIT0_ADDR: usize = 0x301;

/// Digital channel of the door light.
pub const DOOR_LIGHT_ADDR: usize = 0x303;

/// Digital channel of the stop light.
pub const STOP_LIGHT_ADDR: usize = 0x314;

/// Digital channel of the emergency-stop sensor.
pub const STOP_SENSOR_ADDR: usize = 0x322;

/// Digital channel of the obstruction sensor.
pub const OBSTRUCTION_SENSOR_ADDR: usize = 0x323;

/// A call or command button. `CallUp` is absent at the top floor and
/// `CallDown` at floor 0; `Internal` exists on every floor.
#[derive(Copy, Clone, Debug, PartialEq, Eq, Structural)]
pub enum Button {
    CallUp(Floor),
    CallDown(Floor),
    Internal(Floor),
}

/// A motor command: drive up, drive down, or hold still.
#[derive(Copy, Clone, Debug, PartialEq, Eq, Structural)]
pub enum MotorDir {
    Up,
    Down,
    Stop,
}

/// The intended state of a light.
#[derive(Copy, Clone, Debug, PartialEq, Eq, Structural)]
pub enum Light {
    On,
    Off,
}

/// A sensed binary level, thresholded from a raw bit value.
#[derive(Copy, Clone, Debug, PartialEq, Eq, Structural)]
pub enum Signal {
    High,
    Low,
}

impl Signal {
    /// Thresholds a raw bit value: any non-zero reading is `High`.
    pub fn new(value: usize) -> (r: Signal)
        ensures
            r == (if value == 0 { Signal::Low } else { Signal::High }),
    {
        if value == 0 { Signal::Low } else { Signal::High }
    }
}

/// Whether the button exists on the board: no up call from the top floor,
/// no down call from floor 0, an internal button on every floor.
pub open spec fn button_valid(b: Button) -> bool {
    match b {
        Button::CallUp(f) => f <= SEC_TOP,
        Button::CallDown(f) => 1 <= f && f <= TOP,
        Button::Internal(f) => f <= TOP,
    }
}

/// The light-write channel of a valid button, straight from the wiring
/// tables.
pub open spec fn spec_button_light_addr(b: Button) -> usize {
    match b {
        Button::CallUp(f) => if f == 0 { 0x309 } else if f == 1 { 0x308 } else { 0x306 },
        Button::CallDown(f) => if f == 1 { 0x307 } else if f == 2 { 0x305 } else { 0x304 },
        Button::Internal(f) => if f == 0 { 0x313 } else if f == 1 { 0x312 } else if f == 2 { 0x311 } else { 0x310 },
    }
}

/// The signal-read channel of a valid button; a table independent of the
/// light-write one, because switch and indicator sit on different registers.
pub open spec fn spec_button_signal_addr(b: Button) -> usize {
    match b {
        Button::CallUp(f) => if f == 0 { 0x317 } else if f == 1 { 0x316 } else { 0x201 },
        Button::CallDown(f) => if f == 1 { 0x200 } else if f == 2 { 0x202 } else { 0x203 },
        Button::Internal(f) => if f == 0 { 0x312 } else if f == 1 { 0x320 } else if f == 2 { 0x319 } else { 0x318 },
    }
}

/// The floor-sensor channel of a valid floor.
pub open spec fn spec_floor_sensor_addr(f: Floor) -> usize {
    if f == 0 { 0x204 } else if f == 1 { 0x205 } else if f == 2 { 0x206 } else { 0x207 }
}

/// Resolves a button to its light-write channel, or rejects a combination
/// that the board does not wire.
pub fn button_light_addr(button: Button) -> (r: Result<usize, ElevError>)
    ensures
        button_valid(button) ==> r == Ok::<usize, ElevError>(spec_button_light_addr(button)),
        !button_valid(button) ==> r == Err::<usize, ElevError>(ElevError::InvalidInput),
{
    match button {
        Button::CallUp(f) => {
            if f <= SEC_TOP {
                Ok(if f == 0 { 0x309 } else if f == 1 { 0x308 } else { 0x306 })
            } else {
                Err(ElevError::InvalidInput)
            }
        },
        Button::CallDown(f) => {
            if 1 <= f && f <= TOP {
                Ok(if f == 1 { 0x307 } else if f == 2 { 0x305 } else { 0x304 })
            } else {
                Err(ElevError::InvalidInput)
            }
        },
        Button::Internal(f) => {
            if f <= TOP {
                Ok(if f == 0 { 0x313 } else if f == 1 { 0x312 } else if f == 2 { 0x311 } else { 0x310 })
            } else {
                Err(ElevError::InvalidInput)
            }
        },
    }
}

/// Resolves a button to its signal-read channel, or rejects a combination
/// that the board does not wire.
pub fn button_signal_addr(button: Button) -> (r: Result<usize, ElevError>)
    ensures
        button_valid(button) ==> r == Ok::<usize, ElevError>(spec_button_signal_addr(button)),
        !button_valid(button) ==> r == Err::<usize, ElevError>(ElevError::InvalidInput),
{
    match button {
        Button::CallUp(f) => {
            if f <= SEC_TOP {
                Ok(if f == 0 { 0x317 } else if f == 1 { 0x316 } else { 0x201 })
            } else {
                Err(ElevError::InvalidInput)
            }
        },
        Button::CallDown(f) => {
            if 1 <= f && f <= TOP {
                Ok(if f == 1 { 0x200 } else if f == 2 { 0x202 } else { 0x203 })
            } else {
                Err(ElevError::InvalidInput)
            }
        },
        Button::Internal(f) => {
            if f <= TOP {
                Ok(if f == 0 { 0x312 } else if f == 1 { 0x320 } else if f == 2 { 0x319 } else { 0x318 })
            } else {
                Err(ElevError::InvalidInput)
            }
        },
    }
}

/// Resolves a floor to its floor-sensor channel, or rejects a floor the
/// board does not have.
pub fn floor_sensor_addr(floor: Floor) -> (r: Result<usize, ElevError>)
    ensures
        floor <= TOP ==> r == Ok::<usize, ElevError>(spec_floor_sensor_addr(floor)),
        floor > TOP ==> r == Err::<usize, ElevError>(ElevError::InvalidInput),
{
    if floor <= TOP {
        Ok(if floor == 0 { 0x204 } else if floor == 1 { 0x205 } else if floor == 2 { 0x206 } else { 0x207 })
    } else {
        Err(ElevError::InvalidInput)
    }
}

/// Internal buttons are wired on every floor: both the light write and the
/// signal read accept `Internal(f)` for every floor of the board.
pub proof fn lemma_internal_always_valid(f: Floor)
    requires
        f < N_FLOORS,
    ensures
        button_valid(Button::Internal(f)),
{
}

/// The indicator and the switch of any one wired button sit on different
/// channels: a light write never touches the register its own signal is
/// read from.
pub proof fn lemma_light_signal_channels_differ(b: Button)
    requires
        button_valid(b),
    ensures
        spec_button_light_addr(b) != spec_button_signal_addr(b),
{
}

/// For the call categories the two tables are disjoint as wholes: no
/// light-write channel of any up call coincides with the signal-read
/// channel of any up call, and likewise for down calls.
pub proof fn lemma_call_tables_disjoint(b1: Button, b2: Button)
    requires
        button_valid(b1),
        button_valid(b2),
        (b1 is CallUp && b2 is CallUp) || (b1 is CallDown && b2 is CallDown),
    ensures
        spec_button_light_addr(b1) != spec_button_signal_addr(b2),
{
}

/// Whether `ch` is the light-write channel of some button on the board.
pub open spec fn button_light_channel(ch: int) -> bool {
    ch == 0x309 || ch == 0x308 || ch == 0x306
    || ch == 0x307 || ch == 0x305 || ch == 0x304
    || ch == 0x313 || ch == 0x312 || ch == 0x311 || ch == 0x310
}

/// Whether `ch` is touched by a sweep over every light: every button light,
/// plus the stop light and the door light.
pub open spec fn all_light_channel(ch: int) -> bool {
    button_light_channel(ch) || ch == STOP_LIGHT_ADDR as int || ch == DOOR_LIGHT_ADDR as int
}

/// Whether `ch` is cleared by adapter initialization: every light, plus the
/// two floor-display channels (driven to the encoding of floor 0).
pub open spec fn init_cleared_channel(ch: int) -> bool {
    all_light_channel(ch) || ch == FLOOR_DISPLAY_BIT1_ADDR as int || ch == FLOOR_DISPLAY_BIT0_ADDR as int
}

/// The button-light channels belonging to floor `f`: its up call where one
/// exists, its down call where one exists, and its internal button.
pub open spec fn floor_light_channel(f: Floor, ch: int) -> bool {
    (f <= SEC_TOP && ch == spec_button_light_addr(Button::CallUp(f)) as int)
    || (1 <= f && f <= TOP && ch == spec_button_light_addr(Button::CallDown(f)) as int)
    || (f <= TOP && ch == spec_button_light_addr(Button::Internal(f)) as int)
}

/// The button-light channels belonging to floors below `k`.
pub open spec fn light_channel_below(k: nat, ch: int) -> bool
    decreases k,
{
    if k == 0 {
        false
    } else {
        light_channel_below((k - 1) as nat, ch) || floor_light_channel((k - 1) as usize, ch)
    }
}

/// Sweeping every floor covers exactly the button-light channels.
proof fn lemma_light_channel_below_all(ch: int)
    ensures
        light_channel_below(N_FLOORS as nat, ch) == button_light_channel(ch),
{
    reveal_with_fuel(light_channel_below, 5);
}

/// The value shown on the floor-position display: two bits, binary-encoded.
pub open spec fn displayed_floor(v: PortView) -> int {
    (if v.bits[FLOOR_DISPLAY_BIT1_ADDR as int] { 2int } else { 0int })
    + (if v.bits[FLOOR_DISPLAY_BIT0_ADDR as int] { 1int } else { 0int })
}

/// The port commands that drive the motor: `Up` writes a zero drive level;
/// `Down` and `Stop` both write the nonzero drive level and differ only in
/// the polarity bit, as the hardware is wired.
pub open spec fn spec_motor_dir_commands(dir: MotorDir) -> Seq<Command> {
    match dir {
        MotorDir::Up => seq![Command::WriteAnalog(MOTOR_ADDR, 0usize)],
        MotorDir::Down => seq![
            Command::ClearBit(MOTOR_DIR_ADDR),
            Command::WriteAnalog(MOTOR_ADDR, MOTOR_SPEED),
        ],
        MotorDir::Stop => seq![
            Command::SetBit(MOTOR_DIR_ADDR),
            Command::WriteAnalog(MOTOR_ADDR, MOTOR_SPEED),
        ],
    }
}

/// Plans the port commands for a motor direction, for an executor that
/// drives the real device.
pub fn motor_dir_commands(dir: MotorDir) -> (r: Vec<Command>)
    ensures
        r@ == spec_motor_dir_commands(dir),
{
    let mut r: Vec<Command> = Vec::new();
    match dir {
        MotorDir::Up => {
            r.push(Command::WriteAnalog(MOTOR_ADDR, 0));
        },
        MotorDir::Down => {
            r.push(Command::ClearBit(MOTOR_DIR_ADDR));
            r.push(Command::WriteAnalog(MOTOR_ADDR, MOTOR_SPEED));
        },
        MotorDir::Stop => {
            r.push(Command::SetBit(MOTOR_DIR_ADDR));
            r.push(Command::WriteAnalog(MOTOR_ADDR, MOTOR_SPEED));
        },
    }
    proof {
        assert(r@ =~= spec_motor_dir_commands(dir));
    }
    r
}

/// The port commands of adapter initialization: every wired button light
/// off, floor by floor, then the stop and door lights off, then the floor
/// display driven to floor 0.
pub open spec fn spec_init_commands() -> Seq<Command> {
    seq![
        Command::ClearBit(spec_button_light_addr(Button::CallUp(0))),
        Command::ClearBit(spec_button_light_addr(Button::Internal(0))),
        Command::ClearBit(spec_button_light_addr(Button::CallUp(1))),
        Command::ClearBit(spec_button_light_addr(Button::CallDown(1))),
        Command::ClearBit(spec_button_light_addr(Button::Internal(1))),
        Command::ClearBit(spec_button_light_addr(Button::CallUp(2))),
        Command::ClearBit(spec_button_light_addr(Button::CallDown(2))),
        Command::ClearBit(spec_button_light_addr(Button::Internal(2))),
        Command::ClearBit(spec_button_light_addr(Button::CallDown(3))),
        Command::ClearBit(spec_button_light_addr(Button::Internal(3))),
        Command::ClearBit(STOP_LIGHT_ADDR),
        Command::ClearBit(DOOR_LIGHT_ADDR),
        Command::ClearBit(FLOOR_DISPLAY_BIT1_ADDR),
        Command::ClearBit(FLOOR_DISPLAY_BIT0_ADDR),
    ]
}

/// Plans the initialization commands, for an executor that drives the real
/// device: the same known visual state that `ElevIo::new` establishes.
pub fn init_commands() -> (r: Vec<Command>)
    ensures
        r@ == spec_init_commands(),
{
    let mut r: Vec<Command> = Vec::new();
    r.push(Command::ClearBit(0x309));
    r.push(Command::ClearBit(0x313));
    r.push(Command::ClearBit(0x308));
    r.push(Command::ClearBit(0x307));
    r.push(Command::ClearBit(0x312));
    r.push(Command::ClearBit(0x306));
    r.push(Command::ClearBit(0x305));
    r.push(Command::ClearBit(0x311));
    r.push(Command::ClearBit(0x304));
    r.push(Command::ClearBit(0x310));
    r.push(Command::ClearBit(STOP_LIGHT_ADDR));
    r.push(Command::ClearBit(DOOR_LIGHT_ADDR));
    r.push(Command::ClearBit(FLOOR_DISPLAY_BIT1_ADDR));
    r.push(Command::ClearBit(FLOOR_DISPLAY_BIT0_ADDR));
    proof {
        assert(r@ =~= spec_init_commands());
    }
    r
}

/// Replaying a motor plan on a port state has exactly the effect that
/// `set_motor_dir` has on the adapter's own port: the planner and the
/// adapter agree.
pub proof fn lemma_motor_commands_effect(v: PortView, dir: MotorDir)
    ensures
        apply_commands(v, spec_motor_dir_commands(dir)).is_open == v.is_open,
        dir is Up ==> apply_commands(v, spec_motor_dir_commands(dir)).bits == v.bits
            && apply_commands(v, spec_motor_dir_commands(dir)).analog == v.analog.update(MOTOR_ADDR as int, 0usize),
        dir is Down ==> apply_commands(v, spec_motor_dir_commands(dir)).bits == v.bits.update(MOTOR_DIR_ADDR as int, false)
            && apply_commands(v, spec_motor_dir_commands(dir)).analog == v.analog.update(MOTOR_ADDR as int, MOTOR_SPEED),
        dir is Stop ==> apply_commands(v, spec_motor_dir_commands(dir)).bits == v.bits.update(MOTOR_DIR_ADDR as int, true)
            && apply_commands(v, spec_motor_dir_commands(dir)).analog == v.analog.update(MOTOR_ADDR as int, MOTOR_SPEED),
{
    reveal_with_fuel(apply_commands, 4);
}

/// Replaying the initialization plan on a port state establishes exactly
/// the state that `ElevIo::new` does: every initialization channel cleared,
/// everything else untouched.
pub proof fn lemma_init_commands_reset(v: PortView)
    requires
        v.bits.len() == N_ADDR,
    ensures
        apply_commands(v, spec_init_commands()).is_open == v.is_open,
        apply_commands(v, spec_init_commands()).analog == v.analog,
        apply_commands(v, spec_init_commands()).bits.len() == N_ADDR,
        forall|ch: int| 0 <= ch < N_ADDR ==> apply_commands(v, spec_init_commands()).bits[ch]
            == (if init_cleared_channel(ch) { false } else { v.bits[ch] }),
{
    reveal_with_fuel(apply_commands, 16);
}

/// The elevator I/O adapter. It exclusively owns the port device; every
/// domain operation validates its input, resolves the wiring tables, and
/// only then touches the port.
pub struct ElevIo {
    io: HwIo,
}

impl View for ElevIo {
    type V = PortView;

    closed spec fn view(&self) -> PortView {
        self.io@
    }
}

impl ElevIo {
    /// The underlying port device is well-formed.
    pub closed spec fn wf(self) -> bool {
        self.io.wf()
    }

    /// Read access to the underlying port device.
    pub fn port(&self) -> (r: &HwIo)
        ensures
            r@ == self@,
            r.wf() == self.wf(),
    {
        &self.io
    }

    /// Takes the opened port device and establishes a known visual state:
    /// every light off and the floor display at floor 0. When the open
    /// itself failed, that failure is passed through and no port operation
    /// is performed.
    pub fn new(port: Result<HwIo, ElevError>) -> (r: Result<ElevIo, ElevError>)
        requires
            port matches Ok(p) ==> p.wf(),
        ensures
            port is Err ==> r == Err::<ElevIo, ElevError>(port->Err_0),
            port is Ok && port->Ok_0@.is_open ==> (r matches Ok(elev)
                && elev.wf()
                && elev@.is_open
                && elev@.analog == port->Ok_0@.analog
                && elev@.bits.len() == N_ADDR
                && forall|ch: int| 0 <= ch < N_ADDR
                    ==> elev@.bits[ch] == (if init_cleared_channel(ch) { false } else { port->Ok_0@.bits[ch] })),
            port is Ok && !port->Ok_0@.is_open ==> r == Err::<ElevIo, ElevError>(
                ElevError::IoFailure(spec_button_light_addr(Button::CallUp(0))),
            ),
    {
        let io = match port {
            Ok(io) => io,
            Err(e) => return Err(e),
        };
        let mut elev = ElevIo { io };
        match elev.set_all_light(Light::Off) {
            Ok(u) => u,
            Err(e) => return Err(e),
        };
        match elev.set_floor_light(0) {
            Ok(u) => u,
            Err(e) => return Err(e),
        };
        Ok(elev)
    }

    /// Commands the motor. `Up` writes a zero drive level; `Down` and `Stop`
    /// both write the nonzero drive level and differ only in the polarity
    /// bit — an asymmetry inherited from the hardware convention, kept as
    /// wired.
    pub fn set_motor_dir(&mut self, dir: MotorDir) -> (r: Result<(), ElevError>)
        requires
            old(self).wf(),
        ensures
            final(self).wf(),
            old(self)@.is_open ==> r is Ok && final(self)@.is_open == old(self)@.is_open,
            old(self)@.is_open && dir is Up ==> final(self)@.bits == old(self)@.bits
                && final(self)@.analog == old(self)@.analog.update(MOTOR_ADDR as int, 0usize),
            old(self)@.is_open && dir is Down ==> final(self)@.bits == old(self)@.bits.update(MOTOR_DIR_ADDR as int, false)
                && final(self)@.analog == old(self)@.analog.update(MOTOR_ADDR as int, MOTOR_SPEED),
            old(self)@.is_open && dir is Stop ==> final(self)@.bits == old(self)@.bits.update(MOTOR_DIR_ADDR as int, true)
                && final(self)@.analog == old(self)@.analog.update(MOTOR_ADDR as int, MOTOR_SPEED),
            !old(self)@.is_open ==> final(self)@ == old(self)@
                && (dir is Up ==> r == Err::<(), ElevError>(ElevError::IoFailure(MOTOR_ADDR)))
                && (!(dir is Up) ==> r == Err::<(), ElevError>(ElevError::IoFailure(MOTOR_DIR_ADDR))),
    {
        match dir {
            MotorDir::Up => {
                match self.io.write_analog(MOTOR_ADDR, 0) {
                    Ok(u) => u,
                    Err(e) => return Err(e),
                };
            },
            MotorDir::Down => {
                match self.io.clear_bit(MOTOR_DIR_ADDR) {
                    Ok(u) => u,
                    Err(e) => return Err(e),
                };
                match self.io.write_analog(MOTOR_ADDR, MOTOR_SPEED) {
                    Ok(u) => u,
                    Err(e) => return Err(e),
                };
            },
            MotorDir::Stop => {
                match self.io.set_bit(MOTOR_DIR_ADDR) {
                    Ok(u) => u,
                    Err(e) => return Err(e),
                };
                match self.io.write_analog(MOTOR_ADDR, MOTOR_SPEED) {
                    Ok(u) => u,
                    Err(e) => return Err(e),
                };
            },
        }
        Ok(())
    }

    /// Applies `mode` to every light on the board: each wired button light
    /// — skipping the up call at the top floor and the down call at floor 0
    /// — plus the stop light and the door light.
    pub fn set_all_light(&mut self, mode: Light) -> (r: Result<(), ElevError>)
        requires
            old(self).wf(),
        ensures
            final(self).wf(),
            old(self)@.is_open ==> r is Ok
                && final(self)@.is_open == old(self)@.is_open
                && final(self)@.analog == old(self)@.analog
                && final(self)@.bits.len() == N_ADDR
                && forall|ch: int| 0 <= ch < N_ADDR
                    ==> final(self)@.bits[ch] == (if all_light_channel(ch) { mode is On } else { old(self)@.bits[ch] }),
            !old(self)@.is_open ==> r == Err::<(), ElevError>(
                ElevError::IoFailure(spec_button_light_addr(Button::CallUp(0))),
            ) && final(self)@ == old(self)@,
    {
        let mut floor: usize = 0;
        while floor < N_FLOORS
            invariant
                self.wf(),
                floor <= N_FLOORS,
                self@.is_open == old(self)@.is_open,
                self@.analog == old(self)@.analog,
                self@.bits.len() == N_ADDR,
                old(self)@.is_open ==> forall|ch: int| 0 <= ch < N_ADDR
                    ==> self@.bits[ch] == (if light_channel_below(floor as nat, ch) { mode is On } else { old(self)@.bits[ch] }),
                !old(self)@.is_open ==> self@ == old(self)@ && floor == 0,
            decreases N_FLOORS - floor,
        {
            if floor != TOP {
                match self.set_button_light(Button::CallUp(floor), mode) {
                    Ok(u) => u,
                    Err(e) => return Err(e),
                };
            }
            if floor != 0 {
                match self.set_button_light(Button::CallDown(floor), mode) {
                    Ok(u) => u,
                    Err(e) => return Err(e),
                };
            }
            match self.set_button_light(Button::Internal(floor), mode) {
                Ok(u) => u,
                Err(e) => return Err(e),
            };
            floor = floor + 1;
        }
        match self.set_stop_light(mode) {
            Ok(u) => u,
            Err(e) => return Err(e),
        };
        match self.set_door_light(mode) {
            Ok(u) => u,
            Err(e) => return Err(e),
        };
        proof {
            assert forall|ch: int| 0 <= ch < N_ADDR implies
                self@.bits[ch] == (if all_light_channel(ch) { mode is On } else { old(self)@.bits[ch] }) by {
                lemma_light_channel_below_all(ch);
            }
        }
        Ok(())
    }

    /// Sets or clears the light behind a button, after validating that the
    /// board wires that button; an unwired combination is rejected before
    /// any port access.
    pub fn set_button_light(&mut self, button: Button, mode: Light) -> (r: Result<(), ElevError>)
        requires
            old(self).wf(),
        ensures
            final(self).wf(),
            !button_valid(button) ==> r == Err::<(), ElevError>(ElevError::InvalidInput)
                && final(self)@ == old(self)@,
            button_valid(button) && old(self)@.is_open ==> r is Ok
                && final(self)@.bits == old(self)@.bits.update(spec_button_light_addr(button) as int, mode is On)
                && final(self)@.analog == old(self)@.analog
                && final(self)@.is_open == old(self)@.is_open,
            button_valid(button) && !old(self)@.is_open ==> r == Err::<(), ElevError>(
                ElevError::IoFailure(spec_button_light_addr(button)),
            ) && final(self)@ == old(self)@,
    {
        let addr = match button_light_addr(button) {
            Ok(a) => a,
            Err(e) => return Err(e),
        };
        match mode {
            Light::On => match self.io.set_bit(addr) {
                Ok(u) => u,
                Err(e) => return Err(e),
            },
            Light::Off => match self.io.clear_bit(addr) {
                Ok(u) => u,
                Err(e) => return Err(e),
            },
        };
        Ok(())
    }

    /// Drives the two floor-display channels to the binary encoding of
    /// `floor`: bit 1 of the index on one channel, bit 0 on the other.
    pub fn set_floor_light(&mut self, floor: Floor) -> (r: Result<(), ElevError>)
        requires
            old(self).wf(),
        ensures
            final(self).wf(),
            floor > TOP ==> r == Err::<(), ElevError>(ElevError::InvalidInput)
                && final(self)@ == old(self)@,
            floor <= TOP && old(self)@.is_open ==> r is Ok
                && final(self)@.bits == old(self)@.bits
                    .update(FLOOR_DISPLAY_BIT1_ADDR as int, floor & 2 != 0)
                    .update(FLOOR_DISPLAY_BIT0_ADDR as int, floor & 1 != 0)
                && final(self)@.analog == old(self)@.analog
                && final(self)@.is_open == old(self)@.is_open
                && displayed_floor(final(self)@) == floor,
            floor <= TOP && !old(self)@.is_open ==> r == Err::<(), ElevError>(
                ElevError::IoFailure(FLOOR_DISPLAY_BIT1_ADDR),
            ) && final(self)@ == old(self)@,
    {
        if floor > TOP {
            return Err(ElevError::InvalidInput);
        }
        proof {
            assert(floor <= 3 ==> ((floor & 2 != 0) == (floor == 2 || floor == 3))
                && ((floor & 1 != 0) == (floor == 1 || floor == 3))) by (bit_vector);
        }
        if floor & 0x2 != 0 {
            match self.io.set_bit(FLOOR_DISPLAY_BIT1_ADDR) {
                Ok(u) => u,
                Err(e) => return Err(e),
            };
        } else {
            match self.io.clear_bit(FLOOR_DISPLAY_BIT1_ADDR) {
                Ok(u) => u,
                Err(e) => return Err(e),
            };
        }
        if floor & 0x1 != 0 {
            match self.io.set_bit(FLOOR_DISPLAY_BIT0_ADDR) {
                Ok(u) => u,
                Err(e) => return Err(e),
            };
        } else {
            match self.io.clear_bit(FLOOR_DISPLAY_BIT0_ADDR) {
                Ok(u) => u,
                Err(e) => return Err(e),
            };
        }
        Ok(())
    }

    /// Sets or clears the door light.
    pub fn set_door_light(&mut self, mode: Light) -> (r: Result<(), ElevError>)
        requires
            old(self).wf(),
        ensures
            final(self).wf(),
            old(self)@.is_open ==> r is Ok
                && final(self)@.bits == old(self)@.bits.update(DOOR_LIGHT_ADDR as int, mode is On)
                && final(self)@.analog == old(self)@.analog
                && final(self)@.is_open == old(self)@.is_open,
            !old(self)@.is_open ==> r == Err::<(), ElevError>(ElevError::IoFailure(DOOR_LIGHT_ADDR))
                && final(self)@ == old(self)@,
    {
        match mode {
            Light::On => match self.io.set_bit(DOOR_LIGHT_ADDR) {
                Ok(u) => u,
                Err(e) => return Err(e),
            },
            Light::Off => match self.io.clear_bit(DOOR_LIGHT_ADDR) {
                Ok(u) => u,
                Err(e) => return Err(e),
            },
        };
        Ok(())
    }

    /// Sets or clears the stop light.
    pub fn set_stop_light(&mut self, mode: Light) -> (r: Result<(), ElevError>)
        requires
            old(self).wf(),
        ensures
            final(self).wf(),
            old(self)@.is_open ==> r is Ok
                && final(self)@.bits == old(self)@.bits.update(STOP_LIGHT_ADDR as int, mode is On)
                && final(self)@.analog == old(self)@.analog
                && final(self)@.is_open == old(self)@.is_open,
            !old(self)@.is_open ==> r == Err::<(), ElevError>(ElevError::IoFailure(STOP_LIGHT_ADDR))
                && final(self)@ == old(self)@,
    {
        match mode {
            Light::On => match self.io.set_bit(STOP_LIGHT_ADDR) {
                Ok(u) => u,
                Err(e) => return Err(e),
            },
            Light::Off => match self.io.clear_bit(STOP_LIGHT_ADDR) {
                Ok(u) => u,
                Err(e) => return Err(e),
            },
        };
        Ok(())
    }

    /// Reads the switch behind a button, after validating that the board
    /// wires that button; an unwired combination is rejected before any
    /// port access.
    pub fn get_button_signal(&self, button: Button) -> (r: Result<Signal, ElevError>)
        requires
            self.wf(),
        ensures
            !button_valid(button) ==> r == Err::<Signal, ElevError>(ElevError::InvalidInput),
            button_valid(button) && self@.is_open ==> r == Ok::<Signal, ElevError>(
                if self@.bits[spec_button_signal_addr(button) as int] { Signal::High } else { Signal::Low },
            ),
            button_valid(button) && !self@.is_open ==> r == Err::<Signal, ElevError>(
                ElevError::IoFailure(spec_button_signal_addr(button)),
            ),
    {
        let addr = match button_signal_addr(button) {
            Ok(a) => a,
            Err(e) => return Err(e),
        };
        let value = match self.io.read_bit(addr) {
            Ok(v) => v,
            Err(e) => return Err(e),
        };
        Ok(Signal::new(value))
    }

    /// Reads the floor sensor of `floor`; a floor the board does not have
    /// is rejected before any port access.
    pub fn get_floor_signal(&self, floor: Floor) -> (r: Result<Signal, ElevError>)
        requires
            self.wf(),
        ensures
            floor > TOP ==> r == Err::<Signal, ElevError>(ElevError::InvalidInput),
            floor <= TOP && self@.is_open ==> r == Ok::<Signal, ElevError>(
                if self@.bits[spec_floor_sensor_addr(floor) as int] { Signal::High } else { Signal::Low },
            ),
            floor <= TOP && !self@.is_open ==> r == Err::<Signal, ElevError>(
                ElevError::IoFailure(spec_floor_sensor_addr(floor)),
            ),
    {
        let addr = match floor_sensor_addr(floor) {
            Ok(a) => a,
            Err(e) => return Err(e),
        };
        let value = match self.io.read_bit(addr) {
            Ok(v) => v,
            Err(e) => return Err(e),
        };
        Ok(Signal::new(value))
    }

    /// Reads the emergency-stop sensor.
    pub fn get_stop_signal(&self) -> (r: Result<Signal, ElevError>)
        requires
            self.wf(),
        ensures
            self@.is_open ==> r == Ok::<Signal, ElevError>(
                if self@.bits[STOP_SENSOR_ADDR as int] { Signal::High } else { Signal::Low },
            ),
            !self@.is_open ==> r == Err::<Signal, ElevError>(ElevError::IoFailure(STOP_SENSOR_ADDR)),
    {
        let value = match self.io.read_bit(STOP_SENSOR_ADDR) {
            Ok(v) => v,
            Err(e) => return Err(e),
        };
        Ok(Signal::new(value))
    }

    /// Reads the obstruction sensor.
    pub fn get_obstr_signal(&self) -> (r: Result<Signal, ElevError>)
        requires
            self.wf(),
        ensures
            self@.is_open ==> r == Ok::<Signal, ElevError>(
                if self@.bits[OBSTRUCTION_SENSOR_ADDR as int] { Signal::High } else { Signal::Low },
            ),
            !self@.is_open ==> r == Err::<Signal, ElevError>(ElevError::IoFailure(OBSTRUCTION_SENSOR_ADDR)),
    {
        let value = match self.io.read_bit(OBSTRUCTION_SENSOR_ADDR) {
            Ok(v) => v,
            Err(e) => return Err(e),
        };
        Ok(Signal::new(value))
    }
}

} // verus!
