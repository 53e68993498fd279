//! An in-memory model of the generic port device.
//!
//! The physical board exposes digital and analog lines addressed by a channel
//! identifier; the channel splits into a sub-device selector (high byte) and
//! an offset within the sub-device (low byte). This module models the device
//! as two addressable arrays — one of bits, one of analog values — plus an
//! open flag, and offers the driver's five primitives over them. A closed
//! device fails every transfer with the attempted address, exactly as the
//! real driver does; it never panics.

use vstd::prelude::*;

use crate::err::ElevError;

verus! {

/// Number of addressable channels; every address in the wiring tables lies
/// below it (the highest used channel is 0x323).
pub const N_ADDR: usize = 0x400;

/// One port-device action, as the adapter plans it and as the hardware
/// executor replays it: set a digital bit, clear a digital bit, or write an
/// analog value, each at a channel address.
#[derive(Copy, Clone, Debug, PartialEq, Eq, Structural)]
pub enum Command {
    SetBit(usize),
    ClearBit(usize),
    WriteAnalog(usize, usize),
}

/// The abstract state of a port device: whether it is open, the digital
/// bits, and the analog values, both indexed by channel address.
pub struct PortView {
    pub is_open: bool,
    pub bits: Seq<bool>,
    pub analog: Seq<usize>,
}

/// The effect of one command on a port state.
pub open spec fn apply_command(v: PortView, c: Command) -> PortView {
    match c {
        Command::SetBit(a) => PortView { bits: v.bits.update(a as int, true), ..v },
        Command::ClearBit(a) => PortView { bits: v.bits.update(a as int, false), ..v },
        Command::WriteAnalog(a, value) => PortView { analog: v.analog.update(a as int, value), ..v },
    }
}

/// The effect of a command sequence on a port state, first command first.
pub open spec fn apply_commands(v: PortView, s: Seq<Command>) -> PortView
    decreases s.len(),
{
    if s.len() == 0 {
        v
    } else {
        apply_commands(apply_command(v, s[0]), s.drop_first())
    }
}

/// The port-device model: holds one bit and one analog value per channel.
pub struct HwIo {
    is_open: bool,
    bits: Vec<bool>,
    analog: Vec<usize>,
}

impl View for HwIo {
    type V = PortView;

    closed spec fn view(&self) -> PortView {
        PortView {
            is_open: self.is_open,
            bits: self.bits@,
            analog: self.analog@,
        }
    }
}

impl HwIo {
    /// Both channel arrays cover the whole address space.
    pub open spec fn wf(self) -> bool {
        self@.bits.len() == N_ADDR && self@.analog.len() == N_ADDR
    }

    /// Builds a device with every bit low and every analog value zero.
    fn fresh(is_open: bool) -> (r: HwIo)
        ensures
            r.wf(),
            r@.is_open == is_open,
            forall|ch: int| 0 <= ch < N_ADDR ==> !r@.bits[ch],
            forall|ch: int| 0 <= ch < N_ADDR ==> r@.analog[ch] == 0usize,
    {
        let mut bits: Vec<bool> = Vec::new();
        let mut analog: Vec<usize> = Vec::new();
        let mut i: usize = 0;
        while i < N_ADDR
            invariant
                i <= N_ADDR,
                bits@.len() == i,
                analog@.len() == i,
                forall|ch: int| 0 <= ch < i ==> !bits@[ch],
                forall|ch: int| 0 <= ch < i ==> analog@[ch] == 0usize,
            decreases N_ADDR - i,
        {
            bits.push(false);
            analog.push(0);
            i = i + 1;
        }
        HwIo { is_open, bits, analog }
    }

    /// Opens the model device: always succeeds, with every line low. The
    /// result type mirrors the real driver, whose open can fail.
    pub fn new() -> (r: Result<HwIo, ElevError>)
        ensures
            r matches Ok(io) && io.wf() && io@.is_open,
            r matches Ok(io) ==> forall|ch: int| 0 <= ch < N_ADDR ==> !io@.bits[ch],
            r matches Ok(io) ==> forall|ch: int| 0 <= ch < N_ADDR ==> io@.analog[ch] == 0usize,
    {
        Ok(Self::fresh(true))
    }

    /// A device whose open did not complete: every transfer on it fails.
    pub fn closed() -> (r: HwIo)
        ensures
            r.wf(),
            !r@.is_open,
    {
        Self::fresh(false)
    }

    /// Drives the digital line at `channel` high.
    pub fn set_bit(&mut self, channel: usize) -> (r: Result<(), ElevError>)
        requires
            old(self).wf(),
        ensures
            final(self).wf(),
            old(self)@.is_open && channel < N_ADDR ==> r is Ok
                && final(self)@.bits == old(self)@.bits.update(channel as int, true)
                && final(self)@.analog == old(self)@.analog
                && final(self)@.is_open == old(self)@.is_open,
            !(old(self)@.is_open && channel < N_ADDR) ==> r == Err::<(), ElevError>(ElevError::IoFailure(channel))
                && final(self)@ == old(self)@,
    {
        if self.is_open && channel < N_ADDR {
            self.bits.set(channel, true);
            Ok(())
        } else {
            Err(ElevError::IoFailure(channel))
        }
    }

    /// Drives the digital line at `channel` low.
    pub fn clear_bit(&mut self, channel: usize) -> (r: Result<(), ElevError>)
        requires
            old(self).wf(),
        ensures
            final(self).wf(),
            old(self)@.is_open && channel < N_ADDR ==> r is Ok
                && final(self)@.bits == old(self)@.bits.update(channel as int, false)
                && final(self)@.analog == old(self)@.analog
                && final(self)@.is_open == old(self)@.is_open,
            !(old(self)@.is_open && channel < N_ADDR) ==> r == Err::<(), ElevError>(ElevError::IoFailure(channel))
                && final(self)@ == old(self)@,
    {
        if self.is_open && channel < N_ADDR {
            self.bits.set(channel, false);
            Ok(())
        } else {
            Err(ElevError::IoFailure(channel))
        }
    }

    /// Reads the digital line at `channel` as a raw value: 1 when high,
    /// 0 when low.
    pub fn read_bit(&self, channel: usize) -> (r: Result<usize, ElevError>)
        requires
            self.wf(),
        ensures
            self@.is_open && channel < N_ADDR ==> r == Ok::<usize, ElevError>(
                if self@.bits[channel as int] { 1usize } else { 0usize },
            ),
            !(self@.is_open && channel < N_ADDR) ==> r == Err::<usize, ElevError>(ElevError::IoFailure(channel)),
    {
        if self.is_open && channel < N_ADDR {
            Ok(if self.bits[channel] { 1 } else { 0 })
        } else {
            Err(ElevError::IoFailure(channel))
        }
    }

    /// Writes `value` to the analog output at `channel`.
    pub fn write_analog(&mut self, channel: usize, value: usize) -> (r: Result<(), ElevError>)
        requires
            old(self).wf(),
        ensures
            final(self).wf(),
            old(self)@.is_open && channel < N_ADDR ==> r is Ok
                && final(self)@.analog == old(self)@.analog.update(channel as int, value)
                && final(self)@.bits == old(self)@.bits
                && final(self)@.is_open == old(self)@.is_open,
            !(old(self)@.is_open && channel < N_ADDR) ==> r == Err::<(), ElevError>(ElevError::IoFailure(channel))
                && final(self)@ == old(self)@,
    {
        if self.is_open && channel < N_ADDR {
            self.analog.set(channel, value);
            Ok(())
        } else {
            Err(ElevError::IoFailure(channel))
        }
    }

    /// Reads the analog input at `channel`.
    pub fn read_analog(&self, channel: usize) -> (r: Result<usize, ElevError>)
        requires
            self.wf(),
        ensures
            self@.is_open && channel < N_ADDR ==> r == Ok::<usize, ElevError>(self@.analog[channel as int]),
            !(self@.is_open && channel < N_ADDR) ==> r == Err::<usize, ElevError>(ElevError::IoFailure(channel)),
    {
        if self.is_open && channel < N_ADDR {
            Ok(self.analog[channel])
        } else {
            Err(ElevError::IoFailure(channel))
        }
    }
}

} // verus!
