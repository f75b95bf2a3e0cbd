//! How a [`Command`] travels on each transport: the steps of a parallel bus (4 or 8 data
//! lines) and the frames of an I2C bridge to a 4-bit bus.
//!
//! The functions here decide levels, bytes and their order; driving the pins and the I2C
//! bus is left to the owner of the hardware.

use vstd::prelude::*;
use crate::command::{Bits, Command, ReadWriteOp, RegisterSelection, State};
use crate::utils::{BitState, bit_is_set, check_bit, clear_bit, set_bit};

verus! {

/// Whether a busy-flag reading says the controller is busy: bit 7.
pub open spec fn busy(status: u8) -> bool {
    bit_is_set(status, 7)
}

/// Whether the controller is busy, from the byte the busy-flag read returned.
pub fn is_busy(status: u8) -> (r: bool)
    ensures
        r == busy(status),
{
    check_bit(status, 7) == BitState::One
}

/// The number of data lines of a parallel bus.
#[derive(Clone, Copy, Debug, PartialEq, Eq, Structural)]
pub enum PinCount {
    /// D4 to D7.
    Four,
    /// D0 to D7.
    Eight,
}

/// The number of data lines, as a count.
pub open spec fn line_count(pins: PinCount) -> nat {
    match pins {
        PinCount::Four => 4,
        PinCount::Eight => 8,
    }
}

/// A bus of `n` data lines; only 4 and 8 are wired.
pub fn pin_count(n: usize) -> (r: Option<PinCount>)
    ensures
        n == 4 ==> r == Some(PinCount::Four),
        n == 8 ==> r == Some(PinCount::Eight),
        n != 4 && n != 8 ==> r.is_none(),
{
    if n == 4 {
        Some(PinCount::Four)
    } else if n == 8 {
        Some(PinCount::Eight)
    } else {
        None
    }
}

/// One step of a transfer on a parallel bus.
#[derive(Clone, Copy, Debug, PartialEq, Eq, Structural)]
pub enum PinOp {
    /// Drive the register-select line: high selects the data register.
    SetRs(bool),
    /// Drive the read/write line: high reads.
    SetRw(bool),
    /// Drive the enable line; the controller latches on the falling edge.
    SetEn(bool),
    /// Drive the data lines with a value: line `i` carries bit `i`.
    Push(u8),
    /// Release the data lines and sample them into a value, line `i` as bit `i`.
    Fetch,
}

/// A transfer that a parallel bus can carry: a write has a payload, a 4-bit payload fits
/// in a nibble and needs the 4-line bus.
pub open spec fn parallel_accepts(command: Command, pins: PinCount) -> bool {
    match command.rw {
        ReadWriteOp::Write => match command.data {
            None => false,
            Some(Bits::Bit4(v)) => pins == PinCount::Four && v < 16,
            Some(Bits::Bit8(_)) => true,
        },
        ReadWriteOp::Read => true,
    }
}

/// An enable pulse.
pub open spec fn strobe() -> Seq<PinOp> {
    seq![PinOp::SetEn(true), PinOp::SetEn(false)]
}

/// The steps of a transfer on a parallel bus: enable low, RS and RW set; then a write puts
/// each group of bits on the data lines and pulses enable (on 4 lines a byte goes as its
/// high nibble, then its low nibble), and a read raises enable, samples, and lowers it
/// (twice on 4 lines, high nibble first).
pub open spec fn parallel_ops(command: Command, pins: PinCount) -> Seq<PinOp> {
    seq![
        PinOp::SetEn(false),
        PinOp::SetRs(command.rs == RegisterSelection::Data),
        PinOp::SetRw(command.rw == ReadWriteOp::Read),
    ] + match command.rw {
        ReadWriteOp::Write => match command.data->0 {
            Bits::Bit4(v) => seq![PinOp::Push(v)] + strobe(),
            Bits::Bit8(v) => match pins {
                PinCount::Four => seq![PinOp::Push((v / 16) as u8)] + strobe() + seq![
                    PinOp::Push((v % 16) as u8),
                ] + strobe(),
                PinCount::Eight => seq![PinOp::Push(v)] + strobe(),
            },
        },
        ReadWriteOp::Read => match pins {
            PinCount::Four => seq![
                PinOp::SetEn(true),
                PinOp::Fetch,
                PinOp::SetEn(false),
                PinOp::SetEn(true),
                PinOp::Fetch,
                PinOp::SetEn(false),
            ],
            PinCount::Eight => seq![PinOp::SetEn(true), PinOp::Fetch, PinOp::SetEn(false)],
        },
    }
}

/// Whether a parallel bus can carry a transfer.
pub fn parallel_can_send(command: &Command, pins: PinCount) -> (r: bool)
    ensures
        r == parallel_accepts(*command, pins),
{
    match command.rw {
        ReadWriteOp::Write => match command.data {
            None => false,
            Some(Bits::Bit4(v)) => pins == PinCount::Four && v < 16,
            Some(Bits::Bit8(_)) => true,
        },
        ReadWriteOp::Read => true,
    }
}

/// The steps of a transfer on a parallel bus.
pub fn parallel_steps(command: &Command, pins: PinCount) -> (r: Vec<PinOp>)
    requires
        parallel_accepts(*command, pins),
    ensures
        r@ == parallel_ops(*command, pins),
{
    let mut ops: Vec<PinOp> = Vec::new();
    ops.push(PinOp::SetEn(false));
    ops.push(PinOp::SetRs(command.rs == RegisterSelection::Data));
    ops.push(PinOp::SetRw(command.rw == ReadWriteOp::Read));
    match command.rw {
        ReadWriteOp::Write => {
            match command.data {
                Some(Bits::Bit4(v)) => {
                    ops.push(PinOp::Push(v));
                    ops.push(PinOp::SetEn(true));
                    ops.push(PinOp::SetEn(false));
                },
                Some(Bits::Bit8(v)) => match pins {
                    PinCount::Four => {
                        let high: u8 = v >> 4;
                        let low: u8 = v & 0b1111;
                        assert(high == v / 16 && low == v % 16) by (bit_vector)
                            requires
                                high == v >> 4,
                                low == v & 0b1111,
                        ;
                        ops.push(PinOp::Push(high));
                        ops.push(PinOp::SetEn(true));
                        ops.push(PinOp::SetEn(false));
                        ops.push(PinOp::Push(low));
                        ops.push(PinOp::SetEn(true));
                        ops.push(PinOp::SetEn(false));
                    },
                    PinCount::Eight => {
                        ops.push(PinOp::Push(v));
                        ops.push(PinOp::SetEn(true));
                        ops.push(PinOp::SetEn(false));
                    },
                },
                None => {},
            }
        },
        ReadWriteOp::Read => {
            ops.push(PinOp::SetEn(true));
            ops.push(PinOp::Fetch);
            ops.push(PinOp::SetEn(false));
            if pins == PinCount::Four {
                ops.push(PinOp::SetEn(true));
                ops.push(PinOp::Fetch);
                ops.push(PinOp::SetEn(false));
            }
        },
    }
    assert(ops@ =~= parallel_ops(*command, pins));
    ops
}

/// The levels of the data lines that carry a value: line `i` is high when bit `i` is 1.
pub fn pin_levels(value: u8, pins: PinCount) -> (r: Vec<bool>)
    ensures
        r@.len() == line_count(pins),
        forall|i: int| 0 <= i < r@.len() ==> #[trigger] r@[i] == bit_is_set(value, i as u8),
{
    let n: u8 = match pins {
        PinCount::Four => 4,
        PinCount::Eight => 8,
    };
    let mut levels: Vec<bool> = Vec::new();
    let mut i: u8 = 0;
    while i < n
        invariant
            0 <= i <= n,
            n == line_count(pins),
            levels@.len() == i,
            forall|j: int| 0 <= j < i ==> #[trigger] levels@[j] == bit_is_set(value, j as u8),
        decreases n - i,
    {
        levels.push(check_bit(value, i) == BitState::One);
        i = i + 1;
    }
    levels
}

/// The value that sampled data lines carry: bit `i` is 1 when line `i` is high.
pub fn value_from_levels(levels: &Vec<bool>) -> (r: u8)
    requires
        levels@.len() <= 8,
    ensures
        forall|i: int| 0 <= i < levels@.len() ==> #[trigger] bit_is_set(r, i as u8) == levels@[i],
        forall|i: int| levels@.len() <= i < 8 ==> !#[trigger] bit_is_set(r, i as u8),
{
    let mut acc: u8 = 0;
    let mut i: usize = 0;
    assert forall|j: int| 0 <= j < 8 implies !#[trigger] bit_is_set(0u8, j as u8) by {
        let jj = j as u8;
        assert((0u8 >> jj) & 1u8 == 0u8) by (bit_vector);
    }
    while i < levels.len()
        invariant
            0 <= i <= levels@.len() <= 8,
            forall|j: int| 0 <= j < i ==> #[trigger] bit_is_set(acc, j as u8) == levels@[j],
            forall|j: int| i <= j < 8 ==> !#[trigger] bit_is_set(acc, j as u8),
        decreases levels.len() - i,
    {
        let k: u8 = i as u8;
        let next: u8 = if levels[i] {
            set_bit(acc, k)
        } else {
            acc
        };
        assert forall|j: int| 0 <= j < 8 && j != i implies #[trigger] bit_is_set(next, j as u8) == bit_is_set(acc, j as u8) by {
            let jj = j as u8;
            assert(((acc | (1u8 << k)) >> jj) & 1u8 == (acc >> jj) & 1u8) by (bit_vector)
                requires
                    k < 8,
                    jj < 8,
                    jj != k,
            ;
        }
        assert(levels@[i as int] ==> bit_is_set(next, k)) by {
            assert(((acc | (1u8 << k)) >> k) & 1u8 == 1u8) by (bit_vector)
                requires
                    k < 8,
            ;
        }
        acc = next;
        i = i + 1;
    }
    acc
}

/// A byte of a 4-line read, from its high and its low nibble.
pub fn join_nibbles(high: u8, low: u8) -> (r: u8)
    requires
        high < 16,
        low < 16,
    ensures
        r == high * 16 + low,
{
    let shifted: u8 = high << 4;
    assert(shifted == high * 16) by (bit_vector)
        requires
            high < 16,
            shifted == high << 4,
    ;
    shifted + low
}


/// The bit of the I2C bridge's latch for the register select line (bit 0).
pub const LATCH_RS: u8 = 0b0000_0001;
/// The bit of the latch for the read/write line (bit 1).
pub const LATCH_RW: u8 = 0b0000_0010;
/// The bit of the latch for the enable line (bit 2).
pub const LATCH_EN_BIT: u8 = 2;
/// The bit of the latch for the backlight (bit 3).
pub const LATCH_BACKLIGHT: u8 = 0b0000_1000;
/// The latch bits of the data lines D7 to D4 (bits 7 to 4).
pub const LATCH_DATA: u8 = 0b1111_0000;

/// The backlight bit of the latch for a backlight state.
pub open spec fn backlight_bits(backlight: State) -> u8 {
    match backlight {
        State::On => LATCH_BACKLIGHT,
        State::Off => 0,
    }
}

/// The latch values of a transfer on the bridge, enable low: register select, backlight,
/// and for a write the payload on D7 to D4 (a byte as its high nibble, then its low nibble);
/// for a read RW high and D7 to D4 high, so that the controller can pull them low.
pub open spec fn latch_nibbles(command: Command, backlight: State) -> (u8, Option<u8>) {
    let base = backlight_bits(backlight) + if command.rs == RegisterSelection::Data {
        LATCH_RS
    } else {
        0u8
    };
    match command.rw {
        ReadWriteOp::Write => match command.data->0 {
            Bits::Bit4(v) => ((base + v * 16) as u8, None),
            Bits::Bit8(v) => (
                (base + (v / 16) * 16) as u8,
                Some((base + (v % 16) * 16) as u8),
            ),
        },
        ReadWriteOp::Read => {
            let probe = (base + LATCH_RW + LATCH_DATA) as u8;
            (probe, Some(probe))
        },
    }
}

/// The three frames that latch one nibble: enable low, high, low again.
pub open spec fn strobe_frames(latch: u8) -> Seq<u8> {
    seq![latch & !(1u8 << LATCH_EN_BIT), latch | (1u8 << LATCH_EN_BIT), latch & !(1u8 << LATCH_EN_BIT)]
}

/// What the bridge does for one transfer.
#[derive(Debug)]
pub enum I2cTransfer {
    /// Write these frames in one transaction.
    Write(Vec<u8>),
    /// A read: write `high_probe` and read one byte (the high nibble on its upper bits),
    /// write `low_probe` and read one byte (the low nibble on its upper bits), then write
    /// `finish`.
    Read { high_probe: Vec<u8>, low_probe: Vec<u8>, finish: Vec<u8> },
}

/// The state of an I2C bridge: whether the next transfer is the first since it was made,
/// and the backlight it keeps on its latch.
#[derive(Clone, Copy, Debug)]
pub struct I2cBridge {
    /// No transfer has been framed yet.
    pub first_command: bool,
    /// The backlight state kept on the latch.
    pub backlight: State,
}

/// The transfer that puts a 4-bit bus in 4-bit mode: the single-nibble function set.
pub open spec fn is_four_bit_bootstrap(command: Command) -> bool {
    command.rs == RegisterSelection::Command && command.rw == ReadWriteOp::Write && command.data
        == Some(Bits::Bit4(0b0010))
}

/// A function set that selects the 8-bit bus.
pub open spec fn selects_eight_bit_bus(command: Command) -> bool {
    match command.data {
        Some(Bits::Bit8(v)) => command.rw == ReadWriteOp::Write && command.rs
            == RegisterSelection::Command && v / 16 == 0b0011,
        _ => false,
    }
}

/// A transfer that the bridge can carry after the first: 8-bit payloads only, a write has
/// one, and no function set may select the 8-bit bus.
pub open spec fn bridge_accepts_later(command: Command) -> bool {
    &&& !(command.data matches Some(Bits::Bit4(_)))
    &&& command.rw == ReadWriteOp::Write ==> command.data.is_some()
    &&& !selects_eight_bit_bus(command)
}

/// The frames of a transfer: the first transfer is the 4-bit bootstrap and latches its one
/// nibble; a write latches its nibbles in turn; a read probes the high and the low nibble.
pub open spec fn transfer_frames(first: bool, command: Command, backlight: State) -> (Seq<u8>, Seq<u8>, Seq<u8>) {
    let (n0, n1) = latch_nibbles(command, backlight);
    if first {
        (strobe_frames(n0), seq![], seq![])
    } else {
        match command.rw {
            ReadWriteOp::Write => (strobe_frames(n0) + strobe_frames(n1->0), seq![], seq![]),
            ReadWriteOp::Read => {
                let all = strobe_frames(n0) + strobe_frames(n1->0);
                (all.subrange(0, 2), all.subrange(2, 5), all.subrange(5, 6))
            },
        }
    }
}

/// The frames that switch the backlight: RW high with the data lines released, so that
/// the pulse writes nothing to the controller.
pub open spec fn backlight_frames(backlight: State) -> Seq<u8> {
    strobe_frames((0b1111_0010u8 + backlight_bits(backlight)) as u8)
}

fn latch_frames(latch: u8) -> (r: Vec<u8>)
    ensures
        r@ == strobe_frames(latch),
{
    let disabled = clear_bit(latch, LATCH_EN_BIT);
    let enabled = set_bit(disabled, LATCH_EN_BIT);
    assert(enabled == latch | (1u8 << LATCH_EN_BIT)) by (bit_vector)
        requires
            disabled == latch & !(1u8 << 2u8),
            enabled == disabled | (1u8 << 2u8),
            LATCH_EN_BIT == 2u8,
    ;
    let mut frames: Vec<u8> = Vec::new();
    frames.push(disabled);
    frames.push(enabled);
    frames.push(disabled);
    assert(frames@ =~= strobe_frames(latch));
    frames
}

fn latch_values(command: &Command, backlight: State) -> (r: (u8, Option<u8>))
    requires
        command.rw == ReadWriteOp::Write ==> command.data.is_some(),
        command.data matches Some(Bits::Bit4(v)) ==> v < 16,
    ensures
        r == latch_nibbles(*command, backlight),
{
    let mut base: u8 = match backlight {
        State::On => LATCH_BACKLIGHT,
        State::Off => 0,
    };
    if command.rs == RegisterSelection::Data {
        base = base + LATCH_RS;
    }
    match command.rw {
        ReadWriteOp::Write => match command.data {
            Some(Bits::Bit4(v)) => (base + v * 16, None),
            Some(Bits::Bit8(v)) => {
                let high: u8 = v & 0b1111_0000;
                let low: u8 = (v & 0b0000_1111) << 4;
                assert(high == (v / 16) * 16 && low == (v % 16) * 16) by (bit_vector)
                    requires
                        high == v & 0b1111_0000u8,
                        low == (v & 0b0000_1111u8) << 4u8,
                ;
                (base + high, Some(base + low))
            },
            None => (base, None),
        },
        ReadWriteOp::Read => {
            let probe: u8 = base + LATCH_RW + LATCH_DATA;
            (probe, Some(probe))
        },
    }
}

/// A byte of a read on the bridge, from the two bytes read back: the high nibble sits on the
/// upper bits of the first, the low nibble on the upper bits of the second.
pub fn join_bridge_read(first: u8, second: u8) -> (r: u8)
    ensures
        r == (first / 16) * 16 + second / 16,
{
    let high: u8 = first & 0b1111_0000;
    let low: u8 = second >> 4;
    let r: u8 = high | low;
    assert(r == (first / 16) * 16 + second / 16) by (bit_vector)
        requires
            high == first & 0b1111_0000u8,
            low == second >> 4u8,
            r == high | low,
    ;
    r
}

/// The backlight state that a byte read from the latch shows (bit 3).
pub fn backlight_of_latch(latch: u8) -> (r: State)
    ensures
        r == (if bit_is_set(latch, 3) {
            State::On
        } else {
            State::Off
        }),
{
    match check_bit(latch, 3) {
        BitState::Zero => State::Off,
        BitState::One => State::On,
    }
}

impl I2cBridge {
    /// The state of a bridge that has sent nothing yet; its backlight is on.
    pub fn new() -> (r: I2cBridge)
        ensures
            r.first_command,
            r.backlight == State::On,
    {
        I2cBridge { first_command: true, backlight: State::On }
    }

    /// The transfers the bridge can carry now: the 4-bit bootstrap first, after it 8-bit
    /// payloads that do not select the 8-bit bus.
    pub open spec fn accepts(&self, command: Command) -> bool {
        if self.first_command {
            is_four_bit_bootstrap(command)
        } else {
            bridge_accepts_later(command)
        }
    }

    /// Whether the bridge can carry a transfer now.
    pub fn can_send(&self, command: &Command) -> (r: bool)
        ensures
            r == self.accepts(*command),
    {
        if self.first_command {
            command.rs == RegisterSelection::Command && command.rw == ReadWriteOp::Write
                && command.data == Some(Bits::Bit4(0b0010))
        } else {
            let nibble = match command.data {
                Some(Bits::Bit4(_)) => true,
                _ => false,
            };
            let eight_bit_mode = match command.data {
                Some(Bits::Bit8(v)) => command.rw == ReadWriteOp::Write && command.rs
                    == RegisterSelection::Command && v / 16 == 0b0011,
                _ => false,
            };
            let missing_payload = command.rw == ReadWriteOp::Write && command.data.is_none();
            !nibble && !missing_payload && !eight_bit_mode
        }
    }

    /// The frames of a transfer; the bridge is past its first transfer after it.
    pub fn frames(&mut self, command: &Command) -> (r: I2cTransfer)
        requires
            old(self).accepts(*command),
        ensures
            !final(self).first_command,
            final(self).backlight == old(self).backlight,
            ({
                let (a, b, c) = transfer_frames(old(self).first_command, *command, old(self).backlight);
                match r {
                    I2cTransfer::Write(w) => command.rw == ReadWriteOp::Write && w@ == a,
                    I2cTransfer::Read { high_probe, low_probe, finish } => command.rw
                        == ReadWriteOp::Read && high_probe@ == a && low_probe@ == b && finish@ == c,
                }
            }),
    {
        let (n0, n1) = latch_values(command, self.backlight);
        let first = self.first_command;
        self.first_command = false;
        if first {
            return I2cTransfer::Write(latch_frames(n0));
        }
        let second = match n1 {
            Some(n) => n,
            None => n0,
        };
        let mut all = latch_frames(n0);
        let mut rest = latch_frames(second);
        all.append(&mut rest);
        match command.rw {
            ReadWriteOp::Write => I2cTransfer::Write(all),
            ReadWriteOp::Read => {
                let mut high_probe: Vec<u8> = Vec::new();
                high_probe.push(all[0]);
                high_probe.push(all[1]);
                let mut low_probe: Vec<u8> = Vec::new();
                low_probe.push(all[2]);
                low_probe.push(all[3]);
                low_probe.push(all[4]);
                let mut finish: Vec<u8> = Vec::new();
                finish.push(all[5]);
                let ghost frames = transfer_frames(false, *command, self.backlight);
                assert(high_probe@ =~= frames.0);
                assert(low_probe@ =~= frames.1);
                assert(finish@ =~= frames.2);
                I2cTransfer::Read { high_probe, low_probe, finish }
            },
        }
    }

    /// Keep a backlight state on the latch; the result is the frames that show it.
    pub fn set_backlight(&mut self, backlight: State) -> (r: Vec<u8>)
        ensures
            final(self).backlight == backlight,
            final(self).first_command == old(self).first_command,
            r@ == backlight_frames(backlight),
    {
        self.backlight = backlight;
        let mut latch: u8 = 0b1111_0010;
        if backlight == State::On {
            latch = set_bit(latch, 3);
            assert(latch == 0b1111_1010u8) by (bit_vector)
                requires
                    latch == 0b1111_0010u8 | (1u8 << 3u8),
            ;
        }
        latch_frames(latch)
    }
}

} // verus!
