//! Animations built from the driver's operations: blinking, typewriter, split-flap and the
//! smooth shift of the display window.

use vstd::prelude::*;
use crate::command::{CommandSet, LineMode, MoveDirection, RAMType, ShiftType, State};
use crate::lcd::{Action, Lcd, byte_of_char, char_byte, chars_of, ddram_address, display_control, toggled};
use crate::state::{LcdState, advance, advance_pos, capacity, lemma_advance_step, step};

verus! {

/// How the display window travels to its target column.
#[derive(Clone, Copy, Debug, PartialEq, Eq, Structural)]
pub enum MoveStyle {
    /// Always move to the left (right to left), wrapping if need be.
    ForceMoveLeft,
    /// Always move to the right (left to right), wrapping if need be.
    ForceMoveRight,
    /// Never wrap: move towards the target within `[0, capacity)`.
    NoCrossBoundary,
    /// The shorter way round; at a tie, left to right.
    Shortest,
}

/// How a split-flap write flips its cells.
#[derive(Clone, Copy, Debug, PartialEq, Eq, Structural)]
pub enum FlipStyle {
    /// Flip one cell to its character, then the next.
    Sequential,
    /// Flip all cells together; each stops at its own character.
    Simultaneous,
}

/// The window offset reached from `offset` after `n` one-column shifts in direction `dir`.
pub open spec fn offset_after(line: LineMode, dir: MoveDirection, offset: int, n: int) -> int {
    match dir {
        MoveDirection::LeftToRight => (offset + n) % capacity(line),
        MoveDirection::RightToLeft => (offset - n) % capacity(line),
    }
}

/// The number of one-column shifts, and their direction, that take the window from `before`
/// to `target` in a style.
pub open spec fn shift_plan(style: MoveStyle, before: int, target: int, cap: int) -> (int, MoveDirection) {
    match style {
        MoveStyle::ForceMoveLeft => if target < before {
            (before - target, MoveDirection::RightToLeft)
        } else {
            (cap - (target - before), MoveDirection::RightToLeft)
        },
        MoveStyle::ForceMoveRight => if target > before {
            (target - before, MoveDirection::LeftToRight)
        } else {
            (cap - (before - target), MoveDirection::LeftToRight)
        },
        MoveStyle::NoCrossBoundary => if target > before {
            (target - before, MoveDirection::LeftToRight)
        } else {
            (before - target, MoveDirection::RightToLeft)
        },
        MoveStyle::Shortest => if target > before {
            if target - before <= cap / 2 {
                (target - before, MoveDirection::LeftToRight)
            } else {
                (cap - (target - before), MoveDirection::RightToLeft)
            }
        } else {
            if before - target <= cap / 2 {
                (before - target, MoveDirection::RightToLeft)
            } else {
                (cap - (before - target), MoveDirection::LeftToRight)
            }
        },
    }
}

/// `n` shifts of the window, each after a sleep.
pub open spec fn shift_steps(n: nat, dir: MoveDirection, delay_us: u32, poll: u32) -> Seq<Action>
    decreases n,
{
    if n == 0 {
        seq![]
    } else {
        shift_steps((n - 1) as nat, dir, delay_us, poll) + seq![
            Action::DelayUs(delay_us),
            Action::WaitThenSend(CommandSet::CursorOrDisplayShift(ShiftType::CursorAndDisplay, dir), poll),
        ]
    }
}

/// The first `n` toggles of a blink from state `s`, each after a sleep.
pub open spec fn toggles(s: LcdState, n: nat, interval_us: u32, poll: u32) -> Seq<Action>
    decreases n,
{
    if n == 0 {
        seq![]
    } else {
        let shown = if n % 2 == 1 { toggled(s.display_on) } else { s.display_on };
        toggles(s, (n - 1) as nat, interval_us, poll) + seq![
            Action::DelayUs(interval_us),
            Action::WaitThenSend(display_control(LcdState { display_on: shown, ..s }), poll),
        ]
    }
}

/// A typewriter write: each character after a sleep.
pub open spec fn typewriter_actions(cs: Seq<char>, delay_us: u32, poll: u32) -> Seq<Action>
    decreases cs.len(),
{
    if cs.len() == 0 {
        seq![]
    } else {
        typewriter_actions(cs.drop_last(), delay_us, poll) + seq![
            Action::DelayUs(delay_us),
            Action::WaitThenSend(CommandSet::WriteDataToRAM(crate::lcd::char_byte(cs.last())), poll),
        ]
    }
}

/// Every shift plan takes the window to its target.
pub proof fn lemma_shift_plan_reaches_target(
    line: LineMode,
    style: MoveStyle,
    before: int,
    target: int,
)
    requires
        0 <= before < capacity(line),
        0 <= target < capacity(line),
        before != target,
    ensures
        0 < shift_plan(style, before, target, capacity(line)).0 < capacity(line),
        offset_after(
            line,
            shift_plan(style, before, target, capacity(line)).1,
            before,
            shift_plan(style, before, target, capacity(line)).0,
        ) == target,
{
    let cap = capacity(line);
    let (d, dir) = shift_plan(style, before, target, cap);
    let j = match dir {
        MoveDirection::LeftToRight => before + d,
        MoveDirection::RightToLeft => before - d,
    };
    assert(j == target || j == target + cap || j == target - cap);
    if j == target {
        vstd::arithmetic::div_mod::lemma_small_mod(target as nat, cap as nat);
    } else if j == target + cap {
        vstd::arithmetic::div_mod::lemma_mod_add_multiples_vanish(target, cap);
        vstd::arithmetic::div_mod::lemma_small_mod(target as nat, cap as nat);
    } else {
        vstd::arithmetic::div_mod::lemma_mod_sub_multiples_vanish(target, cap);
        vstd::arithmetic::div_mod::lemma_small_mod(target as nat, cap as nat);
    }
}

/// The shortest plan never takes more than half a line of shifts, and no plan in the other
/// direction takes fewer.
pub proof fn lemma_shortest_plan_is_shortest(line: LineMode, before: int, target: int)
    requires
        0 <= before < capacity(line),
        0 <= target < capacity(line),
        before != target,
    ensures
        shift_plan(MoveStyle::Shortest, before, target, capacity(line)).0 <= capacity(line) / 2,
        shift_plan(MoveStyle::Shortest, before, target, capacity(line)).0 <= shift_plan(
            MoveStyle::ForceMoveLeft,
            before,
            target,
            capacity(line),
        ).0,
        shift_plan(MoveStyle::Shortest, before, target, capacity(line)).0 <= shift_plan(
            MoveStyle::ForceMoveRight,
            before,
            target,
            capacity(line),
        ).0,
{
}


/// A character that a split-flap write can show: printable ASCII from 0x20 to 0x7D.
pub open spec fn flappable(c: char) -> bool {
    0x20 <= c as u32 <= 0x7D
}

/// Whether a split-flap write can show a character.
pub fn is_flappable(c: char) -> (r: bool)
    ensures
        r == flappable(c),
{
    let code = c as u32;
    0x20 <= code && code <= 0x7D
}

/// The bytes of a string's characters.
pub open spec fn char_bytes(cs: Seq<char>) -> Seq<u8> {
    cs.map_values(|c: char| char_byte(c))
}

/// The first byte a cell flips through on its way to `target`: the space, or `max_flip`
/// bytes before the target but never below the space.
pub open spec fn flap_start(target: u8, max_flip: Option<u8>) -> u8 {
    match max_flip {
        None => 0x20,
        Some(m) => if target - m < 0x20 {
            0x20
        } else {
            (target - m) as u8
        },
    }
}

/// The smallest byte of a non-empty sequence.
pub open spec fn min_byte(bs: Seq<u8>) -> u8
    decreases bs.len(),
{
    if bs.len() <= 1 {
        bs[0]
    } else {
        let m = min_byte(bs.drop_last());
        if bs.last() < m {
            bs.last()
        } else {
            m
        }
    }
}

/// The largest byte of a non-empty sequence.
pub open spec fn max_byte(bs: Seq<u8>) -> u8
    decreases bs.len(),
{
    if bs.len() <= 1 {
        bs[0]
    } else {
        let m = max_byte(bs.drop_last());
        if bs.last() > m {
            bs.last()
        } else {
            m
        }
    }
}

/// The first byte of a simultaneous scan from the smallest byte `lo` to the largest `hi`:
/// the space; or, with a limit `max_flip`, `max_flip` bytes before `hi` (never below the
/// space), unless the targets themselves lie further apart, when the scan starts at `lo`.
pub open spec fn shared_start(lo: u8, hi: u8, max_flip: Option<u8>) -> u8 {
    match max_flip {
        None => 0x20,
        Some(m) => if hi - lo > m {
            lo
        } else if hi - m < 0x20 {
            0x20
        } else {
            (hi - m) as u8
        },
    }
}

/// One byte written at one cell, after a sleep.
pub open spec fn flip_at(pos: (u8, u8), byte: u8, delay_us: u32, poll: u32) -> Seq<Action> {
    seq![
        Action::DelayUs(delay_us),
        Action::WaitThenSend(CommandSet::SetDDRAM(ddram_address(pos)), poll),
        Action::WaitThenSend(CommandSet::WriteDataToRAM(byte), poll),
    ]
}

/// The bytes `from`, `from + 1`, ... (`n` of them) written in turn at one cell.
pub open spec fn cell_flips(pos: (u8, u8), from: int, n: nat, delay_us: u32, poll: u32) -> Seq<Action>
    decreases n,
{
    if n == 0 {
        seq![]
    } else {
        cell_flips(pos, from, (n - 1) as nat, delay_us, poll) + flip_at(
            pos,
            (from + n - 1) as u8,
            delay_us,
            poll,
        )
    }
}

/// A sequential split-flap write of `cs` from the cursor of `s`: cell after cell, each
/// after a sleep of `char_delay_us`, flips from its start byte up to its character.
pub open spec fn sequential_flaps(
    s: LcdState,
    cs: Seq<char>,
    max_flip: Option<u8>,
    flip_delay_us: u32,
    char_delay_us: u32,
    poll: u32,
) -> Seq<Action>
    decreases cs.len(),
{
    if cs.len() == 0 {
        seq![]
    } else {
        let target = char_byte(cs.last());
        let from = flap_start(target, max_flip);
        sequential_flaps(s, cs.drop_last(), max_flip, flip_delay_us, char_delay_us, poll)
            + seq![Action::DelayUs(char_delay_us)] + cell_flips(
            advance(s.line, s.direction, s.cursor_pos, cs.len() - 1),
            from as int,
            (target - from + 1) as nat,
            flip_delay_us,
            poll,
        )
    }
}

/// One round of a simultaneous scan over the first `n` cells: `byte` goes to every cell
/// whose target is not below it.
pub open spec fn scan_cells(s: LcdState, bs: Seq<u8>, n: nat, byte: u8, poll: u32) -> Seq<Action>
    decreases n,
{
    if n == 0 {
        seq![]
    } else {
        scan_cells(s, bs, (n - 1) as nat, byte, poll) + if byte <= bs[n - 1] {
            seq![
                Action::WaitThenSend(
                    CommandSet::SetDDRAM(
                        ddram_address(advance(s.line, s.direction, s.cursor_pos, n - 1)),
                    ),
                    poll,
                ),
                Action::WaitThenSend(CommandSet::WriteDataToRAM(byte), poll),
            ]
        } else {
            seq![]
        }
    }
}

/// The first `n` rounds of a simultaneous scan from byte `from`, each after a sleep.
pub open spec fn scan_rounds(
    s: LcdState,
    bs: Seq<u8>,
    from: int,
    n: nat,
    flip_delay_us: u32,
    poll: u32,
) -> Seq<Action>
    decreases n,
{
    if n == 0 {
        seq![]
    } else {
        scan_rounds(s, bs, from, (n - 1) as nat, flip_delay_us, poll) + seq![
            Action::DelayUs(flip_delay_us),
        ] + scan_cells(s, bs, bs.len(), (from + n - 1) as u8, poll)
    }
}

/// A simultaneous split-flap write of `cs` from the cursor of `s`: one shared scan over the
/// bytes, then the cursor is put one cell past the last character.
pub open spec fn simultaneous_flaps(
    s: LcdState,
    cs: Seq<char>,
    max_flip: Option<u8>,
    flip_delay_us: u32,
    poll: u32,
) -> Seq<Action> {
    let bs = char_bytes(cs);
    let hi = max_byte(bs);
    let from = shared_start(min_byte(bs), hi, max_flip);
    (if cs.len() > 0 {
        scan_rounds(s, bs, from as int, (hi - from + 1) as nat, flip_delay_us, poll)
    } else {
        seq![]
    }) + seq![
        Action::WaitThenSend(
            CommandSet::SetDDRAM(
                ddram_address(advance(s.line, s.direction, s.cursor_pos, cs.len() as int)),
            ),
            poll,
        ),
    ]
}

/// A split-flap write of `cs` from state `s`: the cursor is hidden during the effect (if it
/// is shown) and shown again after.
pub open spec fn split_flap_actions(
    s: LcdState,
    cs: Seq<char>,
    fs: FlipStyle,
    max_flip: Option<u8>,
    flip_delay_us: u32,
    char_delay_us: Option<u32>,
    poll: u32,
) -> Seq<Action> {
    let hide = s.cursor_on != State::Off;
    let end = advance(s.line, s.direction, s.cursor_pos, cs.len() as int);
    let during = LcdState { cursor_on: State::Off, ..s };
    (if hide {
        seq![Action::WaitThenSend(display_control(during), poll)]
    } else {
        seq![]
    }) + match fs {
        FlipStyle::Sequential => sequential_flaps(
            during,
            cs,
            max_flip,
            flip_delay_us,
            char_delay_us->0,
            poll,
        ),
        FlipStyle::Simultaneous => simultaneous_flaps(during, cs, max_flip, flip_delay_us, poll),
    } + (if hide {
        seq![
            Action::WaitThenSend(
                display_control(LcdState { cursor_on: State::On, cursor_pos: end, ..s }),
                poll,
            ),
        ]
    } else {
        seq![]
    })
}

fn flap_start_byte(target: u8, max_flip: Option<u8>) -> (r: u8)
    ensures
        r == flap_start(target, max_flip),
{
    match max_flip {
        None => 0x20,
        Some(m) => {
            if m > target || target - m < 0x20 {
                0x20
            } else {
                target - m
            }
        },
    }
}

fn shared_start_byte(lo: u8, hi: u8, max_flip: Option<u8>) -> (r: u8)
    requires
        lo <= hi,
    ensures
        r == shared_start(lo, hi, max_flip),
{
    match max_flip {
        None => 0x20,
        Some(m) => {
            if hi - lo > m {
                lo
            } else if m > hi || hi - m < 0x20 {
                0x20
            } else {
                hi - m
            }
        },
    }
}

fn bytes_of_chars(cs: &Vec<char>) -> (r: Vec<u8>)
    ensures
        r@ == char_bytes(cs@),
        r@.len() == cs@.len(),
        forall|k: int| 0 <= k < cs@.len() ==> #[trigger] r@[k] == char_byte(cs@[k]),
{
    let mut out: Vec<u8> = Vec::new();
    let mut i: usize = 0;
    while i < cs.len()
        invariant
            0 <= i <= cs.len(),
            out@ == char_bytes(cs@.take(i as int)),
        decreases cs.len() - i,
    {
        out.push(byte_of_char(cs[i]));
        i = i + 1;
        assert(out@ =~= char_bytes(cs@.take(i as int)));
    }
    assert(cs@.take(i as int) =~= cs@);
    out
}

fn min_max_bytes(bs: &Vec<u8>) -> (r: (u8, u8))
    requires
        bs.len() > 0,
        forall|i: int| 0 <= i < bs.len() ==> 0x20 <= #[trigger] bs@[i] <= 0x7D,
    ensures
        r.0 == min_byte(bs@),
        r.1 == max_byte(bs@),
        r.0 <= r.1,
        0x20 <= r.0,
        r.1 <= 0x7D,
        forall|i: int| 0 <= i < bs.len() ==> r.0 <= #[trigger] bs@[i] <= r.1,
{
    let mut lo = bs[0];
    let mut hi = bs[0];
    let mut i: usize = 1;
    assert(bs@.take(1).len() == 1);
    while i < bs.len()
        invariant
            1 <= i <= bs.len(),
            lo == min_byte(bs@.take(i as int)),
            hi == max_byte(bs@.take(i as int)),
            lo <= hi,
            0x20 <= lo,
            hi <= 0x7D,
            forall|j: int| 0 <= j < bs.len() ==> 0x20 <= #[trigger] bs@[j] <= 0x7D,
            forall|j: int| 0 <= j < i ==> lo <= #[trigger] bs@[j] <= hi,
        decreases bs.len() - i,
    {
        assert(bs@.take(i as int + 1).drop_last() =~= bs@.take(i as int));
        if bs[i] < lo {
            lo = bs[i];
        }
        if bs[i] > hi {
            hi = bs[i];
        }
        i = i + 1;
    }
    assert(bs@.take(i as int) =~= bs@);
    (lo, hi)
}

/// A position lies on the display RAM of a state.
pub open spec fn pos_valid_at(s: LcdState, pos: (u8, u8)) -> bool {
    crate::state::pos_valid(s.line, pos)
}

/// One more byte in a run of flips at one cell.
proof fn lemma_cell_flips_push(pos: (u8, u8), from: int, n: nat, delay_us: u32, poll: u32)
    ensures
        cell_flips(pos, from, n + 1, delay_us, poll) == cell_flips(pos, from, n, delay_us, poll)
            + flip_at(pos, (from + n) as u8, delay_us, poll),
{
}

/// One more shift in the same direction moves the window one more column.
proof fn lemma_offset_after_step(line: LineMode, dir: MoveDirection, offset: int, n: int)
    requires
        0 <= offset < capacity(line),
    ensures
        0 <= offset_after(line, dir, offset, n) < capacity(line),
        offset_after(line, dir, offset, 0) == offset,
        crate::state::shifted_offset(line, dir, offset_after(line, dir, offset, n) as u8)
            == offset_after(line, dir, offset, n + 1),
{
    let cap = capacity(line);
    vstd::arithmetic::div_mod::lemma_small_mod(offset as nat, cap as nat);
    let j = match dir {
        MoveDirection::LeftToRight => offset + n,
        MoveDirection::RightToLeft => offset - n,
    };
    vstd::arithmetic::div_mod::lemma_mod_bound(j, cap);
    match dir {
        MoveDirection::LeftToRight => {
            vstd::arithmetic::div_mod::lemma_add_mod_noop(j, 1, cap);
            vstd::arithmetic::div_mod::lemma_mod_twice(j, cap);
            vstd::arithmetic::div_mod::lemma_add_mod_noop(j % cap, 1, cap);
        },
        MoveDirection::RightToLeft => {
            vstd::arithmetic::div_mod::lemma_add_mod_noop(j, cap - 1, cap);
            vstd::arithmetic::div_mod::lemma_mod_twice(j, cap);
            vstd::arithmetic::div_mod::lemma_add_mod_noop(j % cap, cap - 1, cap);
            vstd::arithmetic::div_mod::lemma_mod_add_multiples_vanish(j - 1, cap);
        },
    }
}

/// The number of one-column shifts, and their direction, that take the window from
/// `before` to `target` in a style, on lines of `cap` columns.
pub fn plan_window_shift(style: MoveStyle, before: u8, target: u8, cap: u8) -> (r: (u8, MoveDirection))
    requires
        before < cap,
        target < cap,
    ensures
        r.0 == shift_plan(style, before as int, target as int, cap as int).0,
        r.1 == shift_plan(style, before as int, target as int, cap as int).1,
{
    match style {
        MoveStyle::ForceMoveLeft => {
            if target < before {
                (before - target, MoveDirection::RightToLeft)
            } else {
                (cap - (target - before), MoveDirection::RightToLeft)
            }
        },
        MoveStyle::ForceMoveRight => {
            if target > before {
                (target - before, MoveDirection::LeftToRight)
            } else {
                (cap - (before - target), MoveDirection::LeftToRight)
            }
        },
        MoveStyle::NoCrossBoundary => {
            if target > before {
                (target - before, MoveDirection::LeftToRight)
            } else {
                (before - target, MoveDirection::RightToLeft)
            }
        },
        MoveStyle::Shortest => {
            if target > before {
                if target - before <= cap / 2 {
                    (target - before, MoveDirection::LeftToRight)
                } else {
                    (cap - (target - before), MoveDirection::RightToLeft)
                }
            } else {
                if before - target <= cap / 2 {
                    (before - target, MoveDirection::RightToLeft)
                } else {
                    (cap - (before - target), MoveDirection::LeftToRight)
                }
            }
        },
    }
}

impl Lcd {
    /// Blink the whole display: `count` times off and on again (each change after a sleep
    /// of `interval_us`), ending as it began. An endless blink is a loop of
    /// [`Lcd::toggle_display`] run by the caller.
    pub fn full_display_blink(&mut self, count: u32, interval_us: u32)
        requires
            old(self).wf(),
            count > 0,
        ensures
            final(self).wf(),
            final(self).mirror() == old(self).mirror(),
            final(self).poll() == old(self).poll(),
            final(self).queued() == old(self).queued() + toggles(
                old(self).mirror(),
                2 * count as nat,
                interval_us,
                old(self).poll(),
            ),
    {
        let ghost s0 = self.mirror();
        let ghost q0 = self.queued();
        let total: u64 = 2 * count as u64;
        let mut i: u64 = 0;
        while i < total
            invariant
                0 <= i <= total,
                total == 2 * count,
                self.wf(),
                self.poll() == old(self).poll(),
                self.mirror() == (LcdState {
                    display_on: if i % 2 == 1 { toggled(s0.display_on) } else { s0.display_on },
                    ..s0
                }),
                self.queued() == q0 + toggles(s0, i as nat, interval_us, old(self).poll()),
            decreases total - i,
        {
            self.delay_us(interval_us);
            self.toggle_display();
            proof {
                assert((i + 1) % 2 == 1 <==> i % 2 == 0);
                reveal_with_fuel(toggles, 2);
            }
            i = i + 1;
            assert(self.queued() =~= q0 + toggles(s0, i as nat, interval_us, old(self).poll()));
        }
    }

    /// Write a string like a typewriter: each character after a sleep of `delay_us`.
    pub fn typewriter_write(&mut self, s: &str, delay_us: u32)
        requires
            old(self).wf(),
            old(self).mirror().ram_type == RAMType::DDRam,
        ensures
            final(self).wf(),
            final(self).mirror() == (LcdState {
                cursor_pos: crate::state::advance(
                    old(self).mirror().line,
                    old(self).mirror().direction,
                    old(self).mirror().cursor_pos,
                    s@.len() as int,
                ),
                ..old(self).mirror()
            }),
            final(self).poll() == old(self).poll(),
            final(self).queued() == old(self).queued() + typewriter_actions(s@, delay_us, old(self).poll()),
    {
        let chars = crate::lcd::chars_of(s);
        let ghost s0 = self.mirror();
        let ghost q0 = self.queued();
        let mut i: usize = 0;
        proof {
            crate::state::lemma_advance_step(s0.line, s0.direction, s0.cursor_pos, 0);
            assert(chars@.take(0) =~= Seq::<char>::empty());
        }
        while i < chars.len()
            invariant
                0 <= i <= chars.len(),
                chars@ == s@,
                s0.wf(),
                self.wf(),
                self.poll() == old(self).poll(),
                self.mirror() == (LcdState {
                    cursor_pos: crate::state::advance(s0.line, s0.direction, s0.cursor_pos, i as int),
                    ..s0
                }),
                self.mirror().ram_type == RAMType::DDRam,
                self.queued() == q0 + typewriter_actions(chars@.take(i as int), delay_us, old(self).poll()),
            decreases chars.len() - i,
        {
            proof {
                crate::state::lemma_advance_step(s0.line, s0.direction, s0.cursor_pos, i as int);
                assert(chars@.take(i as int + 1).drop_last() =~= chars@.take(i as int));
            }
            self.delay_us(delay_us);
            self.write_char_to_cur(chars[i]);
            i = i + 1;
            assert(self.queued() =~= q0 + typewriter_actions(chars@.take(i as int), delay_us, old(self).poll()));
        }
        assert(chars@.take(i as int) =~= s@);
    }

    /// Move the display window to column `target_pos`, one column per step with a sleep of
    /// `delay_us_per_step` before each, in the given style. The display is set to
    /// `display_state_when_shift` during the move and switched back after. Nothing happens
    /// when the window is already there.
    pub fn shift_display_to_pos(
        &mut self,
        target_pos: u8,
        ms: MoveStyle,
        display_state_when_shift: State,
        delay_us_per_step: u32,
    )
        requires
            old(self).wf(),
            target_pos < capacity(old(self).mirror().line),
        ensures
            final(self).wf(),
            final(self).mirror() == (LcdState { display_offset: target_pos, ..old(self).mirror() }),
            final(self).poll() == old(self).poll(),
            old(self).mirror().display_offset == target_pos ==> final(self).queued() == old(self).queued(),
            old(self).mirror().display_offset != target_pos ==> final(self).queued() == old(self).queued()
                + seq![
                Action::WaitThenSend(
                    display_control(LcdState { display_on: display_state_when_shift, ..old(self).mirror() }),
                    old(self).poll(),
                ),
            ] + shift_steps(
                shift_plan(
                    ms,
                    old(self).mirror().display_offset as int,
                    target_pos as int,
                    capacity(old(self).mirror().line),
                ).0 as nat,
                shift_plan(
                    ms,
                    old(self).mirror().display_offset as int,
                    target_pos as int,
                    capacity(old(self).mirror().line),
                ).1,
                delay_us_per_step,
                old(self).poll(),
            ) + seq![
                Action::WaitThenSend(
                    display_control(LcdState { display_offset: target_pos, ..old(self).mirror() }),
                    old(self).poll(),
                ),
            ],
    {
        let before_pos = self.get_display_offset();
        if before_pos == target_pos {
            return;
        }
        let ghost s0 = self.mirror();
        let ghost q0 = self.queued();
        let line_capacity = self.get_line_capacity();
        let before_state = self.get_display_state();
        self.set_display_state(display_state_when_shift);
        let ghost q1 = self.queued();
        let (distance, direction) = plan_window_shift(ms, before_pos, target_pos, line_capacity);
        proof {
            lemma_shift_plan_reaches_target(s0.line, ms, before_pos as int, target_pos as int);
            lemma_offset_after_step(s0.line, direction, before_pos as int, 0);
        }
        let mut i: u8 = 0;
        while i < distance
            invariant
                0 <= i <= distance,
                s0.wf(),
                before_pos == s0.display_offset,
                self.wf(),
                self.poll() == old(self).poll(),
                self.mirror() == (LcdState {
                    display_offset: offset_after(s0.line, direction, before_pos as int, i as int) as u8,
                    display_on: display_state_when_shift,
                    ..s0
                }),
                self.queued() == q1 + shift_steps(i as nat, direction, delay_us_per_step, old(self).poll()),
            decreases distance - i,
        {
            proof {
                lemma_offset_after_step(s0.line, direction, before_pos as int, i as int);
            }
            self.delay_us(delay_us_per_step);
            self.shift_cursor_or_display(ShiftType::CursorAndDisplay, direction);
            i = i + 1;
            assert(self.queued() =~= q1 + shift_steps(i as nat, direction, delay_us_per_step, old(self).poll()));
        }
        self.set_display_state(before_state);
        assert(self.mirror() == (LcdState { display_offset: target_pos, ..s0 }));
        assert(self.queued() =~= q0 + seq![
            Action::WaitThenSend(
                display_control(LcdState { display_on: display_state_when_shift, ..s0 }),
                old(self).poll(),
            ),
        ] + shift_steps(distance as nat, direction, delay_us_per_step, old(self).poll()) + seq![
            Action::WaitThenSend(
                display_control(LcdState { display_offset: target_pos, ..s0 }),
                old(self).poll(),
            ),
        ]);
    }

    fn flap_sequential(
        &mut self,
        chars: &Vec<char>,
        max_flip_cnt: Option<u8>,
        per_flip_delay_us: u32,
        char_delay: u32,
    )
        requires
            old(self).wf(),
            old(self).mirror().ram_type == RAMType::DDRam,
            forall|k: int| 0 <= k < chars@.len() ==> flappable(#[trigger] chars@[k]),
        ensures
            final(self).wf(),
            final(self).mirror() == (LcdState {
                cursor_pos: advance(
                    old(self).mirror().line,
                    old(self).mirror().direction,
                    old(self).mirror().cursor_pos,
                    chars@.len() as int,
                ),
                ..old(self).mirror()
            }),
            final(self).poll() == old(self).poll(),
            final(self).queued() == old(self).queued() + sequential_flaps(
                old(self).mirror(),
                chars@,
                max_flip_cnt,
                per_flip_delay_us,
                char_delay,
                old(self).poll(),
            ),
    {
        let ghost s0 = self.mirror();
        let ghost q0 = self.queued();
        let ghost poll = self.poll();
        proof {
            lemma_advance_step(s0.line, s0.direction, s0.cursor_pos, 0);
        }
        let mut i: usize = 0;
        assert(chars@.take(0) =~= Seq::<char>::empty());
        while i < chars.len()
            invariant
                0 <= i <= chars.len(),
                forall|k: int| 0 <= k < chars@.len() ==> flappable(#[trigger] chars@[k]),
                s0.wf(),
                s0.ram_type == RAMType::DDRam,
                self.wf(),
                self.poll() == poll,
                self.mirror() == (LcdState {
                    cursor_pos: advance(s0.line, s0.direction, s0.cursor_pos, i as int),
                    ..s0
                }),
                self.queued() == q0 + sequential_flaps(
                    s0,
                    chars@.take(i as int),
                    max_flip_cnt,
                    per_flip_delay_us,
                    char_delay,
                    poll,
                ),
            decreases chars.len() - i,
        {
            let cur_byte = byte_of_char(chars[i]);
            assert(flappable(chars@[i as int]));
            let flap_start_byte = flap_start_byte(cur_byte, max_flip_cnt);
            let cur_pos = self.get_cursor_pos();
            proof {
                lemma_advance_step(s0.line, s0.direction, s0.cursor_pos, i as int);
            }
            self.delay_us(char_delay);
            let ghost q2 = self.queued();
            let mut byte: u8 = flap_start_byte;
            while byte <= cur_byte
                invariant
                    flap_start_byte <= byte <= cur_byte + 1,
                    cur_byte <= 0x7D,
                    s0.wf(),
                    s0.ram_type == RAMType::DDRam,
                    pos_valid_at(s0, cur_pos),
                    self.wf(),
                    self.poll() == poll,
                    self.mirror() == (LcdState {
                        cursor_pos: if byte == flap_start_byte {
                            cur_pos
                        } else {
                            step(s0.line, s0.direction, cur_pos)
                        },
                        ..s0
                    }),
                    self.queued() == q2 + cell_flips(
                        cur_pos,
                        flap_start_byte as int,
                        (byte - flap_start_byte) as nat,
                        per_flip_delay_us,
                        poll,
                    ),
                decreases cur_byte + 1 - byte,
            {
                proof {
                    lemma_cell_flips_push(
                        cur_pos,
                        flap_start_byte as int,
                        (byte - flap_start_byte) as nat,
                        per_flip_delay_us,
                        poll,
                    );
                }
                self.delay_us(per_flip_delay_us);
                self.write_byte_to_pos(byte, cur_pos);
                byte = byte + 1;
                assert(self.queued() =~= q2 + cell_flips(
                    cur_pos,
                    flap_start_byte as int,
                    (byte - flap_start_byte) as nat,
                    per_flip_delay_us,
                    poll,
                ));
            }
            proof {
                assert(chars@.take(i as int + 1).drop_last() =~= chars@.take(i as int));
            }
            i = i + 1;
            assert(self.queued() =~= q0 + sequential_flaps(
                s0,
                chars@.take(i as int),
                max_flip_cnt,
                per_flip_delay_us,
                char_delay,
                poll,
            ));
        }
        assert(chars@.take(i as int) =~= chars@);
    }

    fn flap_simultaneous(&mut self, chars: &Vec<char>, max_flip_cnt: Option<u8>, per_flip_delay_us: u32)
        requires
            old(self).wf(),
            old(self).mirror().ram_type == RAMType::DDRam,
            forall|k: int| 0 <= k < chars@.len() ==> flappable(#[trigger] chars@[k]),
        ensures
            final(self).wf(),
            final(self).mirror() == (LcdState {
                cursor_pos: advance(
                    old(self).mirror().line,
                    old(self).mirror().direction,
                    old(self).mirror().cursor_pos,
                    chars@.len() as int,
                ),
                ..old(self).mirror()
            }),
            final(self).poll() == old(self).poll(),
            final(self).queued() == old(self).queued() + simultaneous_flaps(
                old(self).mirror(),
                chars@,
                max_flip_cnt,
                per_flip_delay_us,
                old(self).poll(),
            ),
    {
        let ghost s0 = self.mirror();
        let ghost q0 = self.queued();
        let ghost poll = self.poll();
        let start_pos = self.get_cursor_pos();
        let line = self.get_line_mode();
        let dir = self.get_direction();
        let bytes = bytes_of_chars(chars);
        if bytes.len() > 0 {
            assert forall|k: int| 0 <= k < bytes@.len() implies 0x20 <= #[trigger] bytes@[k] <= 0x7D by {
                assert(flappable(chars@[k]));
            }
            let (min_char_byte, max_char_byte) = min_max_bytes(&bytes);
            let flap_start_byte = shared_start_byte(min_char_byte, max_char_byte, max_flip_cnt);
            let mut cur_byte: u8 = flap_start_byte;
            while cur_byte <= max_char_byte
                invariant
                    flap_start_byte <= cur_byte <= max_char_byte + 1,
                    max_char_byte <= 0x7D,
                    bytes@ == char_bytes(chars@),
                    s0.wf(),
                    s0.ram_type == RAMType::DDRam,
                    start_pos == s0.cursor_pos,
                    line == s0.line,
                    dir == s0.direction,
                    self.wf(),
                    self.poll() == poll,
                    self.mirror() == (LcdState { cursor_pos: self.mirror().cursor_pos, ..s0 }),
                    self.queued() == q0 + scan_rounds(
                        s0,
                        bytes@,
                        flap_start_byte as int,
                        (cur_byte - flap_start_byte) as nat,
                        per_flip_delay_us,
                        poll,
                    ),
                decreases max_char_byte + 1 - cur_byte,
            {
                self.delay_us(per_flip_delay_us);
                let ghost q3 = self.queued();
                let mut j: usize = 0;
                while j < bytes.len()
                    invariant
                        0 <= j <= bytes.len(),
                        s0.wf(),
                        s0.ram_type == RAMType::DDRam,
                        start_pos == s0.cursor_pos,
                        line == s0.line,
                        dir == s0.direction,
                        self.wf(),
                        self.poll() == poll,
                        self.mirror() == (LcdState { cursor_pos: self.mirror().cursor_pos, ..s0 }),
                        self.queued() == q3 + scan_cells(s0, bytes@, j as nat, cur_byte, poll),
                    decreases bytes.len() - j,
                {
                    if cur_byte <= bytes[j] {
                        let cur_pos = advance_pos(line, dir, start_pos, j);
                        self.write_byte_to_pos(cur_byte, cur_pos);
                    }
                    j = j + 1;
                    assert(self.queued() =~= q3 + scan_cells(s0, bytes@, j as nat, cur_byte, poll));
                }
                cur_byte = cur_byte + 1;
                assert(self.queued() =~= q0 + scan_rounds(
                    s0,
                    bytes@,
                    flap_start_byte as int,
                    (cur_byte - flap_start_byte) as nat,
                    per_flip_delay_us,
                    poll,
                ));
            }
        }
        // the last cell touched depends on the targets: put the cursor past the end
        let end_pos = advance_pos(line, dir, start_pos, chars.len());
        self.set_cursor_pos(end_pos);
    }

    /// Split-flap write of a string from the cursor: each cell flips through the bytes up to
    /// its character (see [`FlipStyle`]), `per_flip_delay_us` before each flip. A sequential
    /// write also sleeps `per_char_flip_delay_us` before each cell; a limit `max_flip_cnt`
    /// shortens the runs. The cursor is hidden during the effect and ends one cell past the
    /// last character.
    pub fn split_flap_write(
        &mut self,
        s: &str,
        fs: FlipStyle,
        max_flip_cnt: Option<u8>,
        per_flip_delay_us: u32,
        per_char_flip_delay_us: Option<u32>,
    )
        requires
            old(self).wf(),
            old(self).mirror().ram_type == RAMType::DDRam,
            forall|i: int| 0 <= i < s@.len() ==> flappable(#[trigger] s@[i]),
            fs == FlipStyle::Sequential ==> per_char_flip_delay_us.is_some(),
        ensures
            final(self).wf(),
            final(self).mirror() == (LcdState {
                cursor_pos: advance(
                    old(self).mirror().line,
                    old(self).mirror().direction,
                    old(self).mirror().cursor_pos,
                    s@.len() as int,
                ),
                ..old(self).mirror()
            }),
            final(self).poll() == old(self).poll(),
            final(self).queued() == old(self).queued() + split_flap_actions(
                old(self).mirror(),
                s@,
                fs,
                max_flip_cnt,
                per_flip_delay_us,
                per_char_flip_delay_us,
                old(self).poll(),
            ),
    {
        let chars = chars_of(s);
        let ghost s0 = self.mirror();
        let ghost q0 = self.queued();
        let mut cursor_state_changed = false;
        // the cursor would jump between the cells: hide it during the effect
        if self.get_cursor_state() != State::Off {
            self.set_cursor_state(State::Off);
            cursor_state_changed = true;
        }
        assert(self.mirror() == (LcdState { cursor_on: State::Off, ..s0 }));
        match fs {
            FlipStyle::Sequential => {
                let char_delay = match per_char_flip_delay_us {
                    Some(d) => d,
                    None => 0,
                };
                self.flap_sequential(&chars, max_flip_cnt, per_flip_delay_us, char_delay);
            },
            FlipStyle::Simultaneous => {
                self.flap_simultaneous(&chars, max_flip_cnt, per_flip_delay_us);
            },
        }
        if cursor_state_changed {
            self.set_cursor_state(State::On);
        }
        assert(self.queued() =~= q0 + split_flap_actions(
            s0,
            s@,
            fs,
            max_flip_cnt,
            per_flip_delay_us,
            per_char_flip_delay_us,
            old(self).poll(),
        ));
    }
}

} // verus!
