//! The peripheral bridge: the observable display/audio state that the
//! execution core reports into through its side-effect callbacks.
//!
//! The core's calling convention has no per-instance context, so the
//! running program keeps one shared [`PeripheralState`] behind a lock
//! and forwards each callback to the matching entry point here. Every
//! entry point is total: out-of-range coordinates are silently
//! ignored, exactly as the display hardware would.

use vstd::prelude::*;

verus! {

/// Width of the display matrix in cells.
pub const LCD_WIDTH: usize = 32;

/// Height of the display matrix in cells.
pub const LCD_HEIGHT: usize = 16;

/// Number of icon cells beside the matrix.
pub const ICON_COUNT: usize = 8;

/// The observable peripheral state: a 16x32 boolean display matrix
/// (stored row-major), an 8-element icon set, the audio frequency in
/// decihertz, and the audio-enabled flag.
#[derive(Debug, Clone)]
pub struct PeripheralState {
    lcd: Vec<bool>,
    icons: Vec<bool>,
    frequency_dhz: u32,
    playing: bool,
}

impl PeripheralState {
    /// The display matrix, row-major: cell (x, y) is entry `y * 32 + x`.
    pub closed spec fn lcd(&self) -> Seq<bool> {
        self.lcd@
    }

    /// The icon set.
    pub closed spec fn icons(&self) -> Seq<bool> {
        self.icons@
    }

    /// The audio frequency last reported by the core, in decihertz.
    pub closed spec fn frequency_dhz(&self) -> u32 {
        self.frequency_dhz
    }

    /// Whether the core currently has audio enabled.
    pub closed spec fn playing(&self) -> bool {
        self.playing
    }

    /// Well formed: the matrix and icon set have their fixed sizes.
    pub open spec fn wf(&self) -> bool {
        &&& self.lcd().len() == LCD_HEIGHT * LCD_WIDTH
        &&& self.icons().len() == ICON_COUNT
    }

    /// The bridge state before the core starts: everything off.
    pub fn new() -> (r: PeripheralState)
        ensures
            r.wf(),
            r.lcd() == Seq::new((LCD_HEIGHT * LCD_WIDTH) as nat, |i: int| false),
            r.icons() == Seq::new(ICON_COUNT as nat, |i: int| false),
            r.frequency_dhz() == 0,
            !r.playing(),
    {
        let mut lcd: Vec<bool> = Vec::new();
        let mut i: usize = 0;
        while i < LCD_HEIGHT * LCD_WIDTH
            invariant
                i <= LCD_HEIGHT * LCD_WIDTH,
                lcd@.len() == i,
                forall|k: int| 0 <= k < i ==> !lcd@[k],
            decreases LCD_HEIGHT * LCD_WIDTH - i,
        {
            lcd.push(false);
            i = i + 1;
        }
        let mut icons: Vec<bool> = Vec::new();
        let mut j: usize = 0;
        while j < ICON_COUNT
            invariant
                j <= ICON_COUNT,
                icons@.len() == j,
                forall|k: int| 0 <= k < j ==> !icons@[k],
            decreases ICON_COUNT - j,
        {
            icons.push(false);
            j = j + 1;
        }
        let r = PeripheralState { lcd, icons, frequency_dhz: 0, playing: false };
        proof {
            assert(r.lcd() =~= Seq::new((LCD_HEIGHT * LCD_WIDTH) as nat, |i: int| false));
            assert(r.icons() =~= Seq::new(ICON_COUNT as nat, |i: int| false));
        }
        r
    }
}

/// Side-effect entry point: the core sets one display cell. A nonzero
/// `val` lights the cell. Coordinates outside the 32x16 matrix are
/// silently ignored: the state is left exactly as it was.
pub fn rs_hal_set_lcd_matrix(hal: &mut PeripheralState, x: u8, y: u8, val: u8)
    requires
        old(hal).wf(),
    ensures
        final(hal).wf(),
        (x as int) < LCD_WIDTH && (y as int) < LCD_HEIGHT ==> final(hal).lcd() == old(hal).lcd()
            .update(y as int * LCD_WIDTH as int + x as int, val != 0),
        !((x as int) < LCD_WIDTH && (y as int) < LCD_HEIGHT) ==> final(hal).lcd() == old(
            hal,
        ).lcd(),
        final(hal).icons() == old(hal).icons(),
        final(hal).frequency_dhz() == old(hal).frequency_dhz(),
        final(hal).playing() == old(hal).playing(),
{
    if (x as usize) < LCD_WIDTH && (y as usize) < LCD_HEIGHT {
        let idx: usize = (y as usize) * LCD_WIDTH + (x as usize);
        hal.lcd[idx] = val != 0;
    }
}

/// Side-effect entry point: the core sets one icon cell. A nonzero
/// `val` lights the icon. An index outside the icon set is silently
/// ignored: the state is left exactly as it was.
pub fn rs_hal_set_lcd_icon(hal: &mut PeripheralState, icon: u8, val: u8)
    requires
        old(hal).wf(),
    ensures
        final(hal).wf(),
        (icon as int) < ICON_COUNT ==> final(hal).icons() == old(hal).icons().update(
            icon as int,
            val != 0,
        ),
        !((icon as int) < ICON_COUNT) ==> final(hal).icons() == old(hal).icons(),
        final(hal).lcd() == old(hal).lcd(),
        final(hal).frequency_dhz() == old(hal).frequency_dhz(),
        final(hal).playing() == old(hal).playing(),
{
    if (icon as usize) < ICON_COUNT {
        hal.icons[icon as usize] = val != 0;
    }
}

/// Side-effect entry point: the core reports a new audio frequency in
/// decihertz.
pub fn rs_hal_set_frequency(hal: &mut PeripheralState, freq: u32)
    ensures
        final(hal).frequency_dhz() == freq,
        final(hal).lcd() == old(hal).lcd(),
        final(hal).icons() == old(hal).icons(),
        final(hal).playing() == old(hal).playing(),
        old(hal).wf() ==> final(hal).wf(),
{
    hal.frequency_dhz = freq;
}

/// Side-effect entry point: the core enables or disables audio
/// playback; nonzero enables.
pub fn rs_hal_play_frequency(hal: &mut PeripheralState, enabled: u8)
    ensures
        final(hal).playing() == (enabled != 0),
        final(hal).lcd() == old(hal).lcd(),
        final(hal).icons() == old(hal).icons(),
        final(hal).frequency_dhz() == old(hal).frequency_dhz(),
        old(hal).wf() ==> final(hal).wf(),
{
    hal.playing = enabled != 0;
}

/// The timestamp handed to the core for its internal pacing: the real
/// elapsed microseconds since the bridge was installed, capped at the
/// maximum representable value rather than overflowing. The caller
/// measures the elapsed time and passes it in.
pub fn rs_hal_get_timestamp(elapsed_micros: u128) -> (t: u32)
    ensures
        t as u128 == if elapsed_micros > u32::MAX as u128 {
            u32::MAX as u128
        } else {
            elapsed_micros
        },
{
    if elapsed_micros > u32::MAX as u128 {
        u32::MAX
    } else {
        elapsed_micros as u32
    }
}

/// Side-effect entry point: the core asks the hardware to halt.
/// Intentionally inert — this integration does not stop the host on a
/// core halt; the halted flag travels through the mirrored state.
pub fn rs_hal_halt() {
}

/// Side-effect entry point: the core asks whether a log level is
/// enabled. Logging inside the core callback is not implemented, so
/// the answer is always "no" (zero).
pub fn rs_hal_is_log_enabled(level: i32) -> (r: u8)
    ensures
        r == 0,
{
    let _ = level;
    0
}

/// Side-effect entry point: the core asks to sleep until a timestamp.
/// Intentionally inert — pacing is handled by the scheduler, not
/// inside the core callback.
pub fn rs_hal_sleep_until(ts: u32) {
    let _ = ts;
}

/// Side-effect entry point: the core signals that a frame is complete.
/// Intentionally inert — the scheduler renders once per loop iteration
/// instead.
pub fn rs_hal_update_screen() {
}

/// Side-effect entry point: the core's generic event handler hook.
/// Intentionally inert; the conventional "no event" answer is zero.
pub fn rs_hal_handler() -> (r: i32)
    ensures
        r == 0,
{
    0
}

/// A snapshot copy of the display matrix as rows of cells, for the
/// renderer: entry `[y][x]` is cell (x, y).
pub fn get_lcd_matrix(hal: &PeripheralState) -> (m: Vec<Vec<bool>>)
    requires
        hal.wf(),
    ensures
        m@.len() == LCD_HEIGHT,
        forall|y: int|
            0 <= y < LCD_HEIGHT ==> (#[trigger] m@[y])@.len() == LCD_WIDTH,
        forall|y: int, x: int|
            #![trigger m@[y]@[x]]
            0 <= y < LCD_HEIGHT && 0 <= x < LCD_WIDTH ==> m@[y]@[x] == hal.lcd()[y
                * LCD_WIDTH as int + x],
{
    let mut m: Vec<Vec<bool>> = Vec::new();
    let mut y: usize = 0;
    while y < LCD_HEIGHT
        invariant
            hal.wf(),
            y <= LCD_HEIGHT,
            m@.len() == y,
            forall|r: int| 0 <= r < y ==> (#[trigger] m@[r])@.len() == LCD_WIDTH,
            forall|r: int, x: int|
                #![trigger m@[r]@[x]]
                0 <= r < y && 0 <= x < LCD_WIDTH ==> m@[r]@[x] == hal.lcd()[r
                    * LCD_WIDTH as int + x],
        decreases LCD_HEIGHT - y,
    {
        let mut row: Vec<bool> = Vec::new();
        let mut x: usize = 0;
        while x < LCD_WIDTH
            invariant
                hal.wf(),
                y < LCD_HEIGHT,
                x <= LCD_WIDTH,
                row@.len() == x,
                forall|k: int|
                    0 <= k < x ==> row@[k] == hal.lcd()[y as int * LCD_WIDTH as int + k],
            decreases LCD_WIDTH - x,
        {
            proof {
                assert((y as int) * (LCD_WIDTH as int) + (x as int) < (LCD_HEIGHT as int) * (
                LCD_WIDTH as int)) by (nonlinear_arith)
                    requires
                        0 <= x < LCD_WIDTH as int,
                        0 <= y < LCD_HEIGHT as int,
                ;
            }
            row.push(hal.lcd_cell(y * LCD_WIDTH + x));
            x = x + 1;
        }
        m.push(row);
        y = y + 1;
    }
    m
}

impl PeripheralState {
    /// One raw matrix entry, row-major.
    fn lcd_cell(&self, i: usize) -> (b: bool)
        requires
            i < self.lcd().len(),
        ensures
            b == self.lcd()[i as int],
    {
        self.lcd[i]
    }
}

} // verus!
