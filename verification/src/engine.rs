//! The execution engine: owns the lifecycle bookkeeping around one
//! foreign core instance, decides when the core may be stepped, and
//! carries the bit-exact state-mirroring protocol used for
//! save/restore.
//!
//! The foreign core itself is an external collaborator driven through
//! a fixed call contract (initialize, step, query state, set button,
//! release). The functions here make every decision around those
//! calls from plain values — the caller performs the call the
//! decision asks for and feeds its result back in.

use vstd::prelude::*;

use crate::hal::{get_lcd_matrix, PeripheralState, LCD_HEIGHT, LCD_WIDTH};
use crate::rom::RomDecodeError;
use crate::state::{
    interrupt_of, overwrite_prefix, restored, zero_model, CpuState, Interrupt, Snapshot,
    SnapshotInterrupt, INT_SLOT_NUM, MEM_BUFFER_SIZE,
};

verus! {

/// Why an engine could not be brought up.
#[derive(Debug)]
pub enum EngineError {
    /// The foreign core's initializer reported failure.
    InitFailed,
    /// The program image could not be read or decoded.
    Rom(RomDecodeError),
}

/// The execution modes the foreign core accepts, in its own order.
#[derive(Debug, Clone, Copy, PartialEq, Eq, Structural)]
pub enum ExecMode {
    Pause,
    Run,
    Step,
    Next,
    ToCall,
    ToRet,
}

/// The four hardware buttons.
#[derive(Debug, Clone, Copy, PartialEq, Eq, Structural)]
pub enum Button {
    Left,
    Middle,
    Right,
    Tap,
}

/// A button edge as the foreign core expects it.
#[derive(Debug, Clone, Copy, PartialEq, Eq, Structural)]
pub enum ButtonState {
    Released,
    Pressed,
}

/// A read-only summary of the primary registers, for diagnostics.
#[derive(Debug, Clone, Copy, PartialEq, Eq, Structural)]
pub struct CpuStateView {
    pub pc: u16,
    pub x: u16,
    pub y: u16,
    pub a: u8,
    pub b: u8,
    pub np: u8,
    pub sp: u8,
    pub tick_counter: u32,
}

/// The engine: the program image it was started on, whether the
/// foreign core came up, and the mirrored copy of the core's state.
///
/// Only one engine may be live at a time — the foreign core's state
/// is a process-wide singleton resource.
pub struct TamaEngine {
    /// The program image handed to the foreign initializer; immutable
    /// after load.
    pub rom_words: Vec<u16>,
    /// Whether the foreign core reported successful initialization;
    /// guards stepping and the one release call.
    pub initialized: bool,
    /// The mirrored core state. The embedding program synchronizes it
    /// with the foreign core's own memory at the snapshot boundary:
    /// it fills this mirror before [`TamaEngine::save_snapshot`] and
    /// writes it back after [`TamaEngine::load_snapshot`].
    pub cpu: CpuState,
}

impl TamaEngine {
    /// The program image the engine was started on.
    pub open spec fn rom(&self) -> Seq<u16> {
        self.rom_words@
    }

    /// Whether the foreign core reported successful initialization.
    pub open spec fn is_initialized(&self) -> bool {
        self.initialized
    }

    /// Well formed: the mirrored state has its fixed sizes.
    pub open spec fn wf(&self) -> bool {
        self.cpu.wf()
    }

    /// Builds the engine around the foreign initializer's reported
    /// result: the caller installs the peripheral bridge, starts the
    /// core on `rom_words` in continuous-run mode, and hands in the
    /// flag the initializer returned — zero meaning success, as the
    /// core reports it. Any program image is accepted; only a failed
    /// initializer makes this fail.
    pub fn new(rom_words: Vec<u16>, init_result: u8) -> (r: Result<TamaEngine, EngineError>)
        ensures
            init_result != 0 ==> (r matches Err(EngineError::InitFailed)),
            init_result == 0 ==> (r matches Ok(e) && e.wf() && e.is_initialized() && e.rom()
                == rom_words@ && e.cpu@ == zero_model()),
    {
        if init_result != 0 {
            return Err(EngineError::InitFailed);
        }

        Ok(TamaEngine { rom_words, initialized: true, cpu: CpuState::new() })
    }

    /// Decides one advance of the foreign core: reports whether the
    /// caller should step the core by exactly one execution step. A
    /// no-op — no step owed — when the engine failed to initialize.
    pub fn tick(&mut self) -> (step_core: bool)
        ensures
            *final(self) == *old(self),
            step_core == old(self).is_initialized(),
    {
        if !self.initialized {
            return false;
        }
        true
    }

    /// Decides a batch of `steps` sequential advances: the caller
    /// performs the returned number of single steps, in order, so
    /// that every peripheral callback is observed in order. No
    /// batching shortcut: the count is exactly `steps`, or zero when
    /// the engine failed to initialize.
    pub fn tick_many(&mut self, steps: usize) -> (total: usize)
        ensures
            *final(self) == *old(self),
            total == if old(self).is_initialized() {
                steps
            } else {
                0
            },
    {
        let mut total: usize = 0;
        let mut k: usize = 0;
        while k < steps
            invariant
                *self == *old(self),
                k <= steps,
                total == if old(self).is_initialized() {
                    k as int
                } else {
                    0
                },
            decreases steps - k,
        {
            let stepped = self.tick();
            if stepped {
                total = total + 1;
            }
            k = k + 1;
        }
        total
    }

    /// Maps a press/release edge on one button to the call the
    /// foreign core expects; the caller forwards the pair immediately
    /// — no debouncing, no queuing.
    pub fn set_button(&mut self, button: Button, pressed: bool) -> (action: (Button, ButtonState))
        ensures
            *final(self) == *old(self),
            action == (button, if pressed {
                ButtonState::Pressed
            } else {
                ButtonState::Released
            }),
    {
        let state = if pressed {
            ButtonState::Pressed
        } else {
            ButtonState::Released
        };
        (button, state)
    }

    /// Reads every mirrored field — all interrupt slots and the full
    /// memory buffer included — into a newly allocated snapshot.
    pub fn save_snapshot(&self) -> (snap: Snapshot)
        requires
            self.wf(),
        ensures
            snap.wf(),
            snap@ == self.cpu@,
    {
        let mut interrupts: Vec<SnapshotInterrupt> = Vec::new();
        let mut i: usize = 0;
        while i < INT_SLOT_NUM
            invariant
                self.wf(),
                i <= INT_SLOT_NUM,
                interrupts@.len() == i,
                forall|k: int|
                    0 <= k < i ==> interrupt_of(#[trigger] interrupts@[k])
                        == self.cpu.interrupts@[k],
            decreases INT_SLOT_NUM - i,
        {
            interrupts.push(SnapshotInterrupt::from(self.cpu_interrupt(i)));
            i = i + 1;
        }

        let mut memory: Vec<u8> = Vec::new();
        let mut j: usize = 0;
        while j < MEM_BUFFER_SIZE
            invariant
                self.wf(),
                j <= MEM_BUFFER_SIZE,
                memory@.len() == j,
                forall|k: int| 0 <= k < j ==> memory@[k] == self.cpu.memory@[k],
            decreases MEM_BUFFER_SIZE - j,
        {
            memory.push(self.cpu_memory_byte(j));
            j = j + 1;
        }

        let snap = Snapshot {
            pc: self.cpu.pc,
            x: self.cpu.x,
            y: self.cpu.y,
            a: self.cpu.a,
            b: self.cpu.b,
            np: self.cpu.np,
            sp: self.cpu.sp,
            flags: self.cpu.flags,
            tick_counter: self.cpu.tick_counter,
            clk_timer_2hz_timestamp: self.cpu.clk_timer_2hz_timestamp,
            clk_timer_4hz_timestamp: self.cpu.clk_timer_4hz_timestamp,
            clk_timer_8hz_timestamp: self.cpu.clk_timer_8hz_timestamp,
            clk_timer_16hz_timestamp: self.cpu.clk_timer_16hz_timestamp,
            clk_timer_32hz_timestamp: self.cpu.clk_timer_32hz_timestamp,
            clk_timer_64hz_timestamp: self.cpu.clk_timer_64hz_timestamp,
            clk_timer_128hz_timestamp: self.cpu.clk_timer_128hz_timestamp,
            clk_timer_256hz_timestamp: self.cpu.clk_timer_256hz_timestamp,
            prog_timer_timestamp: self.cpu.prog_timer_timestamp,
            prog_timer_enabled: self.cpu.prog_timer_enabled,
            prog_timer_data: self.cpu.prog_timer_data,
            prog_timer_rld: self.cpu.prog_timer_rld,
            call_depth: self.cpu.call_depth,
            interrupts,
            cpu_halted: self.cpu.cpu_halted,
            memory,
        };
        proof {
            assert(snap@.interrupts =~= self.cpu@.interrupts);
            assert(snap@.memory =~= self.cpu@.memory);
            assert(snap@ =~= self.cpu@);
        }
        snap
    }

    /// Writes every snapshot field back into the mirrored state,
    /// overwriting registers, timers, the halted flag, interrupt
    /// slots (up to the fixed count, or fewer if the snapshot has
    /// fewer) and memory (up to the shorter of the fixed buffer and
    /// the snapshot's buffer — a defined, non-fatal truncation).
    pub fn load_snapshot(&mut self, snap: &Snapshot)
        requires
            old(self).wf(),
        ensures
            final(self).wf(),
            final(self).cpu@ == restored(old(self).cpu@, snap@),
            final(self).rom() == old(self).rom(),
            final(self).is_initialized() == old(self).is_initialized(),
    {
        self.cpu.pc = snap.pc;
        self.cpu.x = snap.x;
        self.cpu.y = snap.y;
        self.cpu.a = snap.a;
        self.cpu.b = snap.b;
        self.cpu.np = snap.np;
        self.cpu.sp = snap.sp;
        self.cpu.flags = snap.flags;
        self.cpu.tick_counter = snap.tick_counter;
        self.cpu.clk_timer_2hz_timestamp = snap.clk_timer_2hz_timestamp;
        self.cpu.clk_timer_4hz_timestamp = snap.clk_timer_4hz_timestamp;
        self.cpu.clk_timer_8hz_timestamp = snap.clk_timer_8hz_timestamp;
        self.cpu.clk_timer_16hz_timestamp = snap.clk_timer_16hz_timestamp;
        self.cpu.clk_timer_32hz_timestamp = snap.clk_timer_32hz_timestamp;
        self.cpu.clk_timer_64hz_timestamp = snap.clk_timer_64hz_timestamp;
        self.cpu.clk_timer_128hz_timestamp = snap.clk_timer_128hz_timestamp;
        self.cpu.clk_timer_256hz_timestamp = snap.clk_timer_256hz_timestamp;
        self.cpu.prog_timer_timestamp = snap.prog_timer_timestamp;
        self.cpu.prog_timer_enabled = snap.prog_timer_enabled;
        self.cpu.prog_timer_data = snap.prog_timer_data;
        self.cpu.prog_timer_rld = snap.prog_timer_rld;
        self.cpu.call_depth = snap.call_depth;
        self.cpu.cpu_halted = snap.cpu_halted;

        let n_int = if snap.interrupts.len() < INT_SLOT_NUM {
            snap.interrupts.len()
        } else {
            INT_SLOT_NUM
        };
        let mut i: usize = 0;
        while i < n_int
            invariant
                self.cpu.interrupts@.len() == INT_SLOT_NUM,
                self.cpu.memory@.len() == MEM_BUFFER_SIZE,
                n_int <= INT_SLOT_NUM,
                n_int <= snap.interrupts@.len(),
                i <= n_int,
                forall|k: int|
                    0 <= k < i ==> self.cpu.interrupts@[k] == interrupt_of(
                        #[trigger] snap.interrupts@[k],
                    ),
                forall|k: int|
                    i <= k < INT_SLOT_NUM ==> self.cpu.interrupts@[k] == old(
                        self,
                    ).cpu.interrupts@[k],
                self.cpu.memory == old(self).cpu.memory,
                same_scalars_as_snapshot(self.cpu, *snap),
                self.rom_words == old(self).rom_words,
                self.initialized == old(self).initialized,
            decreases n_int - i,
        {
            self.cpu.interrupts[i] = Interrupt::from(snap.snapshot_interrupt(i));
            i = i + 1;
        }

        proof {
            assert(self.cpu.interrupts@ =~= overwrite_prefix(
                old(self).cpu@.interrupts,
                snap@.interrupts,
            ));
        }

        let n_mem = if snap.memory.len() < MEM_BUFFER_SIZE {
            snap.memory.len()
        } else {
            MEM_BUFFER_SIZE
        };
        let mut j: usize = 0;
        while j < n_mem
            invariant
                self.cpu.interrupts@.len() == INT_SLOT_NUM,
                self.cpu.memory@.len() == MEM_BUFFER_SIZE,
                n_mem <= MEM_BUFFER_SIZE,
                n_mem <= snap.memory@.len(),
                j <= n_mem,
                forall|k: int| 0 <= k < j ==> self.cpu.memory@[k] == snap.memory@[k],
                forall|k: int|
                    j <= k < MEM_BUFFER_SIZE ==> self.cpu.memory@[k] == old(self).cpu.memory@[k],
                self.cpu.interrupts@ == overwrite_prefix(
                    old(self).cpu@.interrupts,
                    snap@.interrupts,
                ),
                same_scalars_as_snapshot(self.cpu, *snap),
                self.rom_words == old(self).rom_words,
                self.initialized == old(self).initialized,
            decreases n_mem - j,
        {
            self.cpu.memory[j] = snap.memory_byte(j);
            j = j + 1;
        }

        proof {
            assert(self.cpu@.memory =~= overwrite_prefix(old(self).cpu@.memory, snap@.memory));
            assert(self.cpu@ =~= restored(old(self).cpu@, snap@));
        }
    }

    /// The read-only register summary, available once the core is up;
    /// nothing when the core handle is invalid (a failed
    /// initialization).
    pub fn state(&self) -> (r: Option<CpuStateView>)
        ensures
            self.is_initialized() ==> r == Some(
                CpuStateView {
                    pc: self.cpu@.pc,
                    x: self.cpu@.x,
                    y: self.cpu@.y,
                    a: self.cpu@.a,
                    b: self.cpu@.b,
                    np: self.cpu@.np,
                    sp: self.cpu@.sp,
                    tick_counter: self.cpu@.tick_counter,
                },
            ),
            !self.is_initialized() ==> r is None,
    {
        if !self.initialized {
            return None;
        }
        Some(
            CpuStateView {
                pc: self.cpu.pc,
                x: self.cpu.x,
                y: self.cpu.y,
                a: self.cpu.a,
                b: self.cpu.b,
                np: self.cpu.np,
                sp: self.cpu.sp,
                tick_counter: self.cpu.tick_counter,
            },
        )
    }

    /// A snapshot copy of the peripheral bridge's display matrix, as
    /// the renderer consumes it.
    pub fn get_lcd(&self, hal: &PeripheralState) -> (m: Vec<Vec<bool>>)
        requires
            hal.wf(),
        ensures
            m@.len() == LCD_HEIGHT,
            forall|y: int| 0 <= y < LCD_HEIGHT ==> (#[trigger] m@[y])@.len() == LCD_WIDTH,
            forall|y: int, x: int|
                #![trigger m@[y]@[x]]
                0 <= y < LCD_HEIGHT && 0 <= x < LCD_WIDTH ==> m@[y]@[x] == hal.lcd()[y
                    * LCD_WIDTH as int + x],
    {
        get_lcd_matrix(hal)
    }

    /// The length of the loaded program image, in words.
    pub fn rom_len_words(&self) -> (n: usize)
        ensures
            n == self.rom().len(),
    {
        self.rom_words.len()
    }

    /// Marks the engine released and reports whether the foreign core
    /// still held resources: the caller calls the core's release
    /// exactly when this returns true, which makes a double release
    /// harmless.
    pub fn release(&mut self) -> (was_live: bool)
        ensures
            !final(self).is_initialized(),
            was_live == old(self).is_initialized(),
            final(self).cpu == old(self).cpu,
            final(self).rom() == old(self).rom(),
    {
        let was_live = self.initialized;
        self.initialized = false;
        was_live
    }

    fn cpu_interrupt(&self, i: usize) -> (r: Interrupt)
        requires
            i < self.cpu.interrupts@.len(),
        ensures
            r == self.cpu.interrupts@[i as int],
    {
        self.cpu.interrupts[i]
    }

    fn cpu_memory_byte(&self, i: usize) -> (r: u8)
        requires
            i < self.cpu.memory@.len(),
        ensures
            r == self.cpu.memory@[i as int],
    {
        self.cpu.memory[i]
    }
}

impl Snapshot {
    fn snapshot_interrupt(&self, i: usize) -> (r: SnapshotInterrupt)
        requires
            i < self.interrupts@.len(),
        ensures
            r == self.interrupts@[i as int],
    {
        self.interrupts[i]
    }

    fn memory_byte(&self, i: usize) -> (r: u8)
        requires
            i < self.memory@.len(),
        ensures
            r == self.memory@[i as int],
    {
        self.memory[i]
    }
}

/// The scalar registers and timers of the mirror equal the snapshot's.
spec fn same_scalars_as_snapshot(cpu: CpuState, snap: Snapshot) -> bool {
    &&& cpu.pc == snap.pc
    &&& cpu.x == snap.x
    &&& cpu.y == snap.y
    &&& cpu.a == snap.a
    &&& cpu.b == snap.b
    &&& cpu.np == snap.np
    &&& cpu.sp == snap.sp
    &&& cpu.flags == snap.flags
    &&& cpu.tick_counter == snap.tick_counter
    &&& cpu.clk_timer_2hz_timestamp == snap.clk_timer_2hz_timestamp
    &&& cpu.clk_timer_4hz_timestamp == snap.clk_timer_4hz_timestamp
    &&& cpu.clk_timer_8hz_timestamp == snap.clk_timer_8hz_timestamp
    &&& cpu.clk_timer_16hz_timestamp == snap.clk_timer_16hz_timestamp
    &&& cpu.clk_timer_32hz_timestamp == snap.clk_timer_32hz_timestamp
    &&& cpu.clk_timer_64hz_timestamp == snap.clk_timer_64hz_timestamp
    &&& cpu.clk_timer_128hz_timestamp == snap.clk_timer_128hz_timestamp
    &&& cpu.clk_timer_256hz_timestamp == snap.clk_timer_256hz_timestamp
    &&& cpu.prog_timer_timestamp == snap.prog_timer_timestamp
    &&& cpu.prog_timer_enabled == snap.prog_timer_enabled
    &&& cpu.prog_timer_data == snap.prog_timer_data
    &&& cpu.prog_timer_rld == snap.prog_timer_rld
    &&& cpu.call_depth == snap.call_depth
    &&& cpu.cpu_halted == snap.cpu_halted
}

} // verus!
