//! The mirrored core state and its fully-owned, serializable snapshot.
//!
//! The execution core keeps its register file in its own memory; this
//! module models that state as plain values so that the save/restore
//! protocol — the only sanctioned way to read or write it — can be
//! stated and checked field by field.

use vstd::prelude::*;

verus! {

/// Number of bytes in the core's fixed memory buffer.
pub const MEM_BUFFER_SIZE: usize = 464;

/// Number of interrupt slots the core exposes.
pub const INT_SLOT_NUM: usize = 6;

/// One interrupt slot as the core lays it out: a 4-bit factor-flag
/// register, a 4-bit mask register, a triggered flag and an 8-bit
/// vector. Flags are bytes, zero meaning false, as in the core itself.
#[derive(Debug, Clone, Copy, PartialEq, Eq, Structural)]
pub struct Interrupt {
    pub factor_flag_reg: u8,
    pub mask_reg: u8,
    pub triggered: u8,
    pub vector: u8,
}

/// An interrupt slot as stored in a snapshot; the fields mirror
/// [`Interrupt`] one for one.
#[derive(Debug, Clone, Copy, PartialEq, Eq, Structural)]
pub struct SnapshotInterrupt {
    pub factor_flag_reg: u8,
    pub mask_reg: u8,
    pub triggered: u8,
    pub vector: u8,
}

impl From<Interrupt> for SnapshotInterrupt {
    fn from(i: Interrupt) -> (r: Self) {
        SnapshotInterrupt {
            factor_flag_reg: i.factor_flag_reg,
            mask_reg: i.mask_reg,
            triggered: i.triggered,
            vector: i.vector,
        }
    }
}

impl vstd::std_specs::convert::FromSpecImpl<Interrupt> for SnapshotInterrupt {
    open spec fn obeys_from_spec() -> bool {
        true
    }

    open spec fn from_spec(i: Interrupt) -> Self {
        SnapshotInterrupt {
            factor_flag_reg: i.factor_flag_reg,
            mask_reg: i.mask_reg,
            triggered: i.triggered,
            vector: i.vector,
        }
    }
}

impl From<SnapshotInterrupt> for Interrupt {
    fn from(i: SnapshotInterrupt) -> (r: Self) {
        Interrupt {
            factor_flag_reg: i.factor_flag_reg,
            mask_reg: i.mask_reg,
            triggered: i.triggered,
            vector: i.vector,
        }
    }
}

impl vstd::std_specs::convert::FromSpecImpl<SnapshotInterrupt> for Interrupt {
    open spec fn obeys_from_spec() -> bool {
        true
    }

    open spec fn from_spec(i: SnapshotInterrupt) -> Self {
        Interrupt {
            factor_flag_reg: i.factor_flag_reg,
            mask_reg: i.mask_reg,
            triggered: i.triggered,
            vector: i.vector,
        }
    }
}

/// The interrupt slot a snapshot slot stands for.
pub open spec fn interrupt_of(si: SnapshotInterrupt) -> Interrupt {
    Interrupt {
        factor_flag_reg: si.factor_flag_reg,
        mask_reg: si.mask_reg,
        triggered: si.triggered,
        vector: si.vector,
    }
}

/// The mathematical view shared by the live mirrored state and the
/// snapshot: every register, timer timestamp, the interrupt slots and
/// the memory bytes.
#[verifier::ext_equal]
pub struct CpuModel {
    pub pc: u16,
    pub x: u16,
    pub y: u16,
    pub a: u8,
    pub b: u8,
    pub np: u8,
    pub sp: u8,
    pub flags: u8,
    pub tick_counter: u32,
    pub clk_timer_2hz_timestamp: u32,
    pub clk_timer_4hz_timestamp: u32,
    pub clk_timer_8hz_timestamp: u32,
    pub clk_timer_16hz_timestamp: u32,
    pub clk_timer_32hz_timestamp: u32,
    pub clk_timer_64hz_timestamp: u32,
    pub clk_timer_128hz_timestamp: u32,
    pub clk_timer_256hz_timestamp: u32,
    pub prog_timer_timestamp: u32,
    pub prog_timer_enabled: u8,
    pub prog_timer_data: u8,
    pub prog_timer_rld: u8,
    pub call_depth: u32,
    pub interrupts: Seq<Interrupt>,
    pub cpu_halted: u8,
    pub memory: Seq<u8>,
}

/// A model is well formed when it has exactly the fixed number of
/// interrupt slots and memory bytes.
pub open spec fn model_wf(m: CpuModel) -> bool {
    &&& m.interrupts.len() == INT_SLOT_NUM
    &&& m.memory.len() == MEM_BUFFER_SIZE
}

/// The live mirror of the core's state, held as plain values. The
/// foreign core's own copy is synchronized with this one only through
/// the snapshot boundary functions of the engine.
#[derive(Debug, Clone)]
pub struct CpuState {
    pub pc: u16,
    pub x: u16,
    pub y: u16,
    pub a: u8,
    pub b: u8,
    pub np: u8,
    pub sp: u8,
    pub flags: u8,
    pub tick_counter: u32,
    pub clk_timer_2hz_timestamp: u32,
    pub clk_timer_4hz_timestamp: u32,
    pub clk_timer_8hz_timestamp: u32,
    pub clk_timer_16hz_timestamp: u32,
    pub clk_timer_32hz_timestamp: u32,
    pub clk_timer_64hz_timestamp: u32,
    pub clk_timer_128hz_timestamp: u32,
    pub clk_timer_256hz_timestamp: u32,
    pub prog_timer_timestamp: u32,
    pub prog_timer_enabled: u8,
    pub prog_timer_data: u8,
    pub prog_timer_rld: u8,
    pub call_depth: u32,
    pub interrupts: Vec<Interrupt>,
    pub cpu_halted: u8,
    pub memory: Vec<u8>,
}

impl View for CpuState {
    type V = CpuModel;

    open spec fn view(&self) -> CpuModel {
        CpuModel {
            pc: self.pc,
            x: self.x,
            y: self.y,
            a: self.a,
            b: self.b,
            np: self.np,
            sp: self.sp,
            flags: self.flags,
            tick_counter: self.tick_counter,
            clk_timer_2hz_timestamp: self.clk_timer_2hz_timestamp,
            clk_timer_4hz_timestamp: self.clk_timer_4hz_timestamp,
            clk_timer_8hz_timestamp: self.clk_timer_8hz_timestamp,
            clk_timer_16hz_timestamp: self.clk_timer_16hz_timestamp,
            clk_timer_32hz_timestamp: self.clk_timer_32hz_timestamp,
            clk_timer_64hz_timestamp: self.clk_timer_64hz_timestamp,
            clk_timer_128hz_timestamp: self.clk_timer_128hz_timestamp,
            clk_timer_256hz_timestamp: self.clk_timer_256hz_timestamp,
            prog_timer_timestamp: self.prog_timer_timestamp,
            prog_timer_enabled: self.prog_timer_enabled,
            prog_timer_data: self.prog_timer_data,
            prog_timer_rld: self.prog_timer_rld,
            call_depth: self.call_depth,
            interrupts: self.interrupts@,
            cpu_halted: self.cpu_halted,
            memory: self.memory@,
        }
    }
}

impl CpuState {
    /// Well formed: the fixed slot and buffer sizes hold.
    pub open spec fn wf(&self) -> bool {
        model_wf(self@)
    }

    /// A freshly powered-on mirror: every register, slot and byte zero.
    pub fn new() -> (r: CpuState)
        ensures
            r.wf(),
            r@ == zero_model(),
    {
        let mut interrupts: Vec<Interrupt> = Vec::new();
        let mut i: usize = 0;
        while i < INT_SLOT_NUM
            invariant
                i <= INT_SLOT_NUM,
                interrupts@.len() == i,
                forall|k: int|
                    0 <= k < i ==> interrupts@[k] == (Interrupt {
                        factor_flag_reg: 0u8,
                        mask_reg: 0u8,
                        triggered: 0u8,
                        vector: 0u8,
                    }),
            decreases INT_SLOT_NUM - i,
        {
            interrupts.push(Interrupt { factor_flag_reg: 0, mask_reg: 0, triggered: 0, vector: 0 });
            i = i + 1;
        }

        let mut memory: Vec<u8> = Vec::new();
        let mut j: usize = 0;
        while j < MEM_BUFFER_SIZE
            invariant
                j <= MEM_BUFFER_SIZE,
                memory@.len() == j,
                forall|k: int| 0 <= k < j ==> memory@[k] == 0u8,
            decreases MEM_BUFFER_SIZE - j,
        {
            memory.push(0);
            j = j + 1;
        }

        let r = CpuState {
            pc: 0,
            x: 0,
            y: 0,
            a: 0,
            b: 0,
            np: 0,
            sp: 0,
            flags: 0,
            tick_counter: 0,
            clk_timer_2hz_timestamp: 0,
            clk_timer_4hz_timestamp: 0,
            clk_timer_8hz_timestamp: 0,
            clk_timer_16hz_timestamp: 0,
            clk_timer_32hz_timestamp: 0,
            clk_timer_64hz_timestamp: 0,
            clk_timer_128hz_timestamp: 0,
            clk_timer_256hz_timestamp: 0,
            prog_timer_timestamp: 0,
            prog_timer_enabled: 0,
            prog_timer_data: 0,
            prog_timer_rld: 0,
            call_depth: 0,
            interrupts,
            cpu_halted: 0,
            memory,
        };
        proof {
            assert(r@ =~= zero_model());
        }
        r
    }
}

/// The model of a freshly powered-on state: all zero.
pub open spec fn zero_model() -> CpuModel {
    CpuModel {
        pc: 0,
        x: 0,
        y: 0,
        a: 0,
        b: 0,
        np: 0,
        sp: 0,
        flags: 0,
        tick_counter: 0,
        clk_timer_2hz_timestamp: 0,
        clk_timer_4hz_timestamp: 0,
        clk_timer_8hz_timestamp: 0,
        clk_timer_16hz_timestamp: 0,
        clk_timer_32hz_timestamp: 0,
        clk_timer_64hz_timestamp: 0,
        clk_timer_128hz_timestamp: 0,
        clk_timer_256hz_timestamp: 0,
        prog_timer_timestamp: 0,
        prog_timer_enabled: 0,
        prog_timer_data: 0,
        prog_timer_rld: 0,
        call_depth: 0,
        interrupts: Seq::new(INT_SLOT_NUM as nat, |i: int| Interrupt {
            factor_flag_reg: 0u8,
            mask_reg: 0u8,
            triggered: 0u8,
            vector: 0u8,
        }),
        cpu_halted: 0,
        memory: Seq::new(MEM_BUFFER_SIZE as nat, |i: int| 0u8),
    }
}

/// A fully-owned, serializable copy of the mirrored state, used for
/// persistence across process runs.
#[derive(Debug, Clone)]
pub struct Snapshot {
    pub pc: u16,
    pub x: u16,
    pub y: u16,
    pub a: u8,
    pub b: u8,
    pub np: u8,
    pub sp: u8,
    pub flags: u8,
    pub tick_counter: u32,
    pub clk_timer_2hz_timestamp: u32,
    pub clk_timer_4hz_timestamp: u32,
    pub clk_timer_8hz_timestamp: u32,
    pub clk_timer_16hz_timestamp: u32,
    pub clk_timer_32hz_timestamp: u32,
    pub clk_timer_64hz_timestamp: u32,
    pub clk_timer_128hz_timestamp: u32,
    pub clk_timer_256hz_timestamp: u32,
    pub prog_timer_timestamp: u32,
    pub prog_timer_enabled: u8,
    pub prog_timer_data: u8,
    pub prog_timer_rld: u8,
    pub call_depth: u32,
    pub interrupts: Vec<SnapshotInterrupt>,
    pub cpu_halted: u8,
    pub memory: Vec<u8>,
}

impl View for Snapshot {
    type V = CpuModel;

    open spec fn view(&self) -> CpuModel {
        CpuModel {
            pc: self.pc,
            x: self.x,
            y: self.y,
            a: self.a,
            b: self.b,
            np: self.np,
            sp: self.sp,
            flags: self.flags,
            tick_counter: self.tick_counter,
            clk_timer_2hz_timestamp: self.clk_timer_2hz_timestamp,
            clk_timer_4hz_timestamp: self.clk_timer_4hz_timestamp,
            clk_timer_8hz_timestamp: self.clk_timer_8hz_timestamp,
            clk_timer_16hz_timestamp: self.clk_timer_16hz_timestamp,
            clk_timer_32hz_timestamp: self.clk_timer_32hz_timestamp,
            clk_timer_64hz_timestamp: self.clk_timer_64hz_timestamp,
            clk_timer_128hz_timestamp: self.clk_timer_128hz_timestamp,
            clk_timer_256hz_timestamp: self.clk_timer_256hz_timestamp,
            prog_timer_timestamp: self.prog_timer_timestamp,
            prog_timer_enabled: self.prog_timer_enabled,
            prog_timer_data: self.prog_timer_data,
            prog_timer_rld: self.prog_timer_rld,
            call_depth: self.call_depth,
            interrupts: self.interrupts@.map_values(|si: SnapshotInterrupt| interrupt_of(si)),
            cpu_halted: self.cpu_halted,
            memory: self.memory@,
        }
    }
}

impl Snapshot {
    /// Well formed: the fixed slot and buffer sizes hold.
    pub open spec fn wf(&self) -> bool {
        model_wf(self@)
    }
}

/// The model after every snapshot field is written back into a live
/// state: scalar registers and timers are overwritten outright, while
/// interrupt slots and memory bytes are overwritten only on the
/// overlapping prefix and keep their old values past it.
pub open spec fn restored(live: CpuModel, snap: CpuModel) -> CpuModel {
    CpuModel {
        interrupts: overwrite_prefix(live.interrupts, snap.interrupts),
        memory: overwrite_prefix(live.memory, snap.memory),
        ..snap
    }
}

/// `dst` with its first `min(dst.len(), src.len())` entries replaced
/// by those of `src`.
pub open spec fn overwrite_prefix<T>(dst: Seq<T>, src: Seq<T>) -> Seq<T> {
    Seq::new(dst.len(), |i: int| if i < src.len() { src[i] } else { dst[i] })
}

/// Law: restoring a well-formed snapshot into any well-formed live
/// state reproduces the snapshot exactly — every register, every
/// interrupt slot and the full memory buffer.
pub proof fn lemma_snapshot_restore(live: CpuModel, saved: CpuModel)
    requires
        model_wf(live),
        model_wf(saved),
    ensures
        restored(live, saved) == saved,
{
    assert(overwrite_prefix(live.interrupts, saved.interrupts) =~= saved.interrupts);
    assert(overwrite_prefix(live.memory, saved.memory) =~= saved.memory);
    assert(restored(live, saved) =~= saved);
}

} // verus!
