use termatama::engine::{Button, ButtonState, EngineError, TamaEngine};
use termatama::state::{Snapshot, SnapshotInterrupt, INT_SLOT_NUM, MEM_BUFFER_SIZE};

#[test]
fn engine_can_tick_with_zero_rom() {
    let words = vec![0u16; 4096];
    let mut engine = TamaEngine::new(words, 0).expect("engine init");
    engine.tick_many(16);
}

#[test]
fn engine_init_failure_is_reported() {
    let words = vec![0u16; 16];
    match TamaEngine::new(words, 1) {
        Err(EngineError::InitFailed) => {}
        _ => panic!("expected init failure"),
    }
}

#[test]
fn engine_bookkeeping() {
    let words = vec![0x123u16, 0x456u16];
    let mut engine = TamaEngine::new(words, 0).expect("engine init");
    assert_eq!(engine.rom_len_words(), 2);

    // A live engine owes one core step per tick.
    assert!(engine.tick());
    assert_eq!(engine.tick_many(5), 5);

    let view = engine.state().expect("state view");
    assert_eq!(view.pc, 0);
    assert_eq!(view.tick_counter, 0);

    let action = engine.set_button(Button::Middle, true);
    assert_eq!(action, (Button::Middle, ButtonState::Pressed));
    let action = engine.set_button(Button::Middle, false);
    assert_eq!(action, (Button::Middle, ButtonState::Released));

    // Release is guarded: the foreign call is owed exactly once.
    assert!(engine.release());
    assert!(!engine.release());
    assert!(!engine.tick());
    assert_eq!(engine.tick_many(5), 0);
    assert!(engine.state().is_none());
}

#[test]
fn snapshot_restores_mutated_state() {
    let words = vec![0u16; 64];
    let mut engine = TamaEngine::new(words, 0).expect("engine init");

    engine.cpu.pc = 0x1ABC;
    engine.cpu.x = 0x123;
    engine.cpu.y = 0x456;
    engine.cpu.a = 0xA;
    engine.cpu.b = 0xB;
    engine.cpu.sp = 0x42;
    engine.cpu.memory[0] = 0x11;
    engine.cpu.memory[MEM_BUFFER_SIZE - 1] = 0x99;
    engine.cpu.interrupts[2].vector = 0x66;

    let snap = engine.save_snapshot();

    // Mutate the mirrored state after the save.
    engine.cpu.pc = 0;
    engine.cpu.x = 0;
    engine.cpu.y = 0;
    engine.cpu.a = 0;
    engine.cpu.b = 0;
    engine.cpu.sp = 0;
    engine.cpu.memory[0] = 0;
    engine.cpu.memory[MEM_BUFFER_SIZE - 1] = 0;
    engine.cpu.interrupts[2].vector = 0;

    engine.load_snapshot(&snap);

    assert_eq!(engine.cpu.pc, 0x1ABC);
    assert_eq!(engine.cpu.x, 0x123);
    assert_eq!(engine.cpu.y, 0x456);
    assert_eq!(engine.cpu.a, 0xA);
    assert_eq!(engine.cpu.b, 0xB);
    assert_eq!(engine.cpu.sp, 0x42);
    assert_eq!(engine.cpu.memory[0], 0x11);
    assert_eq!(engine.cpu.memory[MEM_BUFFER_SIZE - 1], 0x99);
    assert_eq!(engine.cpu.interrupts[2].vector, 0x66);
    // The memory buffer matches in full.
    assert_eq!(engine.cpu.memory, snap.memory);
}

#[test]
fn snapshot_with_short_buffers_truncates() {
    let words = vec![0u16; 8];
    let mut engine = TamaEngine::new(words, 0).expect("engine init");
    engine.cpu.memory[2] = 0xAA;
    engine.cpu.memory[3] = 0xBB;
    engine.cpu.interrupts[1].mask_reg = 0x5;

    let mut snap = engine.save_snapshot();
    // A snapshot from another run may carry fewer bytes and slots.
    snap.memory = vec![0x01, 0x02, 0x03];
    snap.interrupts = vec![SnapshotInterrupt {
        factor_flag_reg: 0xF,
        mask_reg: 0xE,
        triggered: 1,
        vector: 0x7D,
    }];
    snap.pc = 0x777;

    engine.load_snapshot(&snap);

    // The overlapping prefix is copied...
    assert_eq!(engine.cpu.pc, 0x777);
    assert_eq!(engine.cpu.memory[0], 0x01);
    assert_eq!(engine.cpu.memory[1], 0x02);
    assert_eq!(engine.cpu.memory[2], 0x03);
    assert_eq!(engine.cpu.interrupts[0].vector, 0x7D);
    // ...and everything past it keeps its old value.
    assert_eq!(engine.cpu.memory[3], 0xBB);
    assert_eq!(engine.cpu.interrupts[1].mask_reg, 0x5);
    assert_eq!(engine.cpu.memory.len(), MEM_BUFFER_SIZE);
    assert_eq!(engine.cpu.interrupts.len(), INT_SLOT_NUM);
}

#[test]
fn snapshot_conversions_preserve_fields() {
    let snap_int = SnapshotInterrupt {
        factor_flag_reg: 1,
        mask_reg: 2,
        triggered: 1,
        vector: 0x40,
    };
    let raw: termatama::state::Interrupt = snap_int.into();
    assert_eq!(raw.factor_flag_reg, 1);
    assert_eq!(raw.mask_reg, 2);
    assert_eq!(raw.triggered, 1);
    assert_eq!(raw.vector, 0x40);
    let back: SnapshotInterrupt = raw.into();
    assert_eq!(back, snap_int);
}

#[test]
fn snapshot_is_cloneable() {
    let words = vec![0u16; 4];
    let engine = TamaEngine::new(words, 0).expect("engine init");
    let snap = engine.save_snapshot();
    let copy: Snapshot = snap.clone();
    assert_eq!(copy.memory, snap.memory);
    assert_eq!(copy.interrupts.len(), snap.interrupts.len());
}
