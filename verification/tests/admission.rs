use interrupts::Cpu;

#[test]
fn power_on_state() {
    let cpu = Cpu::new();
    assert!(!cpu.are_enabled());
    assert!(!cpu.pending);
    assert_eq!(cpu.delivered, 0);
    assert_eq!(cpu.last_trap, None);
}

#[test]
fn toggling_is_observed() {
    let mut cpu = Cpu::new();
    cpu.enable();
    assert!(cpu.are_enabled());
    cpu.disable();
    assert!(!cpu.are_enabled());
    cpu.enable();
    assert!(cpu.are_enabled());
}

#[test]
fn toggling_is_idempotent() {
    let mut cpu = Cpu::new();
    cpu.disable();
    cpu.disable();
    assert!(!cpu.are_enabled());
    cpu.enable();
    cpu.enable();
    assert!(cpu.are_enabled());
    assert_eq!(cpu.delivered, 0);
}

#[test]
fn critical_section_suppresses_and_restores() {
    let mut cpu = Cpu::new();
    cpu.enable();
    cpu.without_interrupts(|c: Cpu| {
        assert!(!c.are_enabled());
        (c, ())
    });
    assert!(cpu.are_enabled());
}

#[test]
fn critical_section_is_pass_through_when_suppressed() {
    let mut cpu = Cpu::new();
    assert!(!cpu.are_enabled());
    cpu.without_interrupts(|c: Cpu| {
        assert!(!c.are_enabled());
        (c, ())
    });
    assert!(!cpu.are_enabled());
}

#[test]
fn nested_critical_sections() {
    let mut cpu = Cpu::new();
    cpu.enable();
    cpu.without_interrupts(|outer: Cpu| {
        let mut outer = outer;
        outer.without_interrupts(|inner: Cpu| {
            assert!(!inner.are_enabled());
            (inner, ())
        });
        // the inner call must not have re-admitted interrupts
        assert!(!outer.are_enabled());
        (outer, ())
    });
    assert!(cpu.are_enabled());
}

#[test]
fn critical_section_returns_result_unchanged() {
    let mut cpu = Cpu::new();
    cpu.enable();
    let r = cpu.without_interrupts(|c: Cpu| (c, 42));
    assert_eq!(r, 42);
}

#[test]
fn external_interrupt_delivered_when_admitted() {
    let mut cpu = Cpu::new();
    cpu.enable();
    cpu.external_interrupt();
    assert_eq!(cpu.delivered, 1);
    assert!(!cpu.pending);
}

#[test]
fn external_interrupt_waits_when_suppressed() {
    let mut cpu = Cpu::new();
    cpu.external_interrupt();
    assert_eq!(cpu.delivered, 0);
    assert!(cpu.pending);
    cpu.enable();
    assert_eq!(cpu.delivered, 1);
    assert!(!cpu.pending);
}

#[test]
fn pending_interrupt_wakes_the_halt() {
    let mut cpu = Cpu::new();
    cpu.disable();
    cpu.external_interrupt();
    assert!(cpu.pending);
    cpu.enable_and_hlt();
    assert!(cpu.are_enabled());
    assert!(!cpu.pending);
    assert_eq!(cpu.delivered, 1);
}

#[test]
fn halt_returns_on_a_fresh_interrupt() {
    let mut cpu = Cpu::new();
    cpu.enable_and_hlt();
    assert!(cpu.are_enabled());
    assert_eq!(cpu.delivered, 1);
}

#[test]
fn interrupt_inside_section_delivered_on_exit() {
    let mut cpu = Cpu::new();
    cpu.enable();
    cpu.without_interrupts(|c: Cpu| {
        let mut c = c;
        c.external_interrupt();
        assert!(c.pending);
        assert_eq!(c.delivered, 0);
        (c, ())
    });
    // restoring admission delivered the interrupt that arrived inside
    assert!(cpu.are_enabled());
    assert!(!cpu.pending);
    assert_eq!(cpu.delivered, 1);
}

#[test]
fn int3_records_the_breakpoint_vector() {
    let mut cpu = Cpu::new();
    cpu.int3();
    assert_eq!(cpu.last_trap, Some(3));
    assert!(!cpu.are_enabled());
    assert!(!cpu.pending);
    assert_eq!(cpu.delivered, 0);
}

#[test]
fn software_interrupt_records_its_vector() {
    let mut cpu = Cpu::new();
    cpu.enable();
    cpu.software_interrupt::<42>();
    assert_eq!(cpu.last_trap, Some(42));
    // a synchronous trap ignores and leaves the admission flag
    assert!(cpu.are_enabled());
    cpu.int3();
    assert_eq!(cpu.last_trap, Some(3));
}
