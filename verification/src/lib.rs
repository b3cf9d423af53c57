//! Single-core interrupt admission control, verified over an explicit model
//! of the processor state it touches.
//!
//! A [`Cpu`] value stands for the architecturally visible interrupt state of
//! one logical core: the interrupt-enable flag of the status register, whether
//! a maskable interrupt is waiting behind a cleared flag, how many
//! asynchronous interrupts have been delivered, and the vector of the last
//! synchronous trap. Every operation of the admission surface — querying the
//! flag, toggling it, running work with interrupts suppressed, atomically
//! re-admitting and halting, and raising software traps — is an executable
//! method whose contract pins the successor state exactly, through the
//! `after_*` spec functions. The properties that make the surface safe to
//! build on (idempotent toggling, suppression and restoration around a
//! critical section, no lost wakeup across the re-admit-and-halt pair) are
//! proved as lemmas over those same functions.
//!
//! The model is strictly core-local: it offers no cross-core exclusion, and a
//! suppressed section protects only against asynchronous preemption of the
//! executing core.

use vstd::prelude::*;

verus! {

/// The interrupt state of one logical CPU core.
///
/// The hardware truth is the status-register flag itself; this type is its
/// model. Reads go straight to the field — nothing is cached beside it.
pub struct Cpu {
    /// The interrupt-enable flag: `true` when asynchronous maskable
    /// interrupts are admitted for delivery to this core.
    pub enabled: bool,
    /// Whether a maskable interrupt has arrived while the flag was clear and
    /// is waiting to be delivered once interrupts are re-admitted.
    pub pending: bool,
    /// How many asynchronous interrupts have been delivered to this core.
    pub delivered: u64,
    /// The vector of the most recent synchronous trap raised on this core,
    /// if any.
    pub last_trap: Option<u8>,
}

/// The state after the admission flag is set.
///
/// Re-admitting delivers an interrupt that was left waiting behind the
/// cleared flag.
pub open spec fn after_enable(c: Cpu) -> Cpu {
    Cpu {
        enabled: true,
        pending: false,
        delivered: if c.pending {
            (c.delivered + 1) as u64
        } else {
            c.delivered
        },
        last_trap: c.last_trap,
    }
}

/// The state after the admission flag is cleared. Nothing else moves: a
/// waiting interrupt stays waiting.
pub open spec fn after_disable(c: Cpu) -> Cpu {
    Cpu { enabled: false, ..c }
}

/// The state after an asynchronous maskable interrupt arrives from outside
/// the core: delivered at once if admitted, otherwise left waiting behind
/// the cleared flag.
pub open spec fn after_external(c: Cpu) -> Cpu {
    if c.enabled {
        Cpu { delivered: (c.delivered + 1) as u64, ..c }
    } else {
        Cpu { pending: true, ..c }
    }
}

/// The state a critical section leaves behind, given the state `c` at its
/// entry and the state `mid` in which the suppressed work finished: if
/// interrupts were admitted at entry they are re-admitted on the way out,
/// otherwise the work's final state stands as it is.
pub open spec fn after_critical_section(c: Cpu, mid: Cpu) -> Cpu {
    if c.enabled {
        after_enable(mid)
    } else {
        mid
    }
}

/// The state after the fused re-admit-and-halt pair completes: the flag is
/// set, and the halt has returned, which it does only once an interrupt is
/// delivered — the one that was already waiting if there was one, otherwise
/// the first to arrive during the halt.
pub open spec fn after_enable_and_hlt(c: Cpu) -> Cpu {
    Cpu { enabled: true, pending: false, delivered: (c.delivered + 1) as u64, last_trap: c.last_trap }
}

/// The state after a synchronous trap on the given vector: the trap is
/// dispatched regardless of the admission flag, which — like the rest of the
/// asynchronous bookkeeping — is untouched.
pub open spec fn after_trap(c: Cpu, vector: u8) -> Cpu {
    Cpu { last_trap: Some(vector), ..c }
}

impl Cpu {
    /// A core as it comes out of reset: interrupts not admitted, nothing
    /// pending, nothing delivered, no trap raised.
    pub fn new() -> (c: Cpu)
        ensures
            !c.enabled,
            !c.pending,
            c.delivered == 0,
            c.last_trap is None,
    {
        Cpu { enabled: false, pending: false, delivered: 0, last_trap: None }
    }

    /// Returns whether interrupts are enabled, by reading the live flag.
    /// No side effects.
    pub fn are_enabled(&self) -> (r: bool)
        ensures
            r == self.enabled,
    {
        self.enabled
    }

    /// Enable interrupts: unconditionally set the admission flag.
    ///
    /// An interrupt that arrived while the flag was clear is delivered as
    /// part of re-admission. Calling this when interrupts are already
    /// enabled changes nothing.
    pub fn enable(&mut self)
        requires
            old(self).pending ==> old(self).delivered < u64::MAX,
        ensures
            *final(self) == after_enable(*old(self)),
    {
        if self.pending {
            self.pending = false;
            self.delivered = self.delivered + 1;
        }
        self.enabled = true;
    }

    /// Disable interrupts: unconditionally clear the admission flag.
    ///
    /// Calling this when interrupts are already disabled changes nothing.
    pub fn disable(&mut self)
        ensures
            *final(self) == after_disable(*old(self)),
    {
        self.enabled = false;
    }

    /// An asynchronous maskable interrupt arrives from outside the core
    /// (a device, a timer, another core's notification).
    ///
    /// If interrupts are admitted it is delivered immediately; otherwise it
    /// waits behind the cleared flag until they are re-admitted.
    pub fn external_interrupt(&mut self)
        requires
            old(self).enabled ==> old(self).delivered < u64::MAX,
        ensures
            *final(self) == after_external(*old(self)),
    {
        if self.enabled {
            self.delivered = self.delivered + 1;
        } else {
            self.pending = true;
        }
    }

    /// Atomically enable interrupts and halt the core until one is
    /// delivered.
    ///
    /// The re-admit instruction defers actual delivery until after the next
    /// instruction completes (the interrupt shadow), so no interrupt can
    /// slip in between re-admission and the halt. An interrupt that arrived
    /// while the flag was clear is therefore never lost: it is exactly what
    /// wakes the halt. When nothing was waiting, the call returns upon the
    /// first interrupt delivered during the halt.
    ///
    /// On some processors the shadow does not cover non-maskable
    /// interrupts; detecting an NMI that fired between the pair is the
    /// business of the exception handler, not of this surface.
    pub fn enable_and_hlt(&mut self)
        requires
            old(self).delivered < u64::MAX,
        ensures
            *final(self) == after_enable_and_hlt(*old(self)),
    {
        self.enabled = true;
        self.pending = false;
        self.delivered = self.delivered + 1;
    }

    /// Run the given work with interrupts disabled, then restore the
    /// admission state found at entry, and hand the work's result through
    /// unchanged.
    ///
    /// The work takes the core in a state with the flag cleared —
    /// `after_disable` of the entry state — and gives it back together with
    /// its result. If interrupts were admitted at entry they are suppressed
    /// around the work and re-admitted afterwards; if they were already
    /// suppressed, the call is a transparent pass-through and performs no
    /// restoration on exit, which is what keeps an enclosing suppressed
    /// section intact across nested calls.
    ///
    /// The restoration is keyed to the state read at entry. Work that sets
    /// the admission flag itself hands back a state in which the flag no
    /// longer matches that bookkeeping; the contract still pins the outcome
    /// (`after_critical_section` of whatever the work returned), but the
    /// suppression guarantee is then the work's own doing, not this
    /// function's.
    pub fn without_interrupts<F, R>(&mut self, f: F) -> (r: R) where F: FnOnce(Cpu) -> (Cpu, R)
        requires
            call_requires(f, (after_disable(*old(self)),)),
            old(self).enabled ==> forall|mid: Cpu, ret: R|
                call_ensures(f, (after_disable(*old(self)),), (mid, ret)) ==> (mid.pending
                    ==> mid.delivered < u64::MAX),
        ensures
            exists|mid: Cpu|
                #[trigger] call_ensures(f, (after_disable(*old(self)),), (mid, r))
                    && *final(self) == after_critical_section(*old(self), mid),
    {
        // the admission state to restore on the way out
        let admitted_at_entry: bool = self.are_enabled();

        if admitted_at_entry {
            self.disable();
        }

        // hand the suppressed core to the work, taking it back afterwards
        let mut work_cpu = Cpu::new();
        core::mem::swap(self, &mut work_cpu);
        let (cpu_after, ret) = f(work_cpu);
        let mut cpu_after = cpu_after;
        core::mem::swap(self, &mut cpu_after);

        // restore only what was found at entry: from a suppressed entry
        // state, leave the work's state untouched
        if admitted_at_entry {
            self.enable();
        }

        ret
    }

    /// Raise the breakpoint exception, the synchronous trap on vector 3.
    pub fn int3(&mut self)
        ensures
            *final(self) == after_trap(*old(self), 3),
    {
        self.last_trap = Some(3);
    }

    /// Raise a synchronous software interrupt on the caller-chosen vector.
    ///
    /// The caller must keep away from vectors whose default handling is
    /// irrecoverable on this path — the double-fault (8) and machine-check
    /// (18) vectors — and must meet whatever register or memory expectations
    /// the target handler has; neither is detectable here.
    pub fn software_interrupt<const ID: u8>(&mut self)
        requires
            ID != 8,
            ID != 18,
        ensures
            *final(self) == after_trap(*old(self), ID),
    {
        self.last_trap = Some(ID);
    }
}

/// A core is well formed when an interrupt waits only behind a cleared
/// flag: with interrupts admitted, nothing stays pending.
pub open spec fn wf(c: Cpu) -> bool {
    c.pending ==> !c.enabled
}

/// Toggling is observable at once: after `enable` the flag reads set, after
/// `disable` it reads cleared, from any prior state.
pub proof fn lemma_toggle_observed(c: Cpu)
    ensures
        after_enable(c).enabled,
        !after_disable(c).enabled,
{
}

/// Toggling is idempotent: enabling or disabling a second time changes
/// nothing that the first did not already change.
pub proof fn lemma_toggle_idempotent(c: Cpu)
    ensures
        after_enable(after_enable(c)) == after_enable(c),
        after_disable(after_disable(c)) == after_disable(c),
{
}

/// A critical section entered with interrupts admitted runs its work with
/// the flag cleared throughout and leaves with the flag set again, whatever
/// state `mid` the work finished in.
pub proof fn lemma_critical_section_restores(c: Cpu, mid: Cpu)
    requires
        c.enabled,
    ensures
        !after_disable(c).enabled,
        after_critical_section(c, mid).enabled,
{
}

/// A critical section entered with interrupts already suppressed is a
/// transparent pass-through: the work starts with the flag cleared, and no
/// restoration happens on exit — the state the work finished in stands.
pub proof fn lemma_critical_section_pass_through(c: Cpu, mid: Cpu)
    requires
        !c.enabled,
    ensures
        !after_disable(c).enabled,
        after_critical_section(c, mid) == mid,
{
}

/// Nesting keeps the outer suppression intact: an inner critical section
/// entered from the suppressed state of an outer one observes interrupts
/// not admitted and so does not re-admit them on its exit.
pub proof fn lemma_nested_section_stays_suppressed(c: Cpu, mid: Cpu)
    requires
        c.enabled,
        !mid.enabled,
    ensures
        !after_critical_section(after_disable(c), mid).enabled,
{
}

/// No lost wakeup: an interrupt already waiting when the re-admit-and-halt
/// pair starts is the one delivered by the time it returns — it is consumed
/// and counted, never dropped.
pub proof fn lemma_pending_interrupt_not_lost(c: Cpu)
    requires
        c.pending,
        c.delivered < u64::MAX,
    ensures
        after_enable_and_hlt(c).delivered == c.delivered + 1,
        !after_enable_and_hlt(c).pending,
        after_enable_and_hlt(c).enabled,
{
}

/// Every operation of the surface preserves well-formedness.
pub proof fn lemma_transitions_preserve_wf(c: Cpu, mid: Cpu, vector: u8)
    requires
        wf(c),
    ensures
        wf(after_enable(c)),
        wf(after_disable(c)),
        wf(after_external(c)),
        wf(after_enable_and_hlt(c)),
        wf(after_trap(c, vector)),
        wf(mid) ==> wf(after_critical_section(c, mid)),
{
}

} // verus!
