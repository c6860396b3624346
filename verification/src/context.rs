use vstd::prelude::*;

verus! {

/// A task's saved execution state at a point where it may be interrupted:
/// the 31 non-zero general-purpose registers (register 0 is architecturally
/// always zero and is not stored), the program counter at which execution
/// resumes, and the two execution-mode flags.
#[derive(Clone, Copy)]
pub struct LocalContext {
    /// Architecture-reserved slot; generic logic never touches it.
    sctx: usize,
    /// Registers 1..=31, stored at indices 0..=30.
    x: [usize; 31],
    /// Program counter at which this context resumes.
    sepc: usize,
    /// Whether this context runs with supervisor privilege.
    supervisor: bool,
    /// Whether interrupts are enabled when this context runs.
    interrupt: bool,
}

impl LocalContext {
    /// General-purpose register `n`, for `n` in `1..=31`.
    pub closed spec fn spec_x(&self, n: int) -> usize {
        self.x@[n - 1]
    }

    /// The program counter.
    pub closed spec fn spec_pc(&self) -> usize {
        self.sepc
    }

    /// The supervisor-privilege flag.
    pub closed spec fn spec_supervisor(&self) -> bool {
        self.supervisor
    }

    /// The interrupt-enable flag.
    pub closed spec fn spec_interrupt(&self) -> bool {
        self.interrupt
    }

    /// The architecture-reserved slot.
    pub closed spec fn spec_scratch(&self) -> usize {
        self.sctx
    }

    /// A blank context: all registers and the program counter zero, user
    /// privilege, interrupts disabled. A placeholder before real state exists.
    pub fn empty() -> (r: Self)
        ensures
            forall|n: int| 1 <= n <= 31 ==> r.spec_x(n) == 0,
            r.spec_pc() == 0,
            !r.spec_supervisor(),
            !r.spec_interrupt(),
            r.spec_scratch() == 0,
    {
        Self { sctx: 0, x: [0; 31], supervisor: false, interrupt: false, sepc: 0 }
    }

    /// First entry into a freshly created user program: all registers zero,
    /// user privilege, and interrupts enabled so the new task is immediately
    /// preemptible.
    pub fn user(pc: usize) -> (r: Self)
        ensures
            forall|n: int| 1 <= n <= 31 ==> r.spec_x(n) == 0,
            r.spec_pc() == pc,
            !r.spec_supervisor(),
            r.spec_interrupt(),
            r.spec_scratch() == 0,
    {
        Self { sctx: 0, x: [0; 31], supervisor: false, interrupt: true, sepc: pc }
    }

    /// A kernel-mode thread of control: all registers zero, supervisor
    /// privilege, caller-chosen interrupt flag.
    pub fn thread(pc: usize, interrupt: bool) -> (r: Self)
        ensures
            forall|n: int| 1 <= n <= 31 ==> r.spec_x(n) == 0,
            r.spec_pc() == pc,
            r.spec_supervisor(),
            r.spec_interrupt() == interrupt,
            r.spec_scratch() == 0,
    {
        Self { sctx: 0, x: [0; 31], supervisor: true, interrupt, sepc: pc }
    }

    /// Whether this context runs with supervisor privilege.
    pub fn supervisor(&self) -> (r: bool)
        ensures
            r == self.spec_supervisor(),
    {
        self.supervisor
    }

    /// Whether interrupts are enabled when this context runs.
    pub fn interrupt(&self) -> (r: bool)
        ensures
            r == self.spec_interrupt(),
    {
        self.interrupt
    }

    /// Reads general-purpose register `n`, for `n` in `1..=31`.
    pub fn x(&self, n: usize) -> (r: usize)
        requires
            1 <= n <= 31,
        ensures
            r == self.spec_x(n as int),
    {
        self.x[n - 1]
    }

    /// Borrows general-purpose register `n` mutably, for `n` in `1..=31`.
    pub fn x_mut(&mut self, n: usize) -> (r: &mut usize)
        requires
            1 <= n <= 31,
        ensures
            *r == old(self).spec_x(n as int),
            final(self).spec_x(n as int) == *final(r),
            forall|i: int| 1 <= i <= 31 && i != n ==> final(self).spec_x(i) == old(self).spec_x(i),
            final(self).spec_pc() == old(self).spec_pc(),
            final(self).spec_supervisor() == old(self).spec_supervisor(),
            final(self).spec_interrupt() == old(self).spec_interrupt(),
            final(self).spec_scratch() == old(self).spec_scratch(),
    {
        &mut self.x[n - 1]
    }

    /// Reads argument register `n`: the calling convention maps logical
    /// argument `n` to register `n + 10`.
    pub fn a(&self, n: usize) -> (r: usize)
        requires
            n + 10 <= 31,
        ensures
            r == self.spec_x(n + 10),
    {
        self.x(n + 10)
    }

    /// Borrows argument register `n` mutably.
    pub fn a_mut(&mut self, n: usize) -> (r: &mut usize)
        requires
            n + 10 <= 31,
        ensures
            *r == old(self).spec_x(n + 10),
            final(self).spec_x(n + 10) == *final(r),
            forall|i: int| 1 <= i <= 31 && i != n + 10 ==> final(self).spec_x(i) == old(
                self,
            ).spec_x(i),
            final(self).spec_pc() == old(self).spec_pc(),
            final(self).spec_supervisor() == old(self).spec_supervisor(),
            final(self).spec_interrupt() == old(self).spec_interrupt(),
            final(self).spec_scratch() == old(self).spec_scratch(),
    {
        self.x_mut(n + 10)
    }

    /// The return-address register (register 1).
    pub fn ra(&self) -> (r: usize)
        ensures
            r == self.spec_x(1),
    {
        self.x(1)
    }

    /// The stack-pointer register (register 2).
    pub fn sp(&self) -> (r: usize)
        ensures
            r == self.spec_x(2),
    {
        self.x(2)
    }

    /// Borrows the stack-pointer register mutably.
    pub fn sp_mut(&mut self) -> (r: &mut usize)
        ensures
            *r == old(self).spec_x(2),
            final(self).spec_x(2) == *final(r),
            forall|i: int| 1 <= i <= 31 && i != 2 ==> final(self).spec_x(i) == old(self).spec_x(i),
            final(self).spec_pc() == old(self).spec_pc(),
            final(self).spec_supervisor() == old(self).spec_supervisor(),
            final(self).spec_interrupt() == old(self).spec_interrupt(),
            final(self).spec_scratch() == old(self).spec_scratch(),
    {
        self.x_mut(2)
    }

    /// The program counter of this context.
    pub fn pc(&self) -> (r: usize)
        ensures
            r == self.spec_pc(),
    {
        self.sepc
    }

    /// Borrows the program counter mutably.
    pub fn pc_mut(&mut self) -> (r: &mut usize)
        ensures
            *r == old(self).spec_pc(),
            final(self).spec_pc() == *final(r),
            forall|i: int| 1 <= i <= 31 ==> final(self).spec_x(i) == old(self).spec_x(i),
            final(self).spec_supervisor() == old(self).spec_supervisor(),
            final(self).spec_interrupt() == old(self).spec_interrupt(),
            final(self).spec_scratch() == old(self).spec_scratch(),
    {
        &mut self.sepc
    }

    /// Advances the program counter past one fixed-width instruction,
    /// wrapping around at the top of the address space. Callers must know
    /// that the instruction at the current program counter is not a
    /// compressed (shorter) encoding.
    pub fn move_next(&mut self)
        ensures
            old(self).spec_pc() + 4 <= usize::MAX ==> final(self).spec_pc() == old(self).spec_pc()
                + 4,
            old(self).spec_pc() + 4 > usize::MAX ==> final(self).spec_pc() == old(self).spec_pc()
                + 4 - usize::MAX - 1,
            forall|i: int| 1 <= i <= 31 ==> final(self).spec_x(i) == old(self).spec_x(i),
            final(self).spec_supervisor() == old(self).spec_supervisor(),
            final(self).spec_interrupt() == old(self).spec_interrupt(),
            final(self).spec_scratch() == old(self).spec_scratch(),
    {
        self.sepc = self.sepc.wrapping_add(4);
    }

    /// Rewrites this context so that resuming it runs a signal handler: the
    /// program counter becomes the handler entry, the first argument
    /// register carries the signal number, and interrupts are enabled as for
    /// a fresh invocation. Privilege and all other registers are untouched.
    pub fn redirect_to_handler(&mut self, entry: usize, signum: usize)
        ensures
            final(self).spec_pc() == entry,
            final(self).spec_x(10) == signum,
            forall|i: int| 1 <= i <= 31 && i != 10 ==> final(self).spec_x(i) == old(self).spec_x(i),
            final(self).spec_supervisor() == old(self).spec_supervisor(),
            final(self).spec_interrupt(),
            final(self).spec_scratch() == old(self).spec_scratch(),
    {
        self.sepc = entry;
        self.x[9] = signum;
        self.interrupt = true;
    }
}

} // verus!
