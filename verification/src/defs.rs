use vstd::prelude::*;

verus! {

/// Number of signal numbers; the valid numbers are `1..=MAX_SIG`.
pub const MAX_SIG: usize = 32;

/// The kill-equivalent signal: it can be neither caught, ignored nor masked.
pub const SIGKILL: usize = 9;

/// The stop-equivalent signal: it can be neither caught, ignored nor masked.
pub const SIGSTOP: usize = 19;

/// The mask bits of the two non-maskable signals.
pub const NON_MASKABLE_BITS: u32 = (1u32 << 8) | (1u32 << 18);

/// Whether `n` is a valid signal number.
pub open spec fn valid_signum(n: int) -> bool {
    1 <= n <= MAX_SIG
}

/// The bitset bit that stands for signal number `n`.
pub open spec fn sig_bit(n: int) -> u32 {
    1u32 << ((n - 1) as u32)
}

/// Whether signal number `n` is a member of the bitset `s`.
pub open spec fn has_sig(s: u32, n: int) -> bool {
    s & sig_bit(n) != 0
}

/// Whether signal number `n` may never be masked, caught or ignored.
pub open spec fn non_catchable(n: int) -> bool {
    n == SIGKILL || n == SIGSTOP
}

/// The configured response to one signal number.
#[derive(Clone, Copy, PartialEq, Eq, Structural, Debug)]
pub enum SignalDisposition {
    /// The signal's fixed default action applies on delivery.
    Default,
    /// The signal is discarded on delivery.
    Ignore,
    /// A user handler runs on delivery.
    Handler(HandlerAction),
}

/// A user handler installed for a signal number.
#[derive(Clone, Copy, PartialEq, Eq, Structural, Debug)]
pub struct HandlerAction {
    /// Entry address of the handler.
    pub entry: usize,
    /// Signals additionally masked while the handler runs.
    pub extra_mask: u32,
    /// When set, the triggering signal is not re-blocked while its handler
    /// runs, so the handler itself may be interrupted by the same signal.
    pub no_defer: bool,
}

impl SignalDisposition {
    /// Whether this disposition installs a user handler.
    pub open spec fn is_handler(self) -> bool {
        self matches SignalDisposition::Handler(_)
    }

    /// The installed handler, where one is installed.
    pub open spec fn handler_of(self) -> HandlerAction
        recommends
            self.is_handler(),
    {
        match self {
            SignalDisposition::Handler(h) => h,
            _ => HandlerAction { entry: 0, extra_mask: 0, no_defer: false },
        }
    }
}

/// The built-in outcome of a signal number whose disposition is the default
/// action.
#[derive(Clone, Copy, PartialEq, Eq, Structural, Debug)]
pub enum DefaultAction {
    /// The task is terminated.
    Terminate,
    /// The task is terminated with a core dump.
    CoreDump,
    /// The task is stopped.
    Stop,
    /// A stopped task is continued.
    Continue,
    /// The signal is discarded.
    Ignore,
}

/// The fixed default-action category of signal number `n`.
pub open spec fn spec_default_action(n: int) -> DefaultAction {
    if n == 17 || n == 23 || n == 28 {
        DefaultAction::Ignore
    } else if n == 18 {
        DefaultAction::Continue
    } else if n == 19 || n == 20 || n == 21 || n == 22 {
        DefaultAction::Stop
    } else if n == 3 || n == 4 || n == 5 || n == 6 || n == 7 || n == 8 || n == 11 || n == 24 || n
        == 25 || n == 31 {
        DefaultAction::CoreDump
    } else {
        DefaultAction::Terminate
    }
}

/// The fixed default-action category of signal number `signum`: a stopped
/// task is continued by 18; 19 through 22 stop the task; 17, 23 and 28 are
/// discarded; the fault- and quit-like numbers terminate with a core dump;
/// every other number terminates the task.
pub fn default_action_of(signum: usize) -> (r: DefaultAction)
    requires
        valid_signum(signum as int),
    ensures
        r == spec_default_action(signum as int),
{
    if signum == 17 || signum == 23 || signum == 28 {
        DefaultAction::Ignore
    } else if signum == 18 {
        DefaultAction::Continue
    } else if signum >= 19 && signum <= 22 {
        DefaultAction::Stop
    } else if signum == 3 || signum == 4 || signum == 5 || signum == 6 || signum == 7 || signum == 8
        || signum == 11 || signum == 24 || signum == 25 || signum == 31 {
        DefaultAction::CoreDump
    } else {
        DefaultAction::Terminate
    }
}

/// The lowest signal number at or above `n` that is a member of `s`, or 0
/// where there is none.
pub open spec fn first_sig_from(s: u32, n: int) -> int
    decreases 33 - n,
{
    if n < 1 || n > 32 {
        0
    } else if has_sig(s, n) {
        n
    } else {
        first_sig_from(s, n + 1)
    }
}

/// The lowest signal number in bitset `s`, or 0 where the set holds none:
/// the fixed tie-break of delivery, the lower number winning.
pub open spec fn first_sig(s: u32) -> int {
    first_sig_from(s, 1)
}

proof fn lemma_first_sig_from(s: u32, n: int)
    requires
        1 <= n <= 33,
    ensures
        first_sig_from(s, n) == 0 ==> forall|j: int| n <= j <= 32 ==> !has_sig(s, j),
        first_sig_from(s, n) != 0 ==> n <= first_sig_from(s, n) <= 32 && has_sig(
            s,
            first_sig_from(s, n),
        ) && forall|j: int| n <= j < first_sig_from(s, n) ==> !has_sig(s, j),
    decreases 33 - n,
{
    if n <= 32 && !has_sig(s, n) {
        lemma_first_sig_from(s, n + 1);
    }
}

/// Where `first_sig` finds nothing the bitset holds no signal; where it
/// finds one, that signal is a member and every lower number is not.
pub proof fn lemma_first_sig(s: u32)
    ensures
        first_sig(s) == 0 ==> forall|j: int| valid_signum(j) ==> !has_sig(s, j),
        first_sig(s) != 0 ==> valid_signum(first_sig(s)) && has_sig(s, first_sig(s)) && forall|
            j: int,
        | 1 <= j < first_sig(s) ==> !has_sig(s, j),
{
    lemma_first_sig_from(s, 1);
}

/// Setting a bit keeps every other bit: membership in `s | sig_bit(k)` holds
/// exactly for `k` and the members of `s`.
pub proof fn lemma_sig_or(s: u32, k: usize, j: usize)
    requires
        valid_signum(k as int),
        valid_signum(j as int),
    ensures
        has_sig(s | sig_bit(k as int), j as int) == (has_sig(s, j as int) || j == k),
{
    let kb = (k - 1) as u32;
    let jb = (j - 1) as u32;
    assert(((s | (1u32 << kb)) & (1u32 << jb) != 0) == ((s & (1u32 << jb) != 0) || jb == kb))
        by (bit_vector)
        requires
            kb < 32 && jb < 32,
    ;
}

/// Clearing a bit keeps every other bit: membership in `s & !sig_bit(k)`
/// holds exactly for the members of `s` other than `k`.
pub proof fn lemma_sig_clear(s: u32, k: usize, j: usize)
    requires
        valid_signum(k as int),
        valid_signum(j as int),
    ensures
        has_sig(s & !sig_bit(k as int), j as int) == (has_sig(s, j as int) && j != k),
{
    let kb = (k - 1) as u32;
    let jb = (j - 1) as u32;
    assert(((s & !(1u32 << kb)) & (1u32 << jb) != 0) == ((s & (1u32 << jb) != 0) && jb != kb))
        by (bit_vector)
        requires
            kb < 32 && jb < 32,
    ;
}

/// Membership in `p & !m` is membership in `p` without membership in `m`.
pub proof fn lemma_sig_and_not(p: u32, m: u32, j: usize)
    requires
        valid_signum(j as int),
    ensures
        has_sig(p & !m, j as int) == (has_sig(p, j as int) && !has_sig(m, j as int)),
{
    let jb = (j - 1) as u32;
    assert(((p & !m) & (1u32 << jb) != 0) == ((p & (1u32 << jb) != 0) && !(m & (1u32 << jb) != 0)))
        by (bit_vector)
        requires
            jb < 32,
    ;
}

/// Membership in `s | t` is membership in `s` or in `t`.
pub proof fn lemma_sig_union(s: u32, t: u32, j: usize)
    requires
        valid_signum(j as int),
    ensures
        has_sig(s | t, j as int) == (has_sig(s, j as int) || has_sig(t, j as int)),
{
    let jb = (j - 1) as u32;
    assert(((s | t) & (1u32 << jb) != 0) == ((s & (1u32 << jb) != 0) || (t & (1u32 << jb) != 0)))
        by (bit_vector)
        requires
            jb < 32,
    ;
}

/// Forcing the non-maskable bits clear leaves a mask whose non-maskable bits
/// are clear, and a mask that already had them clear is left exactly as it
/// was.
pub proof fn lemma_mask_clamp(m: u32)
    ensures
        (m & !NON_MASKABLE_BITS) & NON_MASKABLE_BITS == 0,
        m & NON_MASKABLE_BITS == 0 ==> m & !NON_MASKABLE_BITS == m,
{
    assert((m & !NON_MASKABLE_BITS) & NON_MASKABLE_BITS == 0) by (bit_vector);
    assert(m & NON_MASKABLE_BITS == 0 ==> m & !NON_MASKABLE_BITS == m) by (bit_vector);
}

/// Forcing the non-maskable bits clear leaves the membership of every
/// other signal exactly as it was.
pub proof fn lemma_clamp_keeps_catchable(x: u32, j: usize)
    requires
        valid_signum(j as int),
        !non_catchable(j as int),
    ensures
        has_sig(x & !NON_MASKABLE_BITS, j as int) == has_sig(x, j as int),
{
    let jb = (j - 1) as u32;
    assert(((x & !NON_MASKABLE_BITS) & (1u32 << jb) != 0) == (x & (1u32 << jb) != 0))
        by (bit_vector)
        requires
            jb < 32 && jb != 8 && jb != 18,
    ;
}

/// A mask whose non-maskable bits are clear holds neither non-catchable
/// signal.
pub proof fn lemma_nonmaskable_absent(m: u32)
    requires
        m & NON_MASKABLE_BITS == 0,
    ensures
        !has_sig(m, SIGKILL as int),
        !has_sig(m, SIGSTOP as int),
{
    assert(m & ((1u32 << 8) | (1u32 << 18)) == 0 ==> m & (1u32 << 8) == 0 && m & (1u32 << 18) == 0)
        by (bit_vector);
}

/// The empty bitset holds no signal, and its non-maskable bits are clear.
pub proof fn lemma_empty_bitset()
    ensures
        forall|j: int| valid_signum(j) ==> !has_sig(0u32, j),
        0u32 & NON_MASKABLE_BITS == 0,
{
    assert(forall|b: u32| b < 32 ==> 0u32 & (1u32 << b) == 0) by (bit_vector);
    assert forall|j: int| valid_signum(j) implies !has_sig(0u32, j) by {
        assert(((j - 1) as u32) < 32);
    }
    assert(0u32 & NON_MASKABLE_BITS == 0) by (bit_vector);
}

} // verus!
