use vstd::prelude::*;

use crate::context::LocalContext;
use crate::defs::first_sig;
use crate::defs::first_sig_from;
use crate::defs::has_sig;
use crate::defs::lemma_first_sig;
use crate::defs::HandlerAction;
use crate::defs::spec_default_action;
use crate::defs::lemma_clamp_keeps_catchable;
use crate::defs::lemma_empty_bitset;
use crate::defs::lemma_mask_clamp;
use crate::defs::lemma_nonmaskable_absent;
use crate::defs::lemma_sig_and_not;
use crate::defs::lemma_sig_clear;
use crate::defs::lemma_sig_or;
use crate::defs::lemma_sig_union;
use crate::defs::non_catchable;
use crate::defs::sig_bit;
use crate::defs::valid_signum;
use crate::defs::SignalDisposition;
use crate::defs::DefaultAction;
use crate::defs::default_action_of;
use crate::defs::MAX_SIG;
use crate::defs::NON_MASKABLE_BITS;
use crate::defs::SIGKILL;
use crate::defs::SIGSTOP;
use crate::signal_result::SignalResult;

verus! {

/// Per-task signal state: the pending and masked signal sets, the
/// disposition of every signal number, whether execution is currently
/// inside a handler, and the stack of contexts saved on handler entry.
pub struct SignalState {
    /// Signals raised and not yet delivered.
    pending: u32,
    /// Signals blocked from delivery.
    mask: u32,
    /// Disposition of each signal number `n`, at index `n - 1`.
    actions: [SignalDisposition; 32],
    /// Whether execution is inside a handler invocation that has not yet
    /// returned.
    handling: bool,
    /// One frame per nested handler entry: the displaced context and the
    /// mask at the moment of interruption, restored in last-in-first-out
    /// order.
    saved: Vec<(LocalContext, u32)>,
}

impl SignalState {
    /// The pending-signal bitset.
    pub closed spec fn spec_pending(&self) -> u32 {
        self.pending
    }

    /// The signal-mask bitset.
    pub closed spec fn spec_mask(&self) -> u32 {
        self.mask
    }

    /// The disposition table, as a sequence indexed by signal number minus
    /// one.
    pub closed spec fn spec_actions(&self) -> Seq<SignalDisposition> {
        self.actions@
    }

    /// The disposition of signal number `n`.
    pub open spec fn spec_action(&self, n: int) -> SignalDisposition
        recommends
            valid_signum(n),
    {
        self.spec_actions()[n - 1]
    }

    /// Whether execution is inside a handler.
    pub closed spec fn spec_handling(&self) -> bool {
        self.handling
    }

    /// The stack of saved (context, mask) frames, one per nested handler
    /// entry.
    pub closed spec fn spec_saved(&self) -> Seq<(LocalContext, u32)> {
        self.saved@
    }

    /// The signals that a delivery checkpoint may deliver: pending and not
    /// masked.
    pub open spec fn spec_deliverable(&self) -> u32 {
        self.spec_pending() & !self.spec_mask()
    }

    /// Well-formedness: the mask can never hold a non-maskable signal, nor
    /// can any saved mask; the handling flag mirrors the frame stack; the
    /// disposition of a non-catchable signal is always the default.
    pub open spec fn wf(&self) -> bool {
        &&& self.spec_mask() & NON_MASKABLE_BITS == 0
        &&& self.spec_handling() == (self.spec_saved().len() > 0)
        &&& forall|i: int|
            0 <= i < self.spec_saved().len() ==> (#[trigger] self.spec_saved()[i]).1
                & NON_MASKABLE_BITS == 0
        &&& self.spec_actions().len() == MAX_SIG
        &&& self.spec_action(SIGKILL as int) == SignalDisposition::Default
        &&& self.spec_action(SIGSTOP as int) == SignalDisposition::Default
    }

    /// A task's initial signal state: nothing pending, nothing masked,
    /// every disposition the default, outside any handler.
    pub fn new() -> (r: SignalState)
        ensures
            r.wf(),
            r.spec_pending() == 0,
            r.spec_mask() == 0,
            forall|n: int| valid_signum(n) ==> #[trigger] r.spec_action(n)
                == SignalDisposition::Default,
            !r.spec_handling(),
            r.spec_saved().len() == 0,
    {
        let r = SignalState {
            pending: 0,
            mask: 0,
            actions: [SignalDisposition::Default; 32],
            handling: false,
            saved: Vec::new(),
        };
        proof {
            lemma_empty_bitset();
        }
        r
    }

    /// The signal state a child task starts with: dispositions and mask are
    /// inherited from this state at the moment of the call, while the
    /// pending set and the handler nesting are not — the child starts with
    /// no pending signals and outside any handler.
    pub fn from_fork(&self) -> (r: SignalState)
        requires
            self.wf(),
        ensures
            r.wf(),
            r.spec_pending() == 0,
            r.spec_mask() == self.spec_mask(),
            r.spec_actions() == self.spec_actions(),
            !r.spec_handling(),
            r.spec_saved().len() == 0,
    {
        SignalState {
            pending: 0,
            mask: self.mask,
            actions: self.actions,
            handling: false,
            saved: Vec::new(),
        }
    }

    /// Resets every disposition to the default and empties the mask, as a
    /// task replacing its program image requires; pending signals are
    /// deliberately left untouched.
    pub fn clear(&mut self)
        ensures
            final(self).spec_pending() == old(self).spec_pending(),
            final(self).spec_mask() == 0,
            forall|n: int| valid_signum(n) ==> #[trigger] final(self).spec_action(n)
                == SignalDisposition::Default,
            final(self).spec_handling() == old(self).spec_handling(),
            final(self).spec_saved() == old(self).spec_saved(),
            old(self).wf() ==> final(self).wf(),
    {
        self.actions = [SignalDisposition::Default; 32];
        self.mask = 0;
        proof {
            lemma_empty_bitset();
        }
    }

    /// Raises signal `signum`: a valid number joins the pending set — again
    /// raising an already-pending signal changes nothing, since the set
    /// holds each number at most once — and an invalid number is ignored.
    pub fn add_signal(&mut self, signum: usize)
        ensures
            valid_signum(signum as int) ==> final(self).spec_pending() == (old(
                self,
            ).spec_pending() | sig_bit(signum as int)),
            !valid_signum(signum as int) ==> final(self).spec_pending() == old(
                self,
            ).spec_pending(),
            final(self).spec_mask() == old(self).spec_mask(),
            final(self).spec_actions() == old(self).spec_actions(),
            final(self).spec_handling() == old(self).spec_handling(),
            final(self).spec_saved() == old(self).spec_saved(),
            old(self).wf() ==> final(self).wf(),
    {
        if 1 <= signum && signum <= MAX_SIG {
            let bit: u32 = 1u32 << ((signum - 1) as u32);
            self.pending = self.pending | bit;
        }
    }

    /// Whether signal `signum` is pending; an invalid number never is.
    pub fn is_pending(&self, signum: usize) -> (r: bool)
        ensures
            valid_signum(signum as int) ==> r == has_sig(self.spec_pending(), signum as int),
            !valid_signum(signum as int) ==> !r,
    {
        if 1 <= signum && signum <= MAX_SIG {
            self.pending & (1u32 << ((signum - 1) as u32)) != 0
        } else {
            false
        }
    }

    /// Installs `action` as the disposition of signal `signum`, unless the
    /// number is invalid or non-catchable, in which case nothing changes and
    /// the request is rejected.
    pub fn set_action(&mut self, signum: usize, action: SignalDisposition) -> (r: bool)
        ensures
            r == (valid_signum(signum as int) && !non_catchable(signum as int)),
            r ==> final(self).spec_actions() == old(self).spec_actions().update(
                signum as int - 1,
                action,
            ),
            !r ==> final(self).spec_actions() == old(self).spec_actions(),
            final(self).spec_pending() == old(self).spec_pending(),
            final(self).spec_mask() == old(self).spec_mask(),
            final(self).spec_handling() == old(self).spec_handling(),
            final(self).spec_saved() == old(self).spec_saved(),
            old(self).wf() ==> final(self).wf(),
    {
        if signum < 1 || signum > MAX_SIG || signum == SIGKILL || signum == SIGSTOP {
            return false;
        }
        self.actions[signum - 1] = action;
        true
    }

    /// The disposition of signal `signum`, or nothing for an invalid
    /// number.
    pub fn action_of(&self, signum: usize) -> (r: Option<SignalDisposition>)
        ensures
            valid_signum(signum as int) ==> r == Some(self.spec_action(signum as int)),
            !valid_signum(signum as int) ==> r is None,
    {
        if 1 <= signum && signum <= MAX_SIG {
            Some(self.actions[signum - 1])
        } else {
            None
        }
    }

    /// Replaces the mask with `new_mask`, with the non-maskable signals
    /// forced clear, and hands back the previous mask so the caller can
    /// restore it later.
    pub fn update_mask(&mut self, new_mask: u32) -> (r: u32)
        ensures
            r == old(self).spec_mask(),
            final(self).spec_mask() == new_mask & !NON_MASKABLE_BITS,
            final(self).spec_pending() == old(self).spec_pending(),
            final(self).spec_actions() == old(self).spec_actions(),
            final(self).spec_handling() == old(self).spec_handling(),
            final(self).spec_saved() == old(self).spec_saved(),
            old(self).wf() ==> final(self).wf(),
    {
        let previous = self.mask;
        self.mask = new_mask & !NON_MASKABLE_BITS;
        proof {
            lemma_mask_clamp(new_mask);
        }
        previous
    }

    /// Whether execution is currently inside a signal handler.
    pub fn is_handling(&self) -> (r: bool)
        ensures
            r == self.spec_handling(),
    {
        self.handling
    }

    /// The delivery decision procedure, run once per safe resumption
    /// checkpoint. Where no pending unmasked signal exists nothing happens.
    /// Otherwise the lowest deliverable signal number leaves the pending
    /// set and its disposition decides: an ignored signal is discarded; a
    /// default-action signal yields its fixed outcome with the context
    /// untouched; an installed handler has the interrupted context and mask
    /// pushed, the mask extended, and the context rewritten in place to
    /// enter the handler.
    pub fn handle_signals(&mut self, current_context: &mut LocalContext) -> (r: SignalResult)
        requires
            old(self).wf(),
        ensures
            final(self).wf(),
            ({
                let s = first_sig(old(self).spec_deliverable());
                if s == 0 {
                    &&& r == SignalResult::NoAction
                    &&& *final(self) == *old(self)
                    &&& *final(current_context) == *old(current_context)
                    &&& forall|j: int|
                        valid_signum(j) ==> !(has_sig(old(self).spec_pending(), j) && !has_sig(
                            old(self).spec_mask(),
                            j,
                        ))
                } else {
                    let a = old(self).spec_action(s);
                    &&& has_sig(old(self).spec_pending(), s) && !has_sig(old(self).spec_mask(), s)
                    &&& final(self).spec_pending() == old(self).spec_pending() & !sig_bit(s)
                    &&& !has_sig(final(self).spec_pending(), s)
                    &&& forall|j: int|
                        valid_signum(j) && j != s ==> has_sig(final(self).spec_pending(), j)
                            == has_sig(old(self).spec_pending(), j)
                    &&& (a == SignalDisposition::Ignore ==> r == SignalResult::NoAction
                        && only_pending_changed(*old(self), *final(self))
                        && *final(current_context) == *old(current_context))
                    &&& (a == SignalDisposition::Default ==> r == default_result(s)
                        && only_pending_changed(*old(self), *final(self))
                        && *final(current_context) == *old(current_context))
                    &&& (a.is_handler() ==> r == SignalResult::HandlerEntered
                        && delivers_to_handler(
                        *old(self),
                        *old(current_context),
                        *final(self),
                        *final(current_context),
                        s,
                    ))
                }
            }),
    {
        let deliverable: u32 = self.pending & !self.mask;
        let signum = lowest_sig(deliverable);
        proof {
            lemma_first_sig(deliverable);
        }
        if signum == 0 {
            proof {
                assert forall|j: int| valid_signum(j) implies !(has_sig(self.spec_pending(), j)
                    && !has_sig(self.spec_mask(), j)) by {
                    lemma_sig_and_not(self.spec_pending(), self.spec_mask(), j as usize);
                }
            }
            return SignalResult::NoAction;
        }
        let bit: u32 = 1u32 << ((signum - 1) as u32);
        proof {
            lemma_sig_and_not(self.spec_pending(), self.spec_mask(), signum);
        }
        self.pending = self.pending & !bit;
        proof {
            lemma_sig_clear(old(self).spec_pending(), signum, signum);
            assert forall|j: int| valid_signum(j) && j != signum as int implies has_sig(
                self.spec_pending(),
                j,
            ) == has_sig(old(self).spec_pending(), j) by {
                lemma_sig_clear(old(self).spec_pending(), signum, j as usize);
            }
        }
        let action = self.actions[signum - 1];
        match action {
            SignalDisposition::Ignore => SignalResult::NoAction,
            SignalDisposition::Default => {
                match default_action_of(signum) {
                    DefaultAction::Terminate => SignalResult::Terminated(signum),
                    DefaultAction::CoreDump => SignalResult::Terminated(signum),
                    DefaultAction::Stop => SignalResult::Stopped,
                    DefaultAction::Continue => SignalResult::Continued,
                    DefaultAction::Ignore => SignalResult::NoAction,
                }
            },
            SignalDisposition::Handler(h) => {
                self.saved.push((*current_context, self.mask));
                self.handling = true;
                let own_bit: u32 = if h.no_defer {
                    0
                } else {
                    bit
                };
                let raised = self.mask | h.extra_mask | own_bit;
                self.mask = raised & !NON_MASKABLE_BITS;
                proof {
                    lemma_mask_clamp(raised);
                }
                current_context.redirect_to_handler(h.entry, signum);
                SignalResult::HandlerEntered
            },
        }
    }

    /// Unwinds out of the innermost handler once the task reports the
    /// handler finished: the most recent frame restores the displaced
    /// context and mask. With no active handler the request is rejected and
    /// nothing changes.
    pub fn sig_return(&mut self, current_context: &mut LocalContext) -> (r: bool)
        requires
            old(self).wf(),
        ensures
            final(self).wf(),
            r == (old(self).spec_saved().len() > 0),
            r ==> returns_from_handler(*old(self), *final(self), *final(current_context)),
            !r ==> state_unchanged(*old(self), *final(self)) && *final(current_context) == *old(
                current_context,
            ),
    {
        match self.saved.pop() {
            None => false,
            Some((saved_context, saved_mask)) => {
                self.mask = saved_mask;
                *current_context = saved_context;
                self.handling = self.saved.len() > 0;
                proof {
                    assert(old(self).spec_saved()[old(self).spec_saved().len() - 1].1
                        & NON_MASKABLE_BITS == 0);
                }
                true
            },
        }
    }
}

/// Two signal states with the same model: nothing observable changed.
pub open spec fn state_unchanged(pre: SignalState, post: SignalState) -> bool {
    &&& post.spec_pending() == pre.spec_pending()
    &&& only_pending_changed(pre, post)
}

/// What remains of a signal state when only its pending set changed.
pub open spec fn only_pending_changed(pre: SignalState, post: SignalState) -> bool {
    &&& post.spec_mask() == pre.spec_mask()
    &&& post.spec_actions() == pre.spec_actions()
    &&& post.spec_handling() == pre.spec_handling()
    &&& post.spec_saved() == pre.spec_saved()
}

/// The outcome of delivering signal `s` under its default disposition:
/// terminate (with the signal number as the cause), stop, continue, or
/// nothing for a default-ignored number.
pub open spec fn default_result(s: int) -> SignalResult {
    match spec_default_action(s) {
        DefaultAction::Terminate => SignalResult::Terminated(s as usize),
        DefaultAction::CoreDump => SignalResult::Terminated(s as usize),
        DefaultAction::Stop => SignalResult::Stopped,
        DefaultAction::Continue => SignalResult::Continued,
        DefaultAction::Ignore => SignalResult::NoAction,
    }
}

/// The mask while a handler for signal `s` runs: the displaced mask, the
/// handler's additional mask, and — unless the handler asks not to re-block
/// its own signal — `s` itself, with the non-maskable signals forced clear.
pub open spec fn handler_mask(m: u32, h: HandlerAction, s: int) -> u32 {
    (m | h.extra_mask | (if h.no_defer {
        0u32
    } else {
        sig_bit(s)
    })) & !NON_MASKABLE_BITS
}

/// How a context is rewritten to enter a handler at `entry` for signal
/// `s`: the program counter becomes the entry address, the first argument
/// register carries the signal number, interrupts are enabled, and
/// everything else is exactly as interrupted.
pub open spec fn context_redirected(
    c0: LocalContext,
    c1: LocalContext,
    entry: usize,
    s: int,
) -> bool {
    &&& c1.spec_pc() == entry
    &&& c1.spec_x(10) == s
    &&& forall|i: int| 1 <= i <= 31 && i != 10 ==> c1.spec_x(i) == c0.spec_x(i)
    &&& c1.spec_supervisor() == c0.spec_supervisor()
    &&& c1.spec_interrupt()
    &&& c1.spec_scratch() == c0.spec_scratch()
}

/// One delivery step that enters a handler for signal `s`, from state `pre`
/// with interrupted context `c0` to state `post` with rewritten context
/// `c1`: the signal leaves the pending set, the displaced context and mask
/// are pushed as a new frame, the handler mask is installed, and the
/// context is redirected.
pub open spec fn delivers_to_handler(
    pre: SignalState,
    c0: LocalContext,
    post: SignalState,
    c1: LocalContext,
    s: int,
) -> bool {
    let h = pre.spec_action(s).handler_of();
    &&& valid_signum(s)
    &&& pre.spec_action(s).is_handler()
    &&& post.spec_pending() == pre.spec_pending() & !sig_bit(s)
    &&& post.spec_mask() == handler_mask(pre.spec_mask(), h, s)
    &&& post.spec_actions() == pre.spec_actions()
    &&& post.spec_handling()
    &&& post.spec_saved() == pre.spec_saved().push((c0, pre.spec_mask()))
    &&& context_redirected(c0, c1, h.entry, s)
}

/// One return step out of the innermost handler, from state `pre` to state
/// `post` with restored context `c1`: the newest frame is popped, its
/// context and mask are reinstated, and the handling flag mirrors the
/// remaining nesting depth.
pub open spec fn returns_from_handler(
    pre: SignalState,
    post: SignalState,
    c1: LocalContext,
) -> bool {
    &&& pre.spec_saved().len() > 0
    &&& c1 == pre.spec_saved().last().0
    &&& post.spec_mask() == pre.spec_saved().last().1
    &&& post.spec_saved() == pre.spec_saved().drop_last()
    &&& post.spec_handling() == (post.spec_saved().len() > 0)
    &&& post.spec_pending() == pre.spec_pending()
    &&& post.spec_actions() == pre.spec_actions()
}

/// Raising a signal is idempotent: however many times signal `n` was
/// already raised into pending set `p`, one more raise yields the same
/// pending set as the first raise alone, the query of the pending set shows
/// `n` present, and no other signal is disturbed.
pub proof fn lemma_add_signal_idempotent(p: u32, n: usize)
    requires
        valid_signum(n as int),
    ensures
        (p | sig_bit(n as int)) | sig_bit(n as int) == p | sig_bit(n as int),
        has_sig(p | sig_bit(n as int), n as int),
        forall|j: usize|
            valid_signum(j as int) && j != n ==> has_sig(p | sig_bit(n as int), j as int)
                == has_sig(p, j as int),
{
    let k = (n - 1) as u32;
    assert((p | (1u32 << k)) | (1u32 << k) == p | (1u32 << k)) by (bit_vector);
    lemma_sig_or(p, n, n);
    assert forall|j: usize| valid_signum(j as int) && j != n implies has_sig(
        p | sig_bit(n as int),
        j as int,
    ) == has_sig(p, j as int) by {
        lemma_sig_or(p, n, j);
    }
}

/// Swapping the mask for `m` and then swapping back the mask the first swap
/// returned restores the original mask exactly — a well-formed state's mask
/// passes through the clamp unchanged — while no choice of `m` can ever
/// slip a non-maskable signal into the installed mask.
pub proof fn lemma_update_mask_round_trip(m0: u32, m: u32)
    requires
        m0 & NON_MASKABLE_BITS == 0,
    ensures
        m0 & !NON_MASKABLE_BITS == m0,
        !has_sig(m & !NON_MASKABLE_BITS, SIGKILL as int),
        !has_sig(m & !NON_MASKABLE_BITS, SIGSTOP as int),
{
    lemma_mask_clamp(m0);
    lemma_mask_clamp(m);
    lemma_nonmaskable_absent(m & !NON_MASKABLE_BITS);
}

/// While a handler for a catchable signal `s` runs, every maskable signal
/// of the displaced mask and of the handler's additional mask stays
/// blocked, `s` itself is re-blocked unless the handler asked not to, and
/// the non-maskable signals are blocked by neither.
pub proof fn lemma_handler_mask(m: u32, h: HandlerAction, s: usize)
    requires
        valid_signum(s as int),
        !non_catchable(s as int),
    ensures
        !h.no_defer ==> has_sig(handler_mask(m, h, s as int), s as int),
        forall|j: usize|
            valid_signum(j as int) && !non_catchable(j as int) && (has_sig(m, j as int) || has_sig(
                h.extra_mask,
                j as int,
            )) ==> has_sig(handler_mask(m, h, s as int), j as int),
        handler_mask(m, h, s as int) & NON_MASKABLE_BITS == 0,
{
    let own = if h.no_defer {
        0u32
    } else {
        sig_bit(s as int)
    };
    let combined = m | h.extra_mask | own;
    lemma_mask_clamp(combined);
    if !h.no_defer {
        let sb = (s - 1) as u32;
        assert((1u32 << sb) & (1u32 << sb) != 0) by (bit_vector)
            requires
                sb < 32,
        ;
        lemma_sig_union(m | h.extra_mask, own, s);
        lemma_clamp_keeps_catchable(combined, s);
    }
    assert forall|j: usize|
        valid_signum(j as int) && !non_catchable(j as int) && (has_sig(m, j as int) || has_sig(
            h.extra_mask,
            j as int,
        )) implies has_sig(handler_mask(m, h, s as int), j as int) by {
        lemma_sig_union(m, h.extra_mask, j);
        lemma_sig_union(m | h.extra_mask, own, j);
        lemma_clamp_keeps_catchable(combined, j);
    }
}

/// A full delivery/return cycle is identity-preserving on everything except
/// what handler entry is specified to touch: after a delivery enters a
/// handler, a handler return — whatever the handler meanwhile did to the
/// running context — restores the displaced context bit for bit, along with
/// the mask, the frame stack and the handling flag; only the delivered
/// signal's departure from the pending set remains.
pub proof fn lemma_delivery_return_identity(
    s0: SignalState,
    c0: LocalContext,
    s1: SignalState,
    c1: LocalContext,
    s2: SignalState,
    c2: LocalContext,
    n: int,
)
    requires
        s0.wf(),
        delivers_to_handler(s0, c0, s1, c1, n),
        returns_from_handler(s1, s2, c2),
    ensures
        c2 == c0,
        s2.spec_mask() == s0.spec_mask(),
        s2.spec_saved() == s0.spec_saved(),
        s2.spec_handling() == s0.spec_handling(),
        s2.spec_actions() == s0.spec_actions(),
        s2.spec_pending() == s1.spec_pending(),
{
    assert(s1.spec_saved().last() == (c0, s0.spec_mask()));
    assert(s2.spec_saved() =~= s0.spec_saved());
}

/// Nested delivery unwinds last-in-first-out: with a handler for signal `a`
/// already entered, delivering signal `b` pushes a second frame, and the
/// two following handler returns restore, in order, first the state the
/// delivery of `b` displaced and then the state the delivery of `a`
/// displaced.
pub proof fn lemma_nested_delivery_lifo(
    s0: SignalState,
    c0: LocalContext,
    ca: LocalContext,
    s1: SignalState,
    cb0: LocalContext,
    cb: LocalContext,
    s2: SignalState,
    s3: SignalState,
    r1: LocalContext,
    s4: SignalState,
    r2: LocalContext,
    a: int,
    b: int,
)
    requires
        s0.wf(),
        delivers_to_handler(s0, c0, s1, ca, a),
        delivers_to_handler(s1, cb0, s2, cb, b),
        returns_from_handler(s2, s3, r1),
        returns_from_handler(s3, s4, r2),
    ensures
        r1 == cb0,
        s3.spec_mask() == s1.spec_mask(),
        r2 == c0,
        s4.spec_mask() == s0.spec_mask(),
        s4.spec_saved() == s0.spec_saved(),
        s4.spec_handling() == s0.spec_handling(),
{
    assert(s2.spec_saved().last() == (cb0, s1.spec_mask()));
    assert(s3.spec_saved() =~= s1.spec_saved());
    assert(s3.spec_saved().last() == (c0, s0.spec_mask()));
    assert(s4.spec_saved() =~= s0.spec_saved());
}

/// A private helper of delivery: the lowest signal number in `d`, or 0
/// where the bitset holds none.
fn lowest_sig(d: u32) -> (r: usize)
    ensures
        r == first_sig(d),
{
    let mut i: usize = 1;
    while i <= 32
        invariant
            1 <= i <= 33,
            first_sig(d) == first_sig_from(d, i as int),
        decreases 33 - i,
    {
        if d & (1u32 << ((i - 1) as u32)) != 0 {
            return i;
        }
        i = i + 1;
    }
    0
}

} // verus!
