use signal::DefaultAction;
use signal::HandlerAction;
use signal::LocalContext;
use signal::SignalDisposition;
use signal::SignalResult;
use signal::SignalState;
use signal::default_action_of;
use signal::MAX_SIG;
use signal::SIGKILL;
use signal::SIGSTOP;

fn handler(entry: usize) -> SignalDisposition {
    SignalDisposition::Handler(HandlerAction { entry, extra_mask: 0, no_defer: false })
}

#[test]
fn add_signal_is_idempotent() {
    let mut st = SignalState::new();
    assert!(!st.is_pending(10));
    st.add_signal(10);
    assert!(st.is_pending(10));
    st.add_signal(10);
    st.add_signal(10);
    assert!(st.is_pending(10));
    // present exactly once: one delivery of the ignored signal drains it
    let mut ctx = LocalContext::user(0);
    assert!(st.set_action(10, SignalDisposition::Ignore));
    assert_eq!(st.handle_signals(&mut ctx), SignalResult::NoAction);
    assert!(!st.is_pending(10));
}

#[test]
fn add_signal_invalid_is_ignored() {
    let mut st = SignalState::new();
    st.add_signal(0);
    st.add_signal(MAX_SIG + 1);
    for n in 0..=MAX_SIG + 1 {
        assert!(!st.is_pending(n));
    }
}

#[test]
fn update_mask_round_trip() {
    let mut st = SignalState::new();
    let old = st.update_mask(0b1010_1100);
    assert_eq!(old, 0);
    let back = st.update_mask(old);
    assert_eq!(back, 0b1010_1100);
    assert_eq!(st.update_mask(0), 0);
}

#[test]
fn update_mask_never_sets_non_maskable_bits() {
    let mut st = SignalState::new();
    st.update_mask(u32::MAX);
    let m = st.update_mask(0);
    assert_eq!(m & (1 << (SIGKILL - 1)), 0);
    assert_eq!(m & (1 << (SIGSTOP - 1)), 0);
    assert_eq!(m, u32::MAX & !(1 << 8) & !(1 << 18));
}

#[test]
fn set_action_rejects_non_catchable() {
    let mut st = SignalState::new();
    assert!(!st.set_action(SIGKILL, handler(0x1000)));
    assert!(!st.set_action(SIGSTOP, SignalDisposition::Ignore));
    assert_eq!(st.action_of(SIGKILL), Some(SignalDisposition::Default));
    assert_eq!(st.action_of(SIGSTOP), Some(SignalDisposition::Default));
}

#[test]
fn set_action_rejects_invalid_numbers() {
    let mut st = SignalState::new();
    assert!(!st.set_action(0, SignalDisposition::Ignore));
    assert!(!st.set_action(MAX_SIG + 1, SignalDisposition::Ignore));
    assert_eq!(st.action_of(0), None);
    assert_eq!(st.action_of(MAX_SIG + 1), None);
}

#[test]
fn set_action_installs_disposition() {
    let mut st = SignalState::new();
    let h = SignalDisposition::Handler(
        HandlerAction { entry: 0x1234, extra_mask: 4, no_defer: true },
    );
    assert!(st.set_action(5, h));
    assert_eq!(st.action_of(5), Some(h));
    assert!(st.set_action(5, SignalDisposition::Ignore));
    assert_eq!(st.action_of(5), Some(SignalDisposition::Ignore));
}

#[test]
fn from_fork_inherits_actions_and_mask_only() {
    let mut st = SignalState::new();
    assert!(st.set_action(4, SignalDisposition::Ignore));
    assert!(st.set_action(5, handler(0x900)));
    st.update_mask(0b10);
    st.add_signal(7);
    // put the parent inside a handler as well
    let mut ctx = LocalContext::user(0);
    assert!(st.set_action(3, handler(0x300)));
    st.add_signal(3);
    assert_eq!(st.handle_signals(&mut ctx), SignalResult::HandlerEntered);
    assert!(st.is_handling());
    assert!(st.is_pending(7));

    let mut child = st.from_fork();
    assert!(!child.is_handling());
    for n in 1..=MAX_SIG {
        assert!(!child.is_pending(n));
    }
    for n in 0..=MAX_SIG + 1 {
        assert_eq!(child.action_of(n), st.action_of(n));
    }
    let parent_mask = st.update_mask(0);
    st.update_mask(parent_mask);
    assert_eq!(child.update_mask(0), parent_mask);
}

#[test]
fn clear_resets_actions_and_mask_keeps_pending() {
    let mut st = SignalState::new();
    assert!(st.set_action(5, handler(0x500)));
    assert!(st.set_action(6, SignalDisposition::Ignore));
    st.update_mask(0b1000);
    st.add_signal(12);
    st.clear();
    for n in 1..=MAX_SIG {
        assert_eq!(st.action_of(n), Some(SignalDisposition::Default));
    }
    assert_eq!(st.update_mask(0), 0);
    assert!(st.is_pending(12));
}

#[test]
fn no_deliverable_signal_is_no_action() {
    let mut st = SignalState::new();
    let mut ctx = LocalContext::user(0x100);
    assert_eq!(st.handle_signals(&mut ctx), SignalResult::NoAction);
    assert_eq!(ctx.pc(), 0x100);
    // a masked pending signal is not delivered
    st.add_signal(5);
    st.update_mask(1 << 4);
    assert_eq!(st.handle_signals(&mut ctx), SignalResult::NoAction);
    assert!(st.is_pending(5));
}

#[test]
fn default_dispositions_yield_fixed_outcomes() {
    let mut ctx = LocalContext::user(0);

    let mut st = SignalState::new();
    st.add_signal(15);
    assert_eq!(st.handle_signals(&mut ctx), SignalResult::Terminated(15));
    assert!(!st.is_pending(15));

    let mut st = SignalState::new();
    st.add_signal(11);
    assert_eq!(st.handle_signals(&mut ctx), SignalResult::Terminated(11));

    let mut st = SignalState::new();
    st.add_signal(SIGSTOP);
    assert_eq!(st.handle_signals(&mut ctx), SignalResult::Stopped);

    let mut st = SignalState::new();
    st.add_signal(18);
    assert_eq!(st.handle_signals(&mut ctx), SignalResult::Continued);

    let mut st = SignalState::new();
    st.add_signal(17);
    assert_eq!(st.handle_signals(&mut ctx), SignalResult::NoAction);
    assert!(!st.is_pending(17));
}

#[test]
fn default_action_categories() {
    assert_eq!(default_action_of(15), DefaultAction::Terminate);
    assert_eq!(default_action_of(9), DefaultAction::Terminate);
    assert_eq!(default_action_of(11), DefaultAction::CoreDump);
    assert_eq!(default_action_of(3), DefaultAction::CoreDump);
    assert_eq!(default_action_of(19), DefaultAction::Stop);
    assert_eq!(default_action_of(22), DefaultAction::Stop);
    assert_eq!(default_action_of(18), DefaultAction::Continue);
    assert_eq!(default_action_of(17), DefaultAction::Ignore);
    assert_eq!(default_action_of(28), DefaultAction::Ignore);
}

#[test]
fn ignored_signal_is_discarded() {
    let mut st = SignalState::new();
    let mut ctx = LocalContext::user(0x40);
    assert!(st.set_action(10, SignalDisposition::Ignore));
    st.add_signal(10);
    assert_eq!(st.handle_signals(&mut ctx), SignalResult::NoAction);
    assert!(!st.is_pending(10));
    assert_eq!(ctx.pc(), 0x40);
}

#[test]
fn lowest_signal_wins() {
    let mut st = SignalState::new();
    let mut ctx = LocalContext::user(0x500);
    st.add_signal(10);
    st.add_signal(5);
    assert!(st.set_action(10, SignalDisposition::Ignore));
    assert!(st.set_action(5, handler(0x1000)));
    assert_eq!(st.handle_signals(&mut ctx), SignalResult::HandlerEntered);
    assert_eq!(ctx.pc(), 0x1000);
    assert_eq!(ctx.a(0), 5);
    assert_eq!(ctx.x(10), 5);
    assert!(!st.is_pending(5));
    assert!(st.is_pending(10));
    assert!(st.is_handling());
}

#[test]
fn delivery_and_return_round_trip() {
    let mut st = SignalState::new();
    let mut ctx = LocalContext::user(0x400);
    for n in 1..=31 {
        *ctx.x_mut(n) = n * 3;
    }
    *ctx.pc_mut() = 0xabc0;
    assert!(st.set_action(3, handler(0x1000)));
    st.add_signal(3);
    assert_eq!(st.handle_signals(&mut ctx), SignalResult::HandlerEntered);
    assert_eq!(ctx.pc(), 0x1000);
    assert_eq!(ctx.x(10), 3);
    assert!(ctx.interrupt());
    assert!(!ctx.supervisor());
    // the handler clobbers everything it may
    for n in 1..=31 {
        *ctx.x_mut(n) = 999;
    }
    *ctx.pc_mut() = 0xdead;
    assert!(st.sig_return(&mut ctx));
    assert!(!st.is_handling());
    for n in 1..=31 {
        assert_eq!(ctx.x(n), n * 3);
    }
    assert_eq!(ctx.pc(), 0xabc0);
    assert!(ctx.interrupt());
    assert!(!ctx.supervisor());
    assert_eq!(st.update_mask(0), 0);
}

#[test]
fn triggering_signal_is_masked_while_handled() {
    let mut st = SignalState::new();
    let mut ctx = LocalContext::user(0);
    assert!(st.set_action(4, handler(0x700)));
    st.add_signal(4);
    assert_eq!(st.handle_signals(&mut ctx), SignalResult::HandlerEntered);
    st.add_signal(4);
    assert_eq!(st.handle_signals(&mut ctx), SignalResult::NoAction);
    assert!(st.is_pending(4));
    assert!(st.sig_return(&mut ctx));
    assert_eq!(st.handle_signals(&mut ctx), SignalResult::HandlerEntered);
}

#[test]
fn no_defer_leaves_trigger_unmasked() {
    let mut st = SignalState::new();
    let mut ctx = LocalContext::user(0);
    let h = SignalDisposition::Handler(
        HandlerAction { entry: 0x800, extra_mask: 0, no_defer: true },
    );
    assert!(st.set_action(4, h));
    st.add_signal(4);
    assert_eq!(st.handle_signals(&mut ctx), SignalResult::HandlerEntered);
    st.add_signal(4);
    assert_eq!(st.handle_signals(&mut ctx), SignalResult::HandlerEntered);
    assert!(st.sig_return(&mut ctx));
    assert!(st.is_handling());
    assert!(st.sig_return(&mut ctx));
    assert!(!st.is_handling());
}

#[test]
fn handler_extra_mask_blocks_other_signals() {
    let mut st = SignalState::new();
    let mut ctx = LocalContext::user(0);
    let h = SignalDisposition::Handler(
        HandlerAction { entry: 0x600, extra_mask: 1 << 6, no_defer: false },
    );
    assert!(st.set_action(6, h));
    st.add_signal(6);
    assert_eq!(st.handle_signals(&mut ctx), SignalResult::HandlerEntered);
    st.add_signal(7);
    assert_eq!(st.handle_signals(&mut ctx), SignalResult::NoAction);
    assert!(st.is_pending(7));
    assert!(st.sig_return(&mut ctx));
    assert_eq!(st.handle_signals(&mut ctx), SignalResult::Terminated(7));
}

#[test]
fn nested_delivery_unwinds_lifo() {
    let mut st = SignalState::new();
    let mut ctx = LocalContext::user(0x50);
    *ctx.x_mut(2) = 1111;
    assert!(st.set_action(1, handler(0x100)));
    assert!(st.set_action(2, handler(0x200)));
    st.add_signal(1);
    assert_eq!(st.handle_signals(&mut ctx), SignalResult::HandlerEntered);
    assert_eq!(ctx.pc(), 0x100);
    assert_eq!(ctx.x(10), 1);
    // handler for 1 runs a little, then signal 2 arrives
    *ctx.pc_mut() = 0x104;
    *ctx.x_mut(2) = 2222;
    st.add_signal(2);
    assert_eq!(st.handle_signals(&mut ctx), SignalResult::HandlerEntered);
    assert_eq!(ctx.pc(), 0x200);
    assert_eq!(ctx.x(10), 2);
    *ctx.x_mut(2) = 3333;
    // first return: back into the handler for 1, exactly as interrupted
    assert!(st.sig_return(&mut ctx));
    assert!(st.is_handling());
    assert_eq!(ctx.pc(), 0x104);
    assert_eq!(ctx.x(2), 2222);
    assert_eq!(ctx.x(10), 1);
    // second return: back to the original flow
    assert!(st.sig_return(&mut ctx));
    assert!(!st.is_handling());
    assert_eq!(ctx.pc(), 0x50);
    assert_eq!(ctx.x(2), 1111);
    assert_eq!(ctx.x(10), 0);
}

#[test]
fn redirect_rewrites_only_pc_arg_and_interrupt() {
    let mut ctx = LocalContext::thread(0x90, false);
    *ctx.x_mut(2) = 777;
    *ctx.x_mut(11) = 88;
    ctx.redirect_to_handler(0x4000, 6);
    assert_eq!(ctx.pc(), 0x4000);
    assert_eq!(ctx.x(10), 6);
    assert_eq!(ctx.a(0), 6);
    assert!(ctx.interrupt());
    assert!(ctx.supervisor());
    assert_eq!(ctx.x(2), 777);
    assert_eq!(ctx.x(11), 88);
}

#[test]
fn delivery_keeps_privilege_of_kernel_context() {
    let mut st = SignalState::new();
    let mut ctx = LocalContext::thread(0x90, false);
    assert!(st.set_action(8, handler(0x4000)));
    st.add_signal(8);
    assert_eq!(st.handle_signals(&mut ctx), SignalResult::HandlerEntered);
    assert!(ctx.supervisor());
    assert!(ctx.interrupt());
    assert!(st.sig_return(&mut ctx));
    assert!(ctx.supervisor());
    assert!(!ctx.interrupt());
    assert_eq!(ctx.pc(), 0x90);
}

#[test]
fn sig_return_without_handler_fails() {
    let mut st = SignalState::new();
    let mut ctx = LocalContext::user(0x77);
    *ctx.x_mut(5) = 55;
    assert!(!st.sig_return(&mut ctx));
    assert_eq!(ctx.pc(), 0x77);
    assert_eq!(ctx.x(5), 55);
}
