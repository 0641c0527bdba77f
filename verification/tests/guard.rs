use sram_guard::{
    disable_timeout, lock_media, set_timer_for_timeout, Error, SramContext, Timeout, CONTROL_ARMED,
    CONTROL_CLEARED,
};

#[test]
fn registered_watchdog_binds_each_unit() {
    for id in 0u8..4 {
        let mut ctx = SramContext::new();
        set_timer_for_timeout(&mut ctx, id);
        let wd = Timeout::new(&mut ctx).unwrap();
        assert!(wd.is_active());
        wd.start(&mut ctx);
        for unit in 0u8..4 {
            if unit == id {
                assert_eq!(ctx.timer_counter(unit), 0);
                assert_eq!(ctx.timer_control(unit), CONTROL_ARMED);
            } else {
                assert_eq!(ctx.timer_control(unit), CONTROL_CLEARED);
            }
        }
    }
}

#[test]
fn registry_overwrite_takes_latest() {
    let mut ctx = SramContext::new();
    set_timer_for_timeout(&mut ctx, 1);
    set_timer_for_timeout(&mut ctx, 3);
    let wd = Timeout::new(&mut ctx).unwrap();
    wd.start(&mut ctx);
    assert_eq!(ctx.timer_control(1), CONTROL_CLEARED);
    assert_eq!(ctx.timer_control(3), CONTROL_ARMED);
}

#[test]
fn watchdog_snapshots_selector_at_construction() {
    let mut ctx = SramContext::new();
    set_timer_for_timeout(&mut ctx, 0);
    let wd = Timeout::new(&mut ctx).unwrap();
    disable_timeout(&mut ctx);
    assert!(wd.is_active());
    wd.start(&mut ctx);
    assert_eq!(ctx.timer_control(0), CONTROL_ARMED);
}

#[test]
fn disabled_watchdog_is_inactive_and_inert() {
    let mut ctx = SramContext::new();
    disable_timeout(&mut ctx);
    let wd = Timeout::new(&mut ctx).unwrap();
    assert!(!wd.is_active());
    for unit in 0u8..4 {
        ctx.advance_timer(unit, 60000);
    }
    assert!(!wd.is_timeout_met(&ctx, 0));
    assert!(!wd.is_timeout_met(&ctx, 5));
    assert!(!wd.is_timeout_met(&ctx, 65535));
    wd.start(&mut ctx);
    for unit in 0u8..4 {
        assert_eq!(ctx.timer_counter(unit), 60000);
        assert_eq!(ctx.timer_control(unit), CONTROL_CLEARED);
    }
}

#[test]
fn watchdog_lock_is_exclusive() {
    let mut ctx = SramContext::new();
    set_timer_for_timeout(&mut ctx, 0);
    let first = Timeout::new(&mut ctx).unwrap();
    let second = Timeout::new(&mut ctx);
    assert!(matches!(second, Err(Error::MediaInUse)));
    first.release(&mut ctx);
    let third = Timeout::new(&mut ctx);
    assert!(third.is_ok());
}

#[test]
fn media_lock_is_exclusive() {
    let mut ctx = SramContext::new();
    let first = lock_media(&mut ctx).unwrap();
    let second = lock_media(&mut ctx);
    assert!(matches!(second, Err(Error::MediaInUse)));
    first.release(&mut ctx);
    let third = lock_media(&mut ctx);
    assert!(third.is_ok());
}

#[test]
fn watchdog_and_media_locks_are_independent() {
    let mut ctx = SramContext::new();
    let guard = lock_media(&mut ctx).unwrap();
    let wd = Timeout::new(&mut ctx).unwrap();
    assert!(matches!(lock_media(&mut ctx), Err(Error::MediaInUse)));
    assert!(matches!(Timeout::new(&mut ctx), Err(Error::MediaInUse)));
    wd.release(&mut ctx);
    assert!(matches!(lock_media(&mut ctx), Err(Error::MediaInUse)));
    assert!(Timeout::new(&mut ctx).is_ok());
    guard.release(&mut ctx);
    assert!(lock_media(&mut ctx).is_ok());
}

#[test]
fn timeout_threshold_is_exact() {
    let mut ctx = SramContext::new();
    set_timer_for_timeout(&mut ctx, 2);
    let wd = Timeout::new(&mut ctx).unwrap();
    wd.start(&mut ctx);
    // 5 ms converts to 85 ticks; the timeout needs the counter to be
    // strictly greater.
    ctx.advance_timer(2, 85);
    assert!(!wd.is_timeout_met(&ctx, 5));
    ctx.advance_timer(2, 1);
    assert!(wd.is_timeout_met(&ctx, 5));
}

#[test]
fn zero_threshold_met_after_one_tick() {
    let mut ctx = SramContext::new();
    set_timer_for_timeout(&mut ctx, 0);
    let wd = Timeout::new(&mut ctx).unwrap();
    wd.start(&mut ctx);
    assert!(!wd.is_timeout_met(&ctx, 0));
    ctx.advance_timer(0, 1);
    assert!(wd.is_timeout_met(&ctx, 0));
}

#[test]
fn largest_threshold_is_never_met() {
    let mut ctx = SramContext::new();
    set_timer_for_timeout(&mut ctx, 1);
    let wd = Timeout::new(&mut ctx).unwrap();
    wd.start(&mut ctx);
    // 65535 ms converts to more ticks than the 16-bit counter can hold.
    ctx.advance_timer(1, 65535);
    assert!(!wd.is_timeout_met(&ctx, 65535));
}

#[test]
fn start_resets_counter_every_time() {
    let mut ctx = SramContext::new();
    set_timer_for_timeout(&mut ctx, 0);
    let wd = Timeout::new(&mut ctx).unwrap();
    wd.start(&mut ctx);
    wd.start(&mut ctx);
    assert_eq!(ctx.timer_counter(0), 0);
    assert_eq!(ctx.timer_control(0), CONTROL_ARMED);
    ctx.advance_timer(0, 1234);
    wd.start(&mut ctx);
    assert_eq!(ctx.timer_counter(0), 0);
    assert_eq!(ctx.timer_control(0), CONTROL_ARMED);
}

#[test]
fn counter_wraps_at_sixteen_bits() {
    let mut ctx = SramContext::new();
    set_timer_for_timeout(&mut ctx, 3);
    let wd = Timeout::new(&mut ctx).unwrap();
    wd.start(&mut ctx);
    ctx.advance_timer(3, 65535);
    assert_eq!(ctx.timer_counter(3), 65535);
    assert!(wd.is_timeout_met(&ctx, 5));
    // One more tick wraps the counter to zero, so the timeout is silently
    // missed: a watchdog must not be held across a full counter period.
    ctx.advance_timer(3, 1);
    assert_eq!(ctx.timer_counter(3), 0);
    assert!(!wd.is_timeout_met(&ctx, 5));
}

#[test]
fn fresh_context_is_cleared() {
    let ctx = SramContext::new();
    for unit in 0u8..4 {
        assert_eq!(ctx.timer_counter(unit), 0);
        assert_eq!(ctx.timer_control(unit), CONTROL_CLEARED);
    }
}
