use mmterm::drain::{backoff_ms, batch_wants_more, parser_step, ParserAction, RecvOutcome, PARSE_BATCH_MAX, batch_effects, drain_pane_effects, Deferred, ends_drain, osc52_response, scroll_after_effect, trigger_bell, BellState, ParseEffect};

#[test]
fn live_view_stays_live() {
    assert_eq!(scroll_after_effect(0, &ParseEffect::ScrollbackChanged { old: 10, new: 20 }, 20), 0);
    assert_eq!(scroll_after_effect(0, &ParseEffect::Resized { delta: 5, new_sb: 30 }, 30), 0);
}

#[test]
fn scrolled_view_follows_growth_capped_by_scrollback() {
    assert_eq!(scroll_after_effect(5, &ParseEffect::ScrollbackChanged { old: 10, new: 13 }, 100), 8);
    assert_eq!(scroll_after_effect(5, &ParseEffect::ScrollbackChanged { old: 10, new: 13 }, 6), 6);
    assert_eq!(scroll_after_effect(5, &ParseEffect::ScrollbackChanged { old: 13, new: 10 }, 100), 5);
}

#[test]
fn scrolled_view_follows_resize() {
    assert_eq!(scroll_after_effect(5, &ParseEffect::Resized { delta: -10, new_sb: 50 }, 0), 0);
    assert_eq!(scroll_after_effect(5, &ParseEffect::Resized { delta: 3, new_sb: 50 }, 0), 8);
    assert_eq!(scroll_after_effect(5, &ParseEffect::Resized { delta: 3, new_sb: 7 }, 0), 7);
    assert_eq!(scroll_after_effect(5, &ParseEffect::Bell, 0), 5);
}

#[test]
fn only_disconnect_ends_the_drain() {
    assert!(ends_drain(&ParseEffect::Disconnected));
    assert!(!ends_drain(&ParseEffect::Bell));
    assert!(!ends_drain(&ParseEffect::ClipboardRead));
}

#[test]
fn bell_flashes_then_cools_down() {
    let mut b = BellState { bell_flash_start: None, bell_flash_until: None, bell_cooldown_until: None };
    trigger_bell(&mut b, 1000);
    assert_eq!(b.bell_flash_start, Some(1000));
    assert_eq!(b.bell_flash_until, Some(1150));
    assert_eq!(b.bell_cooldown_until, Some(1500));
    trigger_bell(&mut b, 1200);
    assert_eq!(b.bell_flash_start, Some(1000));
    trigger_bell(&mut b, 1500);
    assert_eq!(b.bell_flash_start, Some(1500));
    assert_eq!(b.bell_cooldown_until, Some(2000));
}

#[test]
fn clipboard_query_is_answered_in_base64() {
    assert_eq!(osc52_response("hello"), b"\x1b]52;c;aGVsbG8=\x1b\\".to_vec());
    assert_eq!(osc52_response(""), b"\x1b]52;c;\x1b\\".to_vec());
    assert_eq!(osc52_response("ab"), b"\x1b]52;c;YWI=\x1b\\".to_vec());
    assert_eq!(osc52_response("abc"), b"\x1b]52;c;YWJj\x1b\\".to_vec());
}

#[test]
fn pane_effects_drain_in_order_and_stop_at_disconnect() {
    let effects = vec![
        ParseEffect::PtyResponse(vec![1, 2]),
        ParseEffect::ScrollbackChanged { old: 10, new: 12 },
        ParseEffect::Bell,
        ParseEffect::ClipboardWrite("copied".to_string()),
        ParseEffect::ClipboardRead,
        ParseEffect::Resized { delta: -1, new_sb: 100 },
        ParseEffect::Disconnected,
        ParseEffect::PtyResponse(vec![9]),
        ParseEffect::Bell,
    ];
    let d = drain_pane_effects(&effects, 5, 50);
    assert_eq!(d.scroll_offset, 6);
    assert_eq!(d.pty_writes, vec![vec![1, 2]]);
    assert!(d.bell);
    assert_eq!(d.deferred.len(), 3);
    assert!(matches!(&d.deferred[0], Deferred::ClipboardWrite(t) if t == "copied"));
    assert!(matches!(d.deferred[1], Deferred::ClipboardRead));
    assert!(matches!(d.deferred[2], Deferred::Disconnected));
    let quiet = drain_pane_effects(&[ParseEffect::ScrollbackChanged { old: 0, new: 3 }], 0, 3);
    assert_eq!(quiet.scroll_offset, 0);
    assert!(!quiet.bell);
    assert!(quiet.deferred.is_empty());
}

#[test]
fn batch_effects_come_in_order() {
    let effects = batch_effects(10, 12, Some((-1, 11)), vec![27, 91], Some("clip".to_string()), true, true);
    assert_eq!(effects.len(), 6);
    assert!(matches!(effects[0], ParseEffect::ScrollbackChanged { old: 10, new: 12 }));
    assert!(matches!(effects[1], ParseEffect::Resized { delta: -1, new_sb: 11 }));
    assert!(matches!(&effects[2], ParseEffect::PtyResponse(b) if b == &vec![27u8, 91]));
    assert!(matches!(&effects[3], ParseEffect::ClipboardWrite(t) if t == "clip"));
    assert!(matches!(effects[4], ParseEffect::ClipboardRead));
    assert!(matches!(effects[5], ParseEffect::Bell));
}

#[test]
fn batch_effects_quiet_batch_reports_nothing() {
    assert!(batch_effects(5, 5, None, vec![], None, false, false).is_empty());
    let only_resize = batch_effects(3, 3, Some((2, 5)), vec![], None, false, false);
    assert_eq!(only_resize.len(), 1);
    assert!(matches!(only_resize[0], ParseEffect::Resized { delta: 2, new_sb: 5 }));
}

#[test]
fn parser_steps() {
    assert!(matches!(parser_step(RecvOutcome::Data, true), ParserAction::Parse));
    assert!(matches!(parser_step(RecvOutcome::Disconnected, true), ParserAction::Stop));
    assert!(matches!(parser_step(RecvOutcome::Timeout, true), ParserAction::ApplyResize));
    assert!(matches!(parser_step(RecvOutcome::Timeout, false), ParserAction::Wait));
}

#[test]
fn batch_cap_and_backoff() {
    assert_eq!(PARSE_BATCH_MAX, 32 * 1024);
    assert!(batch_wants_more(0));
    assert!(batch_wants_more(32 * 1024 - 1));
    assert!(!batch_wants_more(32 * 1024));
    assert_eq!(backoff_ms(true), 4);
    assert_eq!(backoff_ms(false), 0);
}
