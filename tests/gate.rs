use typing_gate::chooser::{accept_draw, fallback_letter, letter, RandomCharacterChooser, ALPHABET_LEN};
use typing_gate::gate::{contains_key, GateController};

fn is_capital(c: char) -> bool {
    ('A'..='Z').contains(&c)
}

#[test]
fn idle_gate_without_reversal_keeps_its_time() {
    let mut g = GateController::new(60_000, 5, false, 0, 1);
    let s = g.tick(60_000, &vec![], 60_000);
    assert_eq!(s.remaining_ms, 60_000);
    assert_eq!(s.typed_count, 0);
    assert!(!s.satisfied);
}

#[test]
fn matching_keys_count_once_and_time_runs() {
    let mut g = GateController::new(60_000, 5, false, 0, 2);
    let c = g.current_challenge();
    let s = g.tick(1000, &vec![c, c, c], 1000);
    assert_eq!(s.remaining_ms, 59_000);
    assert_eq!(s.typed_count, 1);
    assert_ne!(s.current_challenge, c);
    assert!(is_capital(s.current_challenge));
    assert_eq!(g.last_input_at(), 1000);
}

#[test]
fn wrong_key_does_not_count() {
    let mut g = GateController::new(60_000, 5, false, 0, 3);
    let c = g.current_challenge();
    let other = if c == 'A' { 'B' } else { 'A' };
    let s = g.tick(100, &vec![other], 100);
    assert_eq!(s.typed_count, 0);
    assert_eq!(s.current_challenge, c);
    assert_eq!(s.remaining_ms, 59_900);
}

#[test]
fn dead_zone_leaves_time_unchanged() {
    let mut g = GateController::new(60_000, 5, true, 0, 4);
    let s = g.tick(500, &vec![], 5000);
    assert_eq!(s.remaining_ms, 60_000);
}

#[test]
fn reversal_grows_time_back_up_to_the_bound() {
    let mut g = GateController::new(10_000, 5, true, 0, 5);
    g.tick(2000, &vec![], 2000);
    assert_eq!(g.remaining_ms(), 8000);
    g.tick(500, &vec![], 11_000);
    assert_eq!(g.remaining_ms(), 8500);
    g.tick(5000, &vec![], 16_000);
    assert_eq!(g.remaining_ms(), 10_000);
}

#[test]
fn countdown_floors_at_zero() {
    let mut g = GateController::new(1000, 0, false, 0, 6);
    let s = g.tick(5000, &vec![], 100);
    assert_eq!(s.remaining_ms, 0);
    assert!(s.satisfied);
}

#[test]
fn typing_alone_can_satisfy() {
    let mut g = GateController::new(0, 3, false, 0, 7);
    for t in 1..=10u64 {
        let c = g.current_challenge();
        let s = g.tick(10, &vec![c], t * 10);
        assert!(s.typed_count <= s.required_count);
        assert_eq!(s.remaining_ms, 0);
    }
    assert_eq!(g.typed_count(), 3);
    assert!(g.is_satisfied());
}

#[test]
fn bounds_hold_over_many_ticks() {
    let mut g = GateController::new(5000, 4, true, 0, 8);
    let mut now = 0u64;
    for step in 0..200u64 {
        now += 37 + (step % 5) * 400;
        let keys = if step % 3 == 0 { vec![g.current_challenge()] } else { vec!['Q'] };
        let s = g.tick(37 + (step % 5) * 400, &keys, now);
        assert!(s.remaining_ms <= g.required_ms());
        assert!(s.typed_count <= s.required_count);
    }
}

#[test]
fn satisfied_stays_until_reset() {
    let mut g = GateController::new(100, 1, false, 0, 9);
    let c = g.current_challenge();
    let s = g.tick(200, &vec![c], 50);
    assert!(s.satisfied);
    g.set_required_time(10_000);
    assert!(g.is_satisfied());
    assert_eq!(g.remaining_ms(), 0);
    let s = g.tick(100, &vec![], 60_000);
    assert!(s.satisfied);
    g.reset(70_000);
    assert!(!g.is_satisfied());
    assert_eq!(g.remaining_ms(), 10_000);
    assert_eq!(g.typed_count(), 0);
}

#[test]
fn setters_clamp_progress() {
    let mut g = GateController::new(60_000, 5, false, 0, 10);
    g.set_required_time(30_000);
    assert_eq!(g.remaining_ms(), 30_000);
    assert_eq!(g.required_ms(), 30_000);
    let c = g.current_challenge();
    g.tick(10, &vec![c], 10);
    let c = g.current_challenge();
    g.tick(10, &vec![c], 20);
    assert_eq!(g.typed_count(), 2);
    g.set_required_count(1);
    assert_eq!(g.typed_count(), 1);
    assert_eq!(g.required_count(), 1);
    g.set_reversal_enabled(true);
    assert!(g.reversal_enabled());
}

#[test]
fn chooser_never_repeats() {
    let mut ch = RandomCharacterChooser::new(42);
    let mut prev = ch.next(None);
    assert!(is_capital(prev));
    for _ in 0..1000 {
        let c = ch.next(Some(prev));
        assert_ne!(c, prev);
        assert!(is_capital(c));
        prev = c;
    }
}

#[test]
fn chooser_is_reproducible_under_a_seed() {
    let mut a = RandomCharacterChooser::new(5);
    let mut b = RandomCharacterChooser::new(5);
    for _ in 0..50 {
        assert_eq!(a.next(Some('M')), b.next(Some('M')));
    }
}

#[test]
fn draws_and_fallback() {
    assert_eq!(letter(0), 'A');
    assert_eq!(letter(ALPHABET_LEN - 1), 'Z');
    assert_eq!(accept_draw(Some('C'), 2), None);
    assert_eq!(accept_draw(Some('C'), 3), Some('D'));
    assert_eq!(accept_draw(None, 2), Some('C'));
    assert_eq!(fallback_letter(Some('C')), 'D');
    assert_eq!(fallback_letter(Some('Z')), 'A');
    assert_eq!(fallback_letter(Some('7')), 'A');
    assert_eq!(fallback_letter(None), 'A');
}

#[test]
fn key_lookup() {
    assert!(contains_key(&vec!['A', 'X'], 'X'));
    assert!(!contains_key(&vec!['A', 'X'], 'B'));
    assert!(!contains_key(&vec![], 'B'));
}
