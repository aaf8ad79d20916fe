use juragan_dsp::ring::{next_pos, prev_pos, Ring};
use juragan_dsp::rng::Xorshift32;

#[test]
fn xorshift_left_seed_sequence() {
    let mut rng = Xorshift32::new(12345);
    assert_eq!(rng.next_u32(), 3336926330);
    assert_eq!(rng.next_u32(), 1697253807);
    assert_eq!(rng.next_u32(), 2816511904);
}

#[test]
fn xorshift_right_seed_sequence() {
    let mut rng = Xorshift32::new(54321);
    assert_eq!(rng.next_u32(), 1247401778);
    assert_eq!(rng.next_u32(), 1732920013);
    assert_eq!(rng.next_u32(), 3446496708);
}

#[test]
fn xorshift_zero_seed_becomes_one() {
    let mut rng = Xorshift32::new(0);
    assert_eq!(rng.state, 1);
    // First draw from the replacement seed.
    assert_eq!(rng.next_u32(), 270369);
}

#[test]
fn cursor_steps_wrap() {
    assert_eq!(next_pos(0, 4), 1);
    assert_eq!(next_pos(2, 4), 3);
    assert_eq!(next_pos(3, 4), 0);
    assert_eq!(next_pos(0, 1), 0);
    assert_eq!(prev_pos(0, 4), 3);
    assert_eq!(prev_pos(3, 4), 2);
    assert_eq!(prev_pos(0, 1), 0);
}

#[test]
fn ring_exchange_is_a_fixed_delay() {
    let mut ring: Ring<i64> = Ring::new(vec![0, 0, 0]);
    assert_eq!(ring.len(), 3);
    // A ring of length three hands every value back three steps later.
    assert_eq!(ring.exchange(1), 0);
    assert_eq!(ring.exchange(2), 0);
    assert_eq!(ring.exchange(3), 0);
    assert_eq!(ring.exchange(4), 1);
    assert_eq!(ring.exchange(5), 2);
    assert_eq!(ring.exchange(6), 3);
    assert_eq!(ring.exchange(7), 4);
}

#[test]
fn ring_put_and_advance() {
    let mut ring: Ring<i64> = Ring::new(vec![0, 0]);
    assert_eq!(ring.position(), 0);
    ring.put(9);
    assert_eq!(ring.position(), 0);
    assert_eq!(ring.get(0), 9);
    assert_eq!(ring.get(1), 0);
    ring.advance();
    assert_eq!(ring.position(), 1);
    ring.put(7);
    assert_eq!(ring.get(1), 7);
    ring.advance();
    assert_eq!(ring.position(), 0);
}
