use snowflake_id::generator::GeneratorState;

// Mirrors the original bulk test: a quarter-million identifiers from one
// process render to a quarter-million distinct strings. The clock is
// simulated and never runs backwards.
#[test]
pub fn test_a() {
    let mut state = GeneratorState::new();
    let worker_id: u16 = 3;
    let mut timestamps = Vec::with_capacity(u16::MAX as usize);
    println!("Generating snowflakes");
    for i in 0..(u16::MAX as usize * 4) {
        let usage = (i % (u8::MAX as usize)) as u8;
        let now = i as u128;
        let id = match state.try_generate(now, worker_id, usage) {
            Some(id) => id,
            None => state
                .try_generate(now + 1, worker_id, usage)
                .expect("a fresh timestamp never exhausts the counter"),
        };
        timestamps.push(id);
    }
    println!("Sorting snowflakes");
    timestamps.sort_unstable_by_key(|e| e.as_hex_string());
    println!("Deduping snowflakes");
    timestamps.dedup_by_key(|e| e.as_hex_string());
    assert_eq!(timestamps.len(), u16::MAX as usize * 4);
}

#[test]
pub fn test_b() {
    let mut state = GeneratorState::new();
    let snowflake = state
        .try_generate(1, 0, 0)
        .expect("a fresh timestamp never exhausts the counter");
    println!("{}", snowflake.as_hex_string());
}

// Identifiers issued within one nanosecond are told apart by the sequence
// counter alone.
#[test]
fn same_nanosecond_ids_differ_in_sequence() {
    let mut state = GeneratorState::new();
    let a = state.try_generate(7, 1, 0).unwrap();
    let b = state.try_generate(7, 1, 0).unwrap();
    let c = state.try_generate(7, 1, 0).unwrap();
    assert_eq!(a.timestamp, 7);
    assert_eq!(b.timestamp, 7);
    assert_eq!(c.timestamp, 7);
    assert_eq!(b.sequence_id, a.sequence_id + 1);
    assert_eq!(c.sequence_id, b.sequence_id + 1);
    assert_ne!(a.as_hex_string(), b.as_hex_string());
    assert_ne!(b.as_hex_string(), c.as_hex_string());
}

// The counter is not reset when the clock advances; it only grows.
#[test]
fn sequence_counter_is_not_reset_on_advance() {
    let mut state = GeneratorState::new();
    state.try_generate(1, 0, 0).unwrap();
    let b = state.try_generate(1, 0, 0).unwrap();
    assert_eq!(b.sequence_id, 1);
    let c = state.try_generate(2, 0, 0).unwrap();
    assert_eq!(c.sequence_id, 1);
    let d = state.try_generate(2, 0, 0).unwrap();
    assert_eq!(d.sequence_id, 2);
}

// Sequence exhaustion: at the counter's maximum, another call within the
// same nanosecond is declined (the caller stalls for the clock instead of
// overflowing), and the next nanosecond still yields a fresh, non-colliding
// identifier.
#[test]
fn sequence_exhaustion_stalls_and_recovers() {
    let mut state = GeneratorState::new();
    // Drive the counter to its maximum: 255 repeats of the same nanosecond.
    let mut last = state.try_generate(5, 2, 9).unwrap();
    for _ in 0..u8::MAX {
        last = match state.try_generate(5, 2, 9) {
            Some(id) => id,
            None => panic!("counter exhausted before reaching the maximum"),
        };
    }
    assert_eq!(last.sequence_id, u8::MAX);
    assert!(state.at_sequence_limit());
    // Same nanosecond again: the step is declined, nothing overflows.
    assert!(state.try_generate(5, 2, 9).is_none());
    assert!(state.at_sequence_limit());
    // The clock advances: generation resumes with a distinct identifier.
    let next = state.try_generate(6, 2, 9).expect("a fresh timestamp must be accepted");
    assert_eq!(next.timestamp, 6);
    assert_eq!(next.sequence_id, u8::MAX);
    assert_ne!(next.as_hex_string(), last.as_hex_string());
}

// A caller-supplied usage tag is carried through unchanged and does not
// influence the anti-collision fields.
#[test]
fn usage_tag_is_carried_through() {
    let mut state = GeneratorState::new();
    let id = state.try_generate(9, 4, 0xAB).unwrap();
    assert_eq!(id.usage_id, 0xAB);
    assert_eq!(id.worker_id, 4);
    let decoded =
        snowflake_id::snowflake::decode_hex_chars(&id.as_hex_string().chars().collect()).unwrap();
    assert_eq!(decoded.usage_id, 0xAB);
}
