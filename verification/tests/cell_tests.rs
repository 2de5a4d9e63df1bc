use cypher_cell::CellError;
use cypher_cell::CypherCell;
use cypher_cell::PinBudget;

fn budget() -> PinBudget {
    PinBudget::new(1 << 20)
}

#[test]
fn reveal_returns_secret_unchanged() {
    let mut pins = budget();
    let mut cell = CypherCell::new(b"hunter2", false, None, &mut pins);
    assert_eq!(cell.reveal_now(&mut pins), Ok("hunter2".to_string()));
    // A non-volatile cell is not consumed: revealing again still works.
    assert_eq!(cell.reveal_now(&mut pins), Ok("hunter2".to_string()));
}

#[test]
fn volatile_reveal_succeeds_once() {
    let mut pins = budget();
    let mut cell = CypherCell::new(b"hunter2", true, None, &mut pins);
    assert_eq!(cell.reveal_now(&mut pins), Ok("hunter2".to_string()));
    assert_eq!(cell.reveal_now(&mut pins), Err(CellError::EmptyCell));
}

#[test]
fn zero_ttl_always_expires() {
    let mut pins = budget();
    let mut cell = CypherCell::new(b"hunter2", false, Some(0), &mut pins);
    assert_eq!(cell.reveal_now(&mut pins), Err(CellError::TTLExpired));
    // The expiry wipes the cell, so even without a deadline the content is gone.
    assert!(cell.is_empty());
}

#[test]
fn ttl_boundary_is_strict() {
    let mut pins = budget();
    let mut cell = CypherCell::new(b"key", false, Some(1), &mut pins);
    // Exactly one second elapsed does not exceed a one-second deadline.
    assert_eq!(cell.reveal_at(1_000_000_000, &mut pins), Ok("key".to_string()));
    // One nanosecond past it does, and the failure wipes the cell.
    assert_eq!(
        cell.reveal_at(1_000_000_001, &mut pins),
        Err(CellError::TTLExpired)
    );
    assert!(cell.is_empty());
    assert_eq!(cell.reveal_at(0, &mut pins), Err(CellError::EmptyCell));
}

#[test]
fn masked_reveal_short_suffix() {
    let mut pins = budget();
    let cell = CypherCell::new(b"abcdef", false, None, &mut pins);
    assert_eq!(cell.reveal_masked(2), Ok("****ef".to_string()));
    assert_eq!(cell.reveal_masked(0), Ok("******".to_string()));
}

#[test]
fn masked_reveal_long_suffix_unmasked() {
    let mut pins = budget();
    let cell = CypherCell::new(b"abcdef", false, None, &mut pins);
    assert_eq!(cell.reveal_masked(10), Ok("abcdef".to_string()));
    assert_eq!(cell.reveal_masked(6), Ok("abcdef".to_string()));
}

#[test]
fn empty_cell_cannot_be_revealed() {
    let mut pins = budget();
    let mut cell = CypherCell::new(b"", false, None, &mut pins);
    assert_eq!(cell.reveal_now(&mut pins), Err(CellError::EmptyCell));
    assert_eq!(cell.reveal_masked(3), Err(CellError::EmptyCell));
}

#[test]
fn all_zero_secret_reads_as_empty() {
    // A genuinely all-zero secret is indistinguishable from a wiped buffer.
    let mut pins = budget();
    let mut cell = CypherCell::new(&[0, 0, 0], false, None, &mut pins);
    assert_eq!(cell.reveal_now(&mut pins), Err(CellError::EmptyCell));
    assert_eq!(cell.reveal_masked(1), Err(CellError::EmptyCell));
}

#[test]
fn wipe_then_reveal_fails() {
    let mut pins = budget();
    let mut cell = CypherCell::new(b"secret", false, None, &mut pins);
    cell.wipe(&mut pins);
    assert_eq!(cell.reveal_now(&mut pins), Err(CellError::EmptyCell));
    assert_eq!(cell.reveal_masked(2), Err(CellError::EmptyCell));
    assert_eq!(cell.len(), 6);
    assert!(cell.is_empty());
}

#[test]
fn wipe_twice_is_safe() {
    // The pin grant is returned exactly once: a budget that fits one cell
    // can take a new cell after the first wipe, and the second wipe does not
    // free anything further.
    let mut pins = PinBudget::new(6);
    let mut cell = CypherCell::new(b"secret", false, None, &mut pins);
    cell.wipe(&mut pins);
    cell.wipe(&mut pins);
    assert!(cell.is_empty());
    assert!(!cell.is_pinned());
    assert_eq!(cell.reveal_now(&mut pins), Err(CellError::EmptyCell));
    let next = CypherCell::new(b"secret", false, None, &mut pins);
    assert!(next.is_pinned());
}

#[test]
fn pin_budget_exhaustion_degrades_but_works() {
    let mut pins = PinBudget::new(4);
    let mut cell = CypherCell::new(b"longer than four", false, None, &mut pins);
    assert!(!cell.is_pinned());
    assert_eq!(cell.reveal_now(&mut pins), Ok("longer than four".to_string()));
}

#[test]
fn pin_budget_granted_and_returned() {
    let mut pins = PinBudget::new(8);
    let mut cell = CypherCell::new(b"12345678", false, None, &mut pins);
    assert!(cell.is_pinned());
    // The budget is exhausted while the cell holds its grant.
    let second = CypherCell::new(b"x", false, None, &mut pins);
    assert!(!second.is_pinned());
    // Wiping returns the grant.
    cell.wipe(&mut pins);
    let third = CypherCell::new(b"x", false, None, &mut pins);
    assert!(third.is_pinned());
}

#[test]
fn volatile_consumption_returns_pin_grant() {
    let mut pins = PinBudget::new(4);
    let mut cell = CypherCell::new(b"abcd", true, None, &mut pins);
    assert!(cell.is_pinned());
    assert_eq!(cell.reveal_now(&mut pins), Ok("abcd".to_string()));
    assert!(!cell.is_pinned());
    let next = CypherCell::new(b"efgh", false, None, &mut pins);
    assert!(next.is_pinned());
}

#[test]
fn repr_is_fixed_and_secret_free() {
    let mut pins = budget();
    let mut cell = CypherCell::new(b"hunter2", true, Some(9), &mut pins);
    assert_eq!(cell.repr(), "<CypherCell: [REDACTED]>");
    assert!(!cell.repr().contains("hunter2"));
    cell.wipe(&mut pins);
    assert_eq!(cell.repr(), "<CypherCell: [REDACTED]>");
    let empty = CypherCell::new(b"", false, None, &mut pins);
    assert_eq!(empty.repr(), "<CypherCell: [REDACTED]>");
}

#[test]
fn invalid_utf8_decodes_with_replacement() {
    let mut pins = budget();
    let mut cell = CypherCell::new(&[0xff, b'a'], false, None, &mut pins);
    assert_eq!(cell.reveal_now(&mut pins), Ok("\u{fffd}a".to_string()));
}

#[test]
fn masked_reveal_splits_multibyte_sequences() {
    // "né" is [n, 0xc3, 0xa9]; a one-byte suffix cuts the é in half and the
    // stray continuation byte decodes as a replacement marker.
    let mut pins = budget();
    let cell = CypherCell::new("n\u{e9}".as_bytes(), false, None, &mut pins);
    assert_eq!(cell.reveal_masked(1), Ok("**\u{fffd}".to_string()));
    assert_eq!(cell.reveal_masked(2), Ok("*\u{e9}".to_string()));
}

#[test]
fn masked_reveal_ignores_ttl() {
    let mut pins = budget();
    let cell = CypherCell::new(b"abcdef", false, Some(0), &mut pins);
    // The deadline has long passed, but the masked reveal does not check it.
    assert_eq!(cell.reveal_masked(2), Ok("****ef".to_string()));
}

#[test]
fn error_messages() {
    assert_eq!(CellError::TTLExpired.message(), "TTL expired");
    assert_eq!(CellError::EmptyCell.message(), "Cell is empty/wiped.");
}

#[test]
fn reveal_at_zero_elapsed_under_zero_ttl() {
    // The deadline comparison is strict: at exactly zero elapsed time even a
    // zero time-to-live has not yet been exceeded.
    let mut pins = budget();
    let mut cell = CypherCell::new(b"s", false, Some(0), &mut pins);
    assert_eq!(cell.reveal_at(0, &mut pins), Ok("s".to_string()));
    assert_eq!(cell.reveal_at(1, &mut pins), Err(CellError::TTLExpired));
}
