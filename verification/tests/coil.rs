use modbus_supervisor::modbus::coil::{coil_state, coil_states, coil_word, widen_bits};

#[test]
fn bits_widen_to_ones_and_zeros() {
    assert_eq!(widen_bits(&vec![true, false, true]), vec![1u16, 0, 1]);
}

#[test]
fn no_bits_widen_to_no_words() {
    assert_eq!(widen_bits(&Vec::new()), Vec::<u16>::new());
}

#[test]
fn one_bit_widens_to_one_word() {
    assert_eq!(coil_word(true), 1);
    assert_eq!(coil_word(false), 0);
}

#[test]
fn written_values_map_to_truthiness() {
    assert_eq!(coil_states(&vec![0, 1, 2, 255]), vec![false, true, true, true]);
}

#[test]
fn no_values_map_to_no_states() {
    assert_eq!(coil_states(&Vec::new()), Vec::<bool>::new());
}

#[test]
fn only_zero_is_off() {
    assert!(!coil_state(0));
    assert!(coil_state(1));
    assert!(coil_state(2));
    assert!(coil_state(u16::MAX));
}

#[test]
fn widened_bits_map_back_to_the_bits() {
    let bits = vec![true, true, false, true, false, false];
    assert_eq!(coil_states(&widen_bits(&bits)), bits);
}

#[test]
fn mapping_values_is_lossy() {
    assert_eq!(widen_bits(&coil_states(&vec![0, 1, 2, 255])), vec![0u16, 1, 1, 1]);
}
