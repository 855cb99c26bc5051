use dma_pwm::registers::PIN_MODE_ALTERNATE;
use dma_pwm::registers::field_read;
use dma_pwm::registers::field_set;
use dma_pwm::registers::pin_alternate_function;
use dma_pwm::registers::pin_mode_alternate;
use dma_pwm::registers::pin_push_pull;

#[test]
fn field_set_replaces_only_the_named_field() {
    let word = 0xFFFF_FFFF;
    let updated = field_set(word, 8, 4, 0x5);
    assert_eq!(updated, 0xFFFF_F5FF);
    assert_eq!(field_read(updated, 8, 4), 0x5);
    assert_eq!(field_read(updated, 0, 8), 0xFF);
    assert_eq!(field_read(updated, 12, 8), 0xFF);
}

#[test]
fn field_set_into_cleared_word() {
    assert_eq!(field_set(0, 0, 1, 1), 1);
    assert_eq!(field_set(0, 31, 1, 1), 0x8000_0000);
    assert_eq!(field_set(0, 4, 3, 6), 0x60);
}

#[test]
fn pin_mode_alternate_sets_two_bit_field() {
    // Pin zero of a port whose pins are all in the reset (input) mode.
    let moder = pin_mode_alternate(0, 0);
    assert_eq!(moder, PIN_MODE_ALTERNATE);
    // Pin three on a word with every bit set: only its field changes.
    let moder = pin_mode_alternate(0xFFFF_FFFF, 3);
    assert_eq!(moder, 0xFFFF_FFBF);
    assert_eq!(field_read(moder, 6, 2), PIN_MODE_ALTERNATE);
}

#[test]
fn pin_push_pull_clears_one_bit() {
    let otyper = pin_push_pull(0xFFFF_FFFF, 5);
    assert_eq!(otyper, 0xFFFF_FFDF);
    assert_eq!(pin_push_pull(0, 5), 0);
}

#[test]
fn pin_alternate_function_sets_selector() {
    // Alternate function one for pin zero: lowest selector becomes one.
    let afr = pin_alternate_function(0, 0, 1);
    assert_eq!(afr, 0x1);
    // A different pin's selector leaves the others alone.
    let afr = pin_alternate_function(0xFFFF_FFFF, 2, 0xA);
    assert_eq!(afr, 0xFFFF_FAFF);
}
