use dma_pwm::waveform::build_duty_table;
use dma_pwm::waveform::scale_peak;

#[test]
fn table_example_four_channels() {
    let pattern: Vec<Vec<u16>> = vec![
        vec![1, 0, 1, 0],
        vec![0, 1, 1, 0],
        vec![0, 1, 0, 1],
        vec![1, 0, 0, 1],
    ];
    let table = build_duty_table(128, 4, 100, &pattern);
    assert_eq!(table.len(), 512);
    assert_eq!(&table[0..8], &[100, 0, 100, 0, 0, 100, 100, 0]);
    // The rows cycle with the pattern length: step four replays row zero.
    assert_eq!(&table[16..20], &[100, 0, 100, 0]);
    // Last entry: step 127 uses row 3, whose last channel is on.
    assert_eq!(table[511], 100);
}

#[test]
fn table_entry_formula_exact() {
    let pattern: Vec<Vec<u16>> = vec![vec![2, 3]];
    let table = build_duty_table(3, 2, 10, &pattern);
    assert_eq!(table, vec![20, 30, 20, 30, 20, 30]);
}

#[test]
fn table_row_cycling_two_rows() {
    let pattern: Vec<Vec<u16>> = vec![vec![1], vec![0]];
    let table = build_duty_table(5, 1, 7, &pattern);
    assert_eq!(table, vec![7, 0, 7, 0, 7]);
}

#[test]
fn table_empty_when_no_steps() {
    let pattern: Vec<Vec<u16>> = vec![vec![1, 1]];
    let table = build_duty_table(0, 2, 50, &pattern);
    assert_eq!(table.len(), 0);
}

#[test]
fn table_peak_at_type_maximum() {
    let pattern: Vec<Vec<u16>> = vec![vec![1, 0]];
    let table = build_duty_table(2, 2, u16::MAX, &pattern);
    assert_eq!(table, vec![u16::MAX, 0, u16::MAX, 0]);
}

#[test]
fn scale_peak_floors() {
    assert_eq!(scale_peak(1000, 1, 3), 333);
    assert_eq!(scale_peak(100, 0, 5), 0);
    assert_eq!(scale_peak(u16::MAX, u16::MAX, u16::MAX), u16::MAX);
    assert_eq!(scale_peak(8499, 1, 2), 4249);
}
