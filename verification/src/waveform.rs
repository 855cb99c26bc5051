//! Waveform table builder: the time-ordered sequence of duty-cycle words
//! that the DMA channel streams into the timer's compare registers.
//!
//! The table is built once at startup from a small set of parameters and a
//! phase pattern, a matrix of per-channel on/off multipliers whose rows
//! cycle as the steps advance. Entry `i` of the table is
//! `pattern[(i / channel_count) mod pattern_len][i mod channel_count] *
//! peak_value`, so consecutive runs of `channel_count` entries are the
//! per-channel words of one step. The builder is pure: no hardware is
//! touched and the same parameters always give the same table.

use vstd::prelude::*;

verus! {

use vstd::arithmetic::div_mod::lemma_fundamental_div_mod_converse;
use vstd::arithmetic::mul::lemma_mul_inequality;
use vstd::arithmetic::mul::lemma_mul_is_distributive_add_other_way;

/// A phase pattern fits a channel count when it has at least one row and
/// every row carries one multiplier per channel.
pub open spec fn pattern_wf(pattern: Seq<Seq<u16>>, channel_count: int) -> bool {
    &&& pattern.len() >= 1
    &&& forall|r: int| 0 <= r < pattern.len() ==> #[trigger] pattern[r].len() == channel_count
}

/// Table entry `i`: the multiplier of channel `i mod channel_count` in the
/// pattern row of step `i / channel_count` (rows cycling with the pattern
/// length), scaled by the peak value.
pub open spec fn duty_entry(
    pattern: Seq<Seq<u16>>,
    channel_count: int,
    peak_value: u16,
    i: int,
) -> int
    recommends
        channel_count >= 1,
        pattern_wf(pattern, channel_count),
        0 <= i,
{
    pattern[(i / channel_count) % pattern.len() as int][i % channel_count] * peak_value
}

/// Builds the duty table: `step_count * channel_count` words, channel by
/// channel within each step, steps cycling through the pattern rows.
pub fn build_duty_table(
    step_count: usize,
    channel_count: usize,
    peak_value: u16,
    phase_pattern: &Vec<Vec<u16>>,
) -> (table: Vec<u16>)
    requires
        channel_count >= 1,
        phase_pattern@.len() >= 1,
        pattern_wf(phase_pattern.deep_view(), channel_count as int),
        step_count * channel_count <= usize::MAX,
        forall|r: int, c: int|
            0 <= r < phase_pattern@.len() && 0 <= c < channel_count ==> #[trigger] (
            phase_pattern@[r]@[c] * peak_value) <= u16::MAX,
    ensures
        table@.len() == step_count * channel_count,
        forall|i: int|
            0 <= i < table@.len() ==> #[trigger] table@[i] == duty_entry(
                phase_pattern.deep_view(),
                channel_count as int,
                peak_value,
                i,
            ),
{
    let ghost pattern = phase_pattern.deep_view();
    let pattern_len = phase_pattern.len();
    let mut table: Vec<u16> = Vec::new();
    let mut step: usize = 0;
    while step < step_count
        invariant
            channel_count >= 1,
            pattern_len == phase_pattern@.len() >= 1,
            pattern == phase_pattern.deep_view(),
            pattern_wf(pattern, channel_count as int),
            step_count * channel_count <= usize::MAX,
            forall|r: int, c: int|
                0 <= r < phase_pattern@.len() && 0 <= c < channel_count ==> #[trigger] (
                phase_pattern@[r]@[c] * peak_value) <= u16::MAX,
            step <= step_count,
            table@.len() == step * channel_count,
            forall|i: int|
                0 <= i < table@.len() ==> #[trigger] table@[i] == duty_entry(
                    pattern,
                    channel_count as int,
                    peak_value,
                    i,
                ),
        decreases step_count - step,
    {
        proof {
            lemma_mul_inequality(step + 1, step_count as int, channel_count as int);
            lemma_mul_is_distributive_add_other_way(channel_count as int, step as int, 1);
        }
        let row = step % pattern_len;
        let mut ch: usize = 0;
        while ch < channel_count
            invariant
                channel_count >= 1,
                pattern_len == phase_pattern@.len() >= 1,
                pattern == phase_pattern.deep_view(),
                pattern_wf(pattern, channel_count as int),
                forall|r: int, c: int|
                    0 <= r < phase_pattern@.len() && 0 <= c < channel_count ==> #[trigger] (
                    phase_pattern@[r]@[c] * peak_value) <= u16::MAX,
                row == step % pattern_len,
                row < pattern_len,
                ch <= channel_count,
                step * channel_count + channel_count <= usize::MAX,
                table@.len() == step * channel_count + ch,
                forall|i: int|
                    0 <= i < table@.len() ==> #[trigger] table@[i] == duty_entry(
                        pattern,
                        channel_count as int,
                        peak_value,
                        i,
                    ),
            decreases channel_count - ch,
        {
            proof {
                assert(pattern[row as int] =~= phase_pattern@[row as int]@);
                assert(phase_pattern@[row as int]@.len() == channel_count);
            }
            let entry = phase_pattern[row][ch];
            assert(entry * peak_value <= u16::MAX) by {
                assert((phase_pattern@[row as int]@[ch as int] * peak_value) <= u16::MAX);
            }
            let word = entry * peak_value;
            table.push(word);
            proof {
                let i = step * channel_count + ch;
                lemma_fundamental_div_mod_converse(
                    i as int,
                    channel_count as int,
                    step as int,
                    ch as int,
                );
                assert((i as int) / (channel_count as int) == step as int);
                assert((i as int) % (channel_count as int) == ch as int);
                assert(table@[i as int] == duty_entry(
                    pattern,
                    channel_count as int,
                    peak_value,
                    i as int,
                ));
            }
            ch += 1;
        }
        step += 1;
    }
    table
}

/// Rescales a hardware maximum-duty value by the fraction
/// `numerator / denominator` with integer arithmetic; the result is
/// floored, a documented approximation rather than a defect.
pub fn scale_peak(max_duty: u16, numerator: u16, denominator: u16) -> (r: u16)
    requires
        1 <= denominator,
        numerator <= denominator,
    ensures
        r == (max_duty * numerator) / (denominator as int),
        r <= max_duty,
{
    proof {
        lemma_mul_inequality(numerator as int, denominator as int, max_duty as int);
        assert(max_duty * numerator == numerator * max_duty) by (nonlinear_arith);
        assert(max_duty * denominator == denominator * max_duty) by (nonlinear_arith);
        vstd::arithmetic::div_mod::lemma_div_is_ordered(
            (max_duty * numerator) as int,
            (max_duty * denominator) as int,
            denominator as int,
        );
        vstd::arithmetic::div_mod::lemma_div_by_multiple(max_duty as int, denominator as int);
        assert((max_duty as int) * (numerator as int) < 0x1_0000 * 0x1_0000) by (nonlinear_arith)
            requires
                0 <= max_duty < 0x1_0000,
                0 <= numerator < 0x1_0000,
        ;
    }
    (((max_duty as u32) * (numerator as u32)) / (denominator as u32)) as u16
}

} // verus!
