//! Timer trigger source: update-event pacing, PWM compare channels, and the
//! burst window through which a DMA request writes a block of registers.
//!
//! The timer owns the prescaler/auto-reload pair that sets the update-event
//! frequency, one output-compare channel per PWM output, the burst-window
//! register that maps one DMA request onto a run of contiguous registers,
//! and the request-generation enable bit. Its state machine is
//! `Disabled -> Armed -> Running`: arming turns the update-event-to-DMA
//! request path on, and running starts the counter.

use vstd::prelude::*;

verus! {

use crate::burst::BurstDescriptor;
use crate::errors::ConfigError;

/// Number of output-compare channels the trigger timer exposes.
pub const COMPARE_CHANNEL_COUNT: usize = 4;

/// Lifecycle of the trigger timer.
///
/// `Armed` means the burst request path is enabled but the counter is not
/// yet running; `Running` means the counter is counting and every update
/// event requests a DMA burst.
#[derive(Clone, Copy, Debug, PartialEq, Eq, Structural)]
pub enum TimerState {
    Disabled,
    Armed,
    Running,
}

/// Output-compare PWM mode of one timer channel.
#[derive(Clone, Copy, Debug, PartialEq, Eq, Structural)]
pub enum PwmMode {
    /// Output active while the counter is below the compare value.
    Mode1,
    /// Output inactive while the counter is below the compare value.
    Mode2,
}

impl PwmMode {
    /// Mode code as the timer's output-compare mode field encodes it.
    pub open spec fn mode_code_spec(self) -> u32 {
        match self {
            PwmMode::Mode1 => 6,
            PwmMode::Mode2 => 7,
        }
    }

    /// Executable form of [`Self::mode_code_spec`].
    pub fn mode_code(&self) -> (r: u32)
        ensures
            r == self.mode_code_spec(),
    {
        match self {
            PwmMode::Mode1 => 6,
            PwmMode::Mode2 => 7,
        }
    }
}

/// Output-compare configuration word for one channel: the mode code in the
/// mode field (bits six down to four) plus the preload-enable bit (bit
/// three), so that compare updates latch at the next update event.
pub open spec fn pwm_mode_word_spec(mode: PwmMode) -> int {
    mode.mode_code_spec() * 16 + 8
}

/// Computes the output-compare configuration word for `mode`.
pub fn pwm_mode_word(mode: PwmMode) -> (r: u32)
    ensures
        r == pwm_mode_word_spec(mode),
{
    mode.mode_code() * 16 + 8
}

/// Auto-reload value for a `target_hz` update rate from a `clock_hz` input
/// clock with the prescaler left at zero: the division is floored, so the
/// achieved rate is the nearest representable rate at or above the target.
pub fn compute_reload(clock_hz: u32, target_hz: u32) -> (r: u32)
    requires
        1 <= target_hz <= clock_hz,
    ensures
        r == clock_hz / target_hz - 1,
        r < clock_hz,
{
    proof {
        vstd::arithmetic::div_mod::lemma_div_by_multiple(1, target_hz as int);
        vstd::arithmetic::div_mod::lemma_div_is_ordered(
            target_hz as int,
            clock_hz as int,
            target_hz as int,
        );
        vstd::arithmetic::div_mod::lemma_div_nonincreasing(clock_hz as int, target_hz as int);
    }
    clock_hz / target_hz - 1
}

/// The timer that paces the DMA bursts and carries the PWM outputs.
pub struct TimerTriggerSource {
    /// Lifecycle state; the burst request path is on exactly when this is
    /// `Armed` or `Running`.
    pub state: TimerState,
    /// Counter prescaler; zero here, the update rate is set by `reload`.
    pub prescaler: u16,
    /// Auto-reload value: the counter period is `reload + 1` clock ticks.
    pub reload: u32,
    /// Burst-window register word, as a [`BurstDescriptor`] encodes it.
    pub burst_window: u32,
    /// Compare register value of each output-compare channel.
    pub compare: Vec<u32>,
    /// Whether each output-compare channel drives its output pin.
    pub channel_enabled: Vec<bool>,
}

impl TimerTriggerSource {
    /// Well-formedness: one compare value and one enable flag per channel,
    /// and a period that leaves `reload + 1` representable.
    pub open spec fn wf(self) -> bool {
        &&& self.compare@.len() == COMPARE_CHANNEL_COUNT
        &&& self.channel_enabled@.len() == COMPARE_CHANNEL_COUNT
        &&& self.reload < u32::MAX
    }

    /// Whether the update-event-to-DMA request path is enabled.
    pub open spec fn burst_request_enabled(self) -> bool {
        self.state is Armed || self.state is Running
    }

    /// A fresh, disabled timer: all channels off, period of one tick.
    pub fn new() -> (t: Self)
        ensures
            t.wf(),
            t.state is Disabled,
            t.prescaler == 0,
            t.reload == 0,
            t.burst_window == 0,
            forall|i: int| 0 <= i < COMPARE_CHANNEL_COUNT ==> t.compare@[i] == 0,
            forall|i: int| 0 <= i < COMPARE_CHANNEL_COUNT ==> !t.channel_enabled@[i],
    {
        TimerTriggerSource {
            state: TimerState::Disabled,
            prescaler: 0,
            reload: 0,
            burst_window: 0,
            compare: vec![0, 0, 0, 0],
            channel_enabled: vec![false, false, false, false],
        }
    }

    /// Programs the prescaler/auto-reload pair for a `target_hz` update
    /// rate. Allowed only while disabled; a target of zero or above the
    /// clock cannot be reached and is rejected.
    pub fn configure_frequency(&mut self, target_hz: u32, clock_hz: u32) -> (r: Result<
        (),
        ConfigError,
    >)
        requires
            old(self).wf(),
        ensures
            final(self).wf(),
            !(old(self).state is Disabled) ==> r == Err::<(), ConfigError>(ConfigError::WrongState)
                && *final(self) == *old(self),
            old(self).state is Disabled && !(1 <= target_hz <= clock_hz) ==> r == Err::<
                (),
                ConfigError,
            >(ConfigError::InvalidFrequency) && *final(self) == *old(self),
            old(self).state is Disabled && 1 <= target_hz <= clock_hz ==> {
                &&& r == Ok::<(), ConfigError>(())
                &&& final(self).reload == clock_hz / target_hz - 1
                &&& final(self).prescaler == 0
                &&& final(self).state == old(self).state
                &&& final(self).burst_window == old(self).burst_window
                &&& final(self).compare == old(self).compare
                &&& final(self).channel_enabled == old(self).channel_enabled
            },
    {
        if !matches!(self.state, TimerState::Disabled) {
            return Err(ConfigError::WrongState);
        }
        if target_hz < 1 || target_hz > clock_hz {
            return Err(ConfigError::InvalidFrequency);
        }
        self.prescaler = 0;
        self.reload = compute_reload(clock_hz, target_hz);
        Ok(())
    }

    /// Programs the burst-window register from a validated descriptor.
    /// Allowed only while disabled.
    pub fn configure_burst_window(&mut self, descriptor: &BurstDescriptor) -> (r: Result<
        (),
        ConfigError,
    >)
        requires
            old(self).wf(),
            descriptor.wf(),
        ensures
            final(self).wf(),
            !(old(self).state is Disabled) ==> r == Err::<(), ConfigError>(ConfigError::WrongState)
                && *final(self) == *old(self),
            old(self).state is Disabled ==> {
                &&& r == Ok::<(), ConfigError>(())
                &&& final(self).burst_window == descriptor.dcr_word_spec()
                &&& final(self).state == old(self).state
                &&& final(self).prescaler == old(self).prescaler
                &&& final(self).reload == old(self).reload
                &&& final(self).compare == old(self).compare
                &&& final(self).channel_enabled == old(self).channel_enabled
            },
    {
        if !matches!(self.state, TimerState::Disabled) {
            return Err(ConfigError::WrongState);
        }
        self.burst_window = descriptor.dcr_word();
        Ok(())
    }

    /// Configures one output-compare channel as a PWM generator with an
    /// initial duty given as the fraction `duty_num / duty_den` of the
    /// period. The compare value is `(reload + 1) * duty_num / duty_den`,
    /// floored: integer truncation here is the documented approximation.
    /// Allowed only while disabled; the fraction must lie in the closed
    /// range from zero to one.
    pub fn enable_pwm_channel(
        &mut self,
        channel: usize,
        mode: PwmMode,
        duty_num: u32,
        duty_den: u32,
    ) -> (r: Result<(), ConfigError>)
        requires
            old(self).wf(),
        ensures
            final(self).wf(),
            !(old(self).state is Disabled) ==> r == Err::<(), ConfigError>(ConfigError::WrongState)
                && *final(self) == *old(self),
            old(self).state is Disabled && channel >= COMPARE_CHANNEL_COUNT ==> r == Err::<
                (),
                ConfigError,
            >(ConfigError::InvalidChannel) && *final(self) == *old(self),
            old(self).state is Disabled && channel < COMPARE_CHANNEL_COUNT && !(1 <= duty_den
                && duty_num <= duty_den) ==> r == Err::<(), ConfigError>(ConfigError::InvalidDuty)
                && *final(self) == *old(self),
            old(self).state is Disabled && channel < COMPARE_CHANNEL_COUNT && 1 <= duty_den
                && duty_num <= duty_den ==> {
                &&& r == Ok::<(), ConfigError>(())
                &&& final(self).compare@ == old(self).compare@.update(
                    channel as int,
                    (((old(self).reload + 1) * duty_num) / (duty_den as int)) as u32,
                )
                &&& final(self).channel_enabled@ == old(self).channel_enabled@.update(
                    channel as int,
                    true,
                )
                &&& final(self).state == old(self).state
                &&& final(self).prescaler == old(self).prescaler
                &&& final(self).reload == old(self).reload
                &&& final(self).burst_window == old(self).burst_window
            },
    {
        if !matches!(self.state, TimerState::Disabled) {
            return Err(ConfigError::WrongState);
        }
        if channel >= COMPARE_CHANNEL_COUNT {
            return Err(ConfigError::InvalidChannel);
        }
        if duty_den < 1 || duty_num > duty_den {
            return Err(ConfigError::InvalidDuty);
        }
        proof {
            lemma_duty_value_bounded(self.reload as u64, duty_num as u64, duty_den as u64);
        }
        let period = (self.reload as u64) + 1;
        let value = (period * (duty_num as u64)) / (duty_den as u64);
        self.compare.set(channel, value as u32);
        self.channel_enabled.set(channel, true);
        Ok(())
    }

    /// Arms the update-event-to-DMA request path (`Disabled -> Armed`).
    /// Callers must have the DMA channel enabled first; the driver-level
    /// orchestration enforces that ordering.
    pub fn enable_burst_request(&mut self) -> (r: Result<(), ConfigError>)
        requires
            old(self).wf(),
        ensures
            final(self).wf(),
            !(old(self).state is Disabled) ==> r == Err::<(), ConfigError>(ConfigError::WrongState)
                && *final(self) == *old(self),
            old(self).state is Disabled ==> r == Ok::<(), ConfigError>(()) && *final(self) == (
            TimerTriggerSource { state: TimerState::Armed, ..*old(self) }),
    {
        if !matches!(self.state, TimerState::Disabled) {
            return Err(ConfigError::WrongState);
        }
        self.state = TimerState::Armed;
        Ok(())
    }

    /// Starts the counter (`Armed -> Running`): from here every update
    /// event requests one DMA burst.
    pub fn start(&mut self) -> (r: Result<(), ConfigError>)
        requires
            old(self).wf(),
        ensures
            final(self).wf(),
            !(old(self).state is Armed) ==> r == Err::<(), ConfigError>(ConfigError::WrongState)
                && *final(self) == *old(self),
            old(self).state is Armed ==> r == Ok::<(), ConfigError>(()) && *final(self) == (
            TimerTriggerSource { state: TimerState::Running, ..*old(self) }),
    {
        if !matches!(self.state, TimerState::Armed) {
            return Err(ConfigError::WrongState);
        }
        self.state = TimerState::Running;
        Ok(())
    }

    /// Clears the counter-enable and request-generation bits, returning the
    /// timer to `Disabled` with its configuration intact. Total: safe in
    /// any state.
    pub fn disarm(&mut self)
        requires
            old(self).wf(),
        ensures
            final(self).wf(),
            *final(self) == (TimerTriggerSource { state: TimerState::Disabled, ..*old(self) }),
    {
        self.state = TimerState::Disabled;
    }

    /// Snapshot read of one compare register for diagnostics. Relative to
    /// an in-flight DMA burst this is eventually consistent, never atomic.
    pub fn read_compare_register(&self, channel: usize) -> (r: u32)
        requires
            self.wf(),
            channel < COMPARE_CHANNEL_COUNT,
        ensures
            r == self.compare@[channel as int],
    {
        self.compare[channel]
    }

    /// Snapshot of all compare registers, in channel order, for the
    /// diagnostic task.
    pub fn compare_snapshot(&self) -> (r: Vec<u32>)
        requires
            self.wf(),
        ensures
            r@ == self.compare@,
    {
        let mut out: Vec<u32> = Vec::new();
        let mut i: usize = 0;
        while i < COMPARE_CHANNEL_COUNT
            invariant
                self.wf(),
                i <= COMPARE_CHANNEL_COUNT,
                out@ == self.compare@.subrange(0, i as int),
            decreases COMPARE_CHANNEL_COUNT - i,
        {
            out.push(self.compare[i]);
            proof {
                assert(out@ == self.compare@.subrange(0, i + 1));
            }
            i += 1;
        }
        proof {
            assert(self.compare@.subrange(0, COMPARE_CHANNEL_COUNT as int) == self.compare@);
        }
        out
    }
}

/// The compare value of a duty fraction at most one never exceeds the
/// period, so it fits the compare register whenever the period does.
proof fn lemma_duty_value_bounded(reload: u64, duty_num: u64, duty_den: u64)
    requires
        reload < u32::MAX,
        1 <= duty_den < 0x1_0000_0000,
        duty_num <= duty_den,
    ensures
        (reload + 1) * duty_num <= u64::MAX,
        ((reload + 1) * duty_num) / (duty_den as int) <= reload + 1,
{
    let period = (reload + 1) as int;
    let n = duty_num as int;
    let d = duty_den as int;
    assert(period * n <= period * d) by (nonlinear_arith)
        requires
            n <= d,
            period >= 0,
    ;
    assert(period * d < 0x1_0000_0000 * 0x1_0000_0000) by (nonlinear_arith)
        requires
            0 <= period < 0x1_0000_0000,
            0 <= d < 0x1_0000_0000,
    ;
    vstd::arithmetic::div_mod::lemma_div_is_ordered(period * n, period * d, d);
    vstd::arithmetic::div_mod::lemma_div_by_multiple(period, d);
}

} // verus!
