//! DMA channel controller: configuration word packing, request routing, and
//! the channel's lifecycle state machine.
//!
//! The channel streams a memory buffer into a peripheral register window,
//! one request at a time. Its lifecycle is `Idle -> Configured -> Enabled`,
//! then either `Enabled` forever (circular mode) or `Complete -> Idle`
//! (one-shot mode, closed by an explicit stop). Configuration-order
//! violations are rejected by value, never acted on.

use vstd::prelude::*;

verus! {

use crate::errors::ConfigError;

/// Bus arbitration priority of a DMA channel.
#[derive(Clone, Copy, Debug, PartialEq, Eq, Structural)]
pub enum Priority {
    Low,
    Medium,
    High,
    VeryHigh,
}

impl Priority {
    /// Two-bit priority code as the channel configuration register encodes
    /// it.
    pub open spec fn level_spec(self) -> u32 {
        match self {
            Priority::Low => 0,
            Priority::Medium => 1,
            Priority::High => 2,
            Priority::VeryHigh => 3,
        }
    }

    /// Executable form of [`Self::level_spec`].
    pub fn level(&self) -> (r: u32)
        ensures
            r == self.level_spec(),
    {
        match self {
            Priority::Low => 0,
            Priority::Medium => 1,
            Priority::High => 2,
            Priority::VeryHigh => 3,
        }
    }
}

/// Width of one transferred word on one side of the channel.
#[derive(Clone, Copy, Debug, PartialEq, Eq, Structural)]
pub enum WordSize {
    Bits8,
    Bits16,
    Bits32,
}

impl WordSize {
    /// Two-bit size code as the channel configuration register encodes it.
    pub open spec fn size_code_spec(self) -> u32 {
        match self {
            WordSize::Bits8 => 0,
            WordSize::Bits16 => 1,
            WordSize::Bits32 => 2,
        }
    }

    /// Executable form of [`Self::size_code_spec`].
    pub fn size_code(&self) -> (r: u32)
        ensures
            r == self.size_code_spec(),
    {
        match self {
            WordSize::Bits8 => 0,
            WordSize::Bits16 => 1,
            WordSize::Bits32 => 2,
        }
    }
}

/// Which internal peripheral event the request multiplexer routes to the
/// DMA channel.
#[derive(Clone, Copy, Debug, PartialEq, Eq, Structural)]
pub enum RequestSource {
    /// The trigger timer's periodic update event.
    TimerUpdate,
    /// The trigger timer's first capture/compare event.
    TimerCompare1,
}

impl RequestSource {
    /// Documented request-line number of the event on the multiplexer.
    pub open spec fn request_line_spec(self) -> u8 {
        match self {
            RequestSource::TimerUpdate => 60,
            RequestSource::TimerCompare1 => 56,
        }
    }

    /// Executable form of [`Self::request_line_spec`].
    pub fn request_line(&self) -> (r: u8)
        ensures
            r == self.request_line_spec(),
    {
        match self {
            RequestSource::TimerUpdate => 60,
            RequestSource::TimerCompare1 => 56,
        }
    }
}

/// Checks a raw request-line number against the documented event lines of
/// the trigger timer; a miswired line is rejected rather than routed.
pub fn validate_request_line(line: u8) -> (r: Result<RequestSource, ConfigError>)
    ensures
        line == 60 ==> r == Ok::<RequestSource, ConfigError>(RequestSource::TimerUpdate),
        line == 56 ==> r == Ok::<RequestSource, ConfigError>(RequestSource::TimerCompare1),
        line != 60 && line != 56 ==> r == Err::<RequestSource, ConfigError>(
            ConfigError::InvalidRequestLine,
        ),
{
    if line == 60 {
        Ok(RequestSource::TimerUpdate)
    } else if line == 56 {
        Ok(RequestSource::TimerCompare1)
    } else {
        Err(ConfigError::InvalidRequestLine)
    }
}

/// Everything the channel needs to know about one transfer.
#[derive(Clone, Copy, Debug, PartialEq, Eq, Structural)]
pub struct DmaChannelConfig {
    /// Memory address the transfer reads from.
    pub source_address: u32,
    /// Peripheral register address the transfer writes to.
    pub dest_address: u32,
    /// Items the channel moves before completing or re-arming.
    pub transfer_count: u16,
    /// Circular mode re-arms automatically after `transfer_count` items;
    /// one-shot mode completes exactly once.
    pub circular: bool,
    /// Bus arbitration priority.
    pub priority: Priority,
    /// Whether the memory address advances after each item.
    pub memory_increment: bool,
    /// Whether the peripheral address advances after each item.
    pub peripheral_increment: bool,
    /// Word width on the memory side.
    pub source_word_size: WordSize,
    /// Word width on the peripheral side.
    pub dest_word_size: WordSize,
}

impl DmaChannelConfig {
    /// Channel configuration register word for this transfer, with the
    /// enable bit (bit zero) clear. Field placement: direction
    /// (memory-to-peripheral) at bit four, circular at bit five, the
    /// increment flags at bits six and seven, the peripheral and memory
    /// size codes at bits eight and ten, the priority code at bit twelve.
    /// Memory-to-memory mode and all three interrupt enables stay clear;
    /// leaving the transfer-error interrupt off mirrors the hardware gap
    /// this driver surfaces through its error counter instead.
    pub open spec fn ccr_word_spec(self) -> int {
        16 + (if self.circular {
            32int
        } else {
            0int
        }) + (if self.peripheral_increment {
            64int
        } else {
            0int
        }) + (if self.memory_increment {
            128int
        } else {
            0int
        }) + self.dest_word_size.size_code_spec() * 256 + self.source_word_size.size_code_spec()
            * 1024 + self.priority.level_spec() * 4096
    }

    /// Packs the channel configuration register word.
    pub fn ccr_word(&self) -> (r: u32)
        ensures
            r == self.ccr_word_spec(),
            r < 0x8000,
    {
        let circ: u32 = if self.circular {
            32
        } else {
            0
        };
        let pinc: u32 = if self.peripheral_increment {
            64
        } else {
            0
        };
        let minc: u32 = if self.memory_increment {
            128
        } else {
            0
        };
        16 + circ + pinc + minc + self.dest_word_size.size_code() * 256
            + self.source_word_size.size_code() * 1024 + self.priority.level() * 4096
    }
}

/// Per-channel interrupt flags that can be cleared individually.
#[derive(Clone, Copy, Debug, PartialEq, Eq, Structural)]
pub enum InterruptKind {
    HalfTransfer,
    TransferComplete,
    TransferError,
}

/// Lifecycle of one DMA channel.
#[derive(Clone, Copy, Debug, PartialEq, Eq, Structural)]
pub enum ChannelState {
    /// Not programmed; the only state `configure` accepts.
    Idle,
    /// Programmed but not yet transferring.
    Configured,
    /// Transferring; in circular mode this state is never left by the
    /// hardware.
    Enabled,
    /// A one-shot transfer finished; an explicit stop returns to `Idle`.
    Complete,
}

/// Software model of one hardware DMA channel: its lifecycle state, the
/// staged configuration, the items left in the current pass, and the
/// interrupt flags the hardware raises.
pub struct DmaChannelController {
    /// Lifecycle state.
    pub state: ChannelState,
    /// Configuration staged by the last accepted `configure` call.
    pub config: Option<DmaChannelConfig>,
    /// Items left in the current pass of the transfer counter.
    pub remaining: u16,
    /// Half-transfer interrupt flag.
    pub half_transfer_flag: bool,
    /// Transfer-complete interrupt flag.
    pub transfer_complete_flag: bool,
    /// Transfer-error interrupt flag. The hardware leaves the matching
    /// interrupt disabled; this driver surfaces observations of the flag
    /// through `error_events` instead of silently inheriting the gap.
    pub transfer_error_flag: bool,
    /// Count of transfer-error observations since the channel was created.
    pub error_events: u32,
}

impl DmaChannelController {
    /// Well-formedness: a programmed channel carries a nonempty transfer,
    /// and while enabled the current pass always has work left.
    pub open spec fn wf(self) -> bool {
        &&& !(self.state is Idle) ==> self.config is Some
        &&& (self.config matches Some(c) ==> c.transfer_count >= 1)
        &&& (self.state is Configured ==> (self.config matches Some(c) && self.remaining
            == c.transfer_count))
        &&& (self.state is Enabled ==> (self.config matches Some(c) && 1 <= self.remaining
            <= c.transfer_count))
        &&& (self.state is Complete ==> self.remaining == 0)
    }

    /// Whether the hardware enable bit is set: it is set by `enable` and
    /// stays set through one-shot completion until an explicit stop.
    pub open spec fn enable_bit(self) -> bool {
        self.state is Enabled || self.state is Complete
    }

    /// Executable read of the enable bit.
    pub fn enable_bit_set(&self) -> (r: bool)
        ensures
            r == self.enable_bit(),
    {
        matches!(self.state, ChannelState::Enabled | ChannelState::Complete)
    }

    /// A fresh, idle channel with no configuration and no pending flags.
    pub fn new() -> (c: Self)
        ensures
            c.wf(),
            c.state is Idle,
            c.config is None,
            c.remaining == 0,
            !c.half_transfer_flag,
            !c.transfer_complete_flag,
            !c.transfer_error_flag,
            c.error_events == 0,
    {
        DmaChannelController {
            state: ChannelState::Idle,
            config: None,
            remaining: 0,
            half_transfer_flag: false,
            transfer_complete_flag: false,
            transfer_error_flag: false,
            error_events: 0,
        }
    }

    /// The programmed form of a channel: registers staged, the counter
    /// loaded with the whole transfer, not yet enabled.
    pub open spec fn spec_configured(s: Self, config: DmaChannelConfig) -> Self {
        DmaChannelController {
            state: ChannelState::Configured,
            config: Some(config),
            remaining: config.transfer_count,
            ..s
        }
    }

    /// The enabled form of a programmed channel: only the enable bit is
    /// set, everything staged stays as programmed.
    pub open spec fn spec_enabled(s: Self) -> Self {
        DmaChannelController { state: ChannelState::Enabled, ..s }
    }

    /// Lifecycle law: from `Idle`, programming a nonempty transfer and then
    /// setting the enable bit walks `Idle -> Configured -> Enabled`, each
    /// step well formed; the enabled channel starts with a full pass.
    pub proof fn lemma_lifecycle_configure_enable(s: Self, config: DmaChannelConfig)
        requires
            s.wf(),
            s.state is Idle,
            config.transfer_count >= 1,
        ensures
            Self::spec_configured(s, config).wf(),
            Self::spec_configured(s, config).state is Configured,
            Self::spec_enabled(Self::spec_configured(s, config)).wf(),
            Self::spec_enabled(Self::spec_configured(s, config)).state is Enabled,
            Self::spec_enabled(Self::spec_configured(s, config)).remaining
                == config.transfer_count,
    {
    }

    /// Programs the channel. Allowed only while `Idle`: programming an
    /// enabled (or merely configured or completed) channel is a
    /// configuration-order violation and is rejected without touching the
    /// channel. An empty transfer is meaningless and is rejected too.
    pub fn configure(&mut self, config: DmaChannelConfig) -> (r: Result<(), ConfigError>)
        requires
            old(self).wf(),
        ensures
            final(self).wf(),
            !(old(self).state is Idle) ==> r == Err::<(), ConfigError>(ConfigError::WrongState)
                && *final(self) == *old(self),
            old(self).state is Idle && config.transfer_count == 0 ==> r == Err::<(), ConfigError>(
                ConfigError::EmptyTable,
            ) && *final(self) == *old(self),
            old(self).state is Idle && config.transfer_count >= 1 ==> {
                &&& r == Ok::<(), ConfigError>(())
                &&& *final(self) == Self::spec_configured(*old(self), config)
            },
    {
        if !matches!(self.state, ChannelState::Idle) {
            return Err(ConfigError::WrongState);
        }
        if config.transfer_count == 0 {
            return Err(ConfigError::EmptyTable);
        }
        self.remaining = config.transfer_count;
        self.config = Some(config);
        self.state = ChannelState::Configured;
        Ok(())
    }

    /// Sets the hardware enable bit (`Configured -> Enabled`). Allowed only
    /// once the source, destination and count are fully programmed, that
    /// is, from `Configured`; any other state is rejected untouched.
    pub fn enable(&mut self) -> (r: Result<(), ConfigError>)
        requires
            old(self).wf(),
        ensures
            final(self).wf(),
            !(old(self).state is Configured) ==> r == Err::<(), ConfigError>(
                ConfigError::WrongState,
            ) && *final(self) == *old(self),
            old(self).state is Configured ==> {
                &&& r == Ok::<(), ConfigError>(())
                &&& *final(self) == Self::spec_enabled(*old(self))
                &&& final(self).enable_bit()
            },
    {
        if !matches!(self.state, ChannelState::Configured) {
            return Err(ConfigError::WrongState);
        }
        self.state = ChannelState::Enabled;
        Ok(())
    }

    /// The stopped form of a channel: enable bit clear, interrupt flags
    /// clear, counter cleared, back to `Idle` with the staged configuration
    /// and the error count kept.
    pub open spec fn spec_stop(s: Self) -> Self {
        DmaChannelController {
            state: ChannelState::Idle,
            config: s.config,
            remaining: 0,
            half_transfer_flag: false,
            transfer_complete_flag: false,
            transfer_error_flag: false,
            error_events: s.error_events,
        }
    }

    /// Clears the enable bit and all pending interrupt flags and returns
    /// the channel to `Idle`. Total and idempotent: safe from any state,
    /// including interrupt context, and a second call changes nothing.
    pub fn stop(&mut self)
        requires
            old(self).wf(),
        ensures
            final(self).wf(),
            *final(self) == Self::spec_stop(*old(self)),
            final(self).state is Idle,
            !final(self).enable_bit(),
    {
        self.state = ChannelState::Idle;
        self.remaining = 0;
        self.half_transfer_flag = false;
        self.transfer_complete_flag = false;
        self.transfer_error_flag = false;
    }

    /// Stopping is idempotent: stopping an already stopped channel leaves
    /// every field as the first stop left it, so the enable bit is cleared
    /// exactly once effectively.
    pub proof fn lemma_stop_idempotent(s: Self)
        ensures
            Self::spec_stop(Self::spec_stop(s)) == Self::spec_stop(s),
    {
    }

    /// Clears one interrupt flag without altering the enable state, the
    /// lifecycle state, or the other flags. Observing the transfer-error
    /// flag is recorded in the error counter (saturating), since the
    /// hardware raises the flag but its interrupt stays disabled.
    pub fn clear_interrupt(&mut self, kind: InterruptKind)
        requires
            old(self).wf(),
        ensures
            final(self).wf(),
            final(self).state == old(self).state,
            final(self).config == old(self).config,
            final(self).remaining == old(self).remaining,
            final(self).enable_bit() == old(self).enable_bit(),
            kind is HalfTransfer ==> *final(self) == (DmaChannelController {
                half_transfer_flag: false,
                ..*old(self)
            }),
            kind is TransferComplete ==> *final(self) == (DmaChannelController {
                transfer_complete_flag: false,
                ..*old(self)
            }),
            kind is TransferError ==> {
                &&& final(self).half_transfer_flag == old(self).half_transfer_flag
                &&& final(self).transfer_complete_flag == old(self).transfer_complete_flag
                &&& !final(self).transfer_error_flag
                &&& final(self).error_events == (if old(self).transfer_error_flag && old(
                    self,
                ).error_events < u32::MAX {
                    old(self).error_events + 1
                } else {
                    old(self).error_events as int
                })
            },
    {
        match kind {
            InterruptKind::HalfTransfer => {
                self.half_transfer_flag = false;
            },
            InterruptKind::TransferComplete => {
                self.transfer_complete_flag = false;
            },
            InterruptKind::TransferError => {
                if self.transfer_error_flag && self.error_events < u32::MAX {
                    self.error_events = self.error_events + 1;
                }
                self.transfer_error_flag = false;
            },
        }
    }

    /// One item of hardware progress on an enabled channel. While the pass
    /// has more than one item left it counts down; at the last item a
    /// circular channel re-arms to a full pass and stays `Enabled`, and a
    /// one-shot channel raises the transfer-complete flag and moves to
    /// `Complete`. In any other state the hardware makes no progress.
    pub open spec fn spec_consume_one(s: Self) -> Self {
        if s.state is Enabled && s.config is Some {
            let c = s.config->Some_0;
            if s.remaining > 1 {
                DmaChannelController { remaining: (s.remaining - 1) as u16, ..s }
            } else if c.circular {
                DmaChannelController { remaining: c.transfer_count, ..s }
            } else {
                DmaChannelController {
                    state: ChannelState::Complete,
                    remaining: 0,
                    transfer_complete_flag: true,
                    ..s
                }
            }
        } else {
            s
        }
    }

    /// `n` items of hardware progress.
    pub open spec fn spec_consume(s: Self, n: nat) -> Self
        decreases n,
    {
        if n == 0 {
            s
        } else {
            Self::spec_consume_one(Self::spec_consume(s, (n - 1) as nat))
        }
    }

    /// One item of hardware progress keeps the channel well formed.
    pub proof fn lemma_consume_one_wf(s: Self)
        requires
            s.wf(),
        ensures
            Self::spec_consume_one(s).wf(),
            Self::spec_consume_one(s).config == s.config,
    {
    }

    /// Any amount of hardware progress keeps the channel well formed.
    pub proof fn lemma_consume_wf(s: Self, n: nat)
        requires
            s.wf(),
        ensures
            Self::spec_consume(s, n).wf(),
            Self::spec_consume(s, n).config == s.config,
        decreases n,
    {
        if n > 0 {
            Self::lemma_consume_wf(s, (n - 1) as nat);
            Self::lemma_consume_one_wf(Self::spec_consume(s, (n - 1) as nat));
        }
    }

    /// A circular channel is never observed `Complete`: however many items
    /// the hardware consumes, an enabled circular channel stays `Enabled`.
    pub proof fn lemma_circular_never_complete(s: Self, n: nat)
        requires
            s.wf(),
            s.state is Enabled,
            s.config matches Some(c) && c.circular,
        ensures
            Self::spec_consume(s, n).state is Enabled,
            Self::spec_consume(s, n).wf(),
        decreases n,
    {
        Self::lemma_consume_wf(s, n);
        if n > 0 {
            Self::lemma_circular_never_complete(s, (n - 1) as nat);
        }
    }

    /// While the current pass still has items left, the channel stays
    /// `Enabled` and the count drops by exactly one per item; nothing else
    /// changes.
    pub proof fn lemma_consume_within_pass(s: Self, n: nat)
        requires
            s.wf(),
            s.state is Enabled,
            n < s.remaining,
        ensures
            Self::spec_consume(s, n) == (DmaChannelController {
                remaining: (s.remaining - n) as u16,
                ..s
            }),
            Self::spec_consume(s, n).state is Enabled,
        decreases n,
    {
        if n == 0 {
            assert(Self::spec_consume(s, 0) == s);
            assert(s == (DmaChannelController { remaining: s.remaining, ..s }));
        } else {
            Self::lemma_consume_within_pass(s, (n - 1) as nat);
        }
    }

    /// One trigger's worth of progress: consuming `b` items of a pass that
    /// holds at least `b`. Short of the pass boundary the count just drops;
    /// at the boundary a circular channel re-arms to a full pass and a
    /// one-shot channel completes, raising the transfer-complete flag.
    pub proof fn lemma_consume_burst(s: Self, b: u16)
        requires
            s.wf(),
            s.state is Enabled,
            1 <= b <= s.remaining,
        ensures
            s.remaining > b ==> Self::spec_consume(s, b as nat) == (DmaChannelController {
                remaining: (s.remaining - b) as u16,
                ..s
            }),
            s.remaining == b && s.config->Some_0.circular ==> Self::spec_consume(s, b as nat) == (
            DmaChannelController { remaining: s.config->Some_0.transfer_count, ..s }),
            s.remaining == b && !s.config->Some_0.circular ==> Self::spec_consume(s, b as nat) == (
            DmaChannelController {
                state: ChannelState::Complete,
                remaining: 0,
                transfer_complete_flag: true,
                ..s
            }),
    {
        Self::lemma_consume_within_pass(s, (b - 1) as nat);
        Self::lemma_consume_unfold(s, b as nat);
    }

    /// Round trip: consuming one full pass of a freshly armed circular
    /// channel returns it to exactly its starting state, which is why a
    /// circular stream replays the table forever without software help.
    pub proof fn lemma_circular_full_pass_round_trip(s: Self)
        requires
            s.wf(),
            s.state is Enabled,
            s.config matches Some(c) && c.circular && s.remaining == c.transfer_count,
        ensures
            Self::spec_consume(s, s.remaining as nat) == s,
    {
        Self::lemma_consume_burst(s, s.remaining);
        assert(s == (DmaChannelController { remaining: s.remaining, ..s }));
    }

    /// Once a one-shot channel is `Complete`, further hardware activity
    /// changes nothing: it never re-arms without an explicit `enable`.
    pub proof fn lemma_complete_is_final(s: Self, n: nat)
        requires
            s.state is Complete,
        ensures
            Self::spec_consume(s, n) == s,
        decreases n,
    {
        if n > 0 {
            Self::lemma_complete_is_final(s, (n - 1) as nat);
        }
    }

    /// A freshly enabled one-shot channel reaches `Complete` after exactly
    /// `transfer_count` items: it is still `Enabled` at every earlier
    /// point, is `Complete` from then on, and does not re-arm.
    pub proof fn lemma_one_shot_completes(s: Self, n: nat)
        requires
            s.wf(),
            s.state is Enabled,
            s.config matches Some(c) && !c.circular && s.remaining == c.transfer_count,
        ensures
            forall|m: nat| m < s.remaining ==> Self::spec_consume(s, m).state is Enabled,
            Self::spec_consume(s, s.remaining as nat).state is Complete,
            n >= s.remaining ==> Self::spec_consume(s, n) == Self::spec_consume(
                s,
                s.remaining as nat,
            ),
    {
        assert forall|m: nat| m < s.remaining implies Self::spec_consume(s, m).state
            is Enabled by {
            Self::lemma_consume_within_pass(s, m);
        }
        Self::lemma_consume_within_pass(s, (s.remaining - 1) as nat);
        assert(Self::spec_consume(s, s.remaining as nat).state is Complete);
        if n >= s.remaining {
            Self::lemma_consume_extra(s, s.remaining as nat, n);
        }
    }

    /// Hardware progress past a completed one-shot transfer is inert.
    proof fn lemma_consume_extra(s: Self, k: nat, n: nat)
        requires
            n >= k,
            Self::spec_consume(s, k).state is Complete,
        ensures
            Self::spec_consume(s, n) == Self::spec_consume(s, k),
        decreases n - k,
    {
        if n > k {
            Self::lemma_consume_extra(s, k, (n - 1) as nat);
        }
    }

    /// Executable model of one item of hardware progress; tests drive the
    /// state machine through this.
    pub fn consume_one(&mut self)
        requires
            old(self).wf(),
        ensures
            final(self).wf(),
            *final(self) == Self::spec_consume_one(*old(self)),
    {
        if matches!(self.state, ChannelState::Enabled) {
            match self.config {
                Some(c) => {
                    if self.remaining > 1 {
                        self.remaining = self.remaining - 1;
                    } else if c.circular {
                        self.remaining = c.transfer_count;
                    } else {
                        self.state = ChannelState::Complete;
                        self.remaining = 0;
                        self.transfer_complete_flag = true;
                    }
                },
                None => {},
            }
        }
    }

    /// Executable model of `n` items of hardware progress.
    pub fn consume_items(&mut self, n: u16)
        requires
            old(self).wf(),
        ensures
            final(self).wf(),
            *final(self) == Self::spec_consume(*old(self), n as nat),
    {
        let mut i: u16 = 0;
        while i < n
            invariant
                i <= n,
                self.wf(),
                *self == Self::spec_consume(*old(self), i as nat),
            decreases n - i,
        {
            proof {
                Self::lemma_consume_unfold(*old(self), (i + 1) as nat);
            }
            self.consume_one();
            i = i + 1;
        }
    }

    /// Unfolds one step of the progress model from the outside.
    proof fn lemma_consume_unfold(s: Self, n: nat)
        requires
            n >= 1,
        ensures
            Self::spec_consume(s, n) == Self::spec_consume_one(Self::spec_consume(s, (n - 1) as nat)),
    {
    }
}

} // verus!
