//! Orchestration of one waveform stream: the duty table, the DMA channel,
//! the trigger timer and the request routing, with the configuration order
//! enforced by contract.
//!
//! The load-bearing ordering rule lives here: the timer's burst request
//! path may be armed only once the DMA channel's enable bit is set, so the
//! first update event finds a fully programmed, enabled channel and the
//! first burst is neither missed nor duplicated. Arming in the reverse
//! order is rejected as a configuration-order violation.
//!
//! While the channel is enabled the table is loaned to the hardware: the
//! system owns it exclusively and nothing mutates it until an explicit
//! stop.

use vstd::prelude::*;

verus! {

use vstd::arithmetic::div_mod::lemma_mod_multiples_vanish;
use vstd::arithmetic::div_mod::lemma_small_mod;
use crate::burst::BurstDescriptor;
use crate::dma::ChannelState;
use crate::dma::DmaChannelConfig;
use crate::dma::DmaChannelController;
use crate::dma::Priority;
use crate::dma::RequestSource;
use crate::dma::WordSize;
use crate::errors::ConfigError;
use crate::timer::TimerState;
use crate::timer::TimerTriggerSource;

/// One timer-paced DMA waveform stream.
pub struct WaveformSystem {
    /// The DMA channel that streams the table.
    pub dma: DmaChannelController,
    /// The timer whose update events request the bursts and whose compare
    /// channels carry the PWM outputs.
    pub timer: TimerTriggerSource,
    /// Destination register window of each burst.
    pub descriptor: BurstDescriptor,
    /// The staged duty table, loaned read-only to the hardware while the
    /// channel is enabled.
    pub table: Vec<u16>,
    /// Which timer event the request multiplexer routes to the channel.
    pub request_source: RequestSource,
    /// Table index of the next item the hardware will read.
    pub position: usize,
    /// Update events served since the channel was last enabled.
    pub bursts_done: u64,
}

impl WaveformSystem {
    /// Well-formedness of the whole stream. Besides the parts' own
    /// invariants it ties them together: the staged transfer is the whole
    /// table, a whole number of bursts long; the playback position mirrors
    /// the channel's transfer counter; and, the ordering rule, the timer's
    /// burst request path is only ever armed while the channel's enable bit
    /// is set.
    pub open spec fn wf(self) -> bool {
        &&& self.dma.wf()
        &&& self.timer.wf()
        &&& self.descriptor.wf()
        &&& 1 <= self.table@.len() <= u16::MAX
        &&& self.table@.len() as int % self.descriptor.burst_length as int == 0
        &&& (self.dma.config matches Some(c) ==> c.transfer_count == self.table@.len())
        &&& (self.timer.burst_request_enabled() ==> self.dma.enable_bit())
        &&& (self.dma.state is Enabled ==> self.position == self.table@.len()
            - self.dma.remaining)
        &&& (self.dma.state is Enabled ==> self.dma.remaining as int
            % self.descriptor.burst_length as int == 0)
        &&& (self.dma.state is Complete ==> self.position == self.table@.len())
        &&& (!self.dma.enable_bit() ==> self.position == 0 && self.bursts_done == 0)
        &&& (self.dma.state is Enabled && self.bursts_done == 0 ==> self.position == 0)
    }

    /// Builds a stream around a table, a burst window and a disabled,
    /// configured timer. The table must be nonempty, fit the channel's
    /// transfer counter, and be a whole number of bursts long.
    pub fn new(
        table: Vec<u16>,
        descriptor: BurstDescriptor,
        timer: TimerTriggerSource,
        request_source: RequestSource,
    ) -> (r: Result<Self, ConfigError>)
        requires
            descriptor.wf(),
            timer.wf(),
            timer.state is Disabled,
        ensures
            table@.len() == 0 ==> r == Err::<Self, ConfigError>(ConfigError::EmptyTable),
            table@.len() > u16::MAX ==> r == Err::<Self, ConfigError>(ConfigError::TableTooLarge),
            1 <= table@.len() <= u16::MAX && table@.len() as int % descriptor.burst_length as int
                != 0 ==> r == Err::<Self, ConfigError>(ConfigError::BurstMismatch),
            1 <= table@.len() <= u16::MAX && table@.len() as int % descriptor.burst_length as int
                == 0 ==> (r matches Ok(s) && s == (WaveformSystem {
                dma: s.dma,
                timer,
                descriptor,
                table,
                request_source,
                position: 0,
                bursts_done: 0,
            }) && s.dma.state is Idle && s.dma.config is None && s.wf()),
    {
        if table.len() == 0 {
            return Err(ConfigError::EmptyTable);
        }
        if table.len() > u16::MAX as usize {
            return Err(ConfigError::TableTooLarge);
        }
        if table.len() % (descriptor.burst_length as usize) != 0 {
            return Err(ConfigError::BurstMismatch);
        }
        Ok(
            WaveformSystem {
                dma: DmaChannelController::new(),
                timer,
                descriptor,
                table,
                request_source,
                position: 0,
                bursts_done: 0,
            },
        )
    }

    /// The exact channel configuration this stream programs: the whole
    /// table from `source_address` into the burst window (the peripheral's
    /// burst register base plus the descriptor's offset, four bytes per
    /// register), sixteen-bit words on the memory side widened to
    /// thirty-two-bit peripheral registers, memory address incrementing,
    /// peripheral address fixed.
    pub open spec fn transfer_config_spec(
        self,
        source_address: u32,
        burst_register_base: u32,
        circular: bool,
        priority: Priority,
    ) -> DmaChannelConfig {
        DmaChannelConfig {
            source_address,
            dest_address: (burst_register_base + 4 * self.descriptor.base_offset) as u32,
            transfer_count: self.table@.len() as u16,
            circular,
            priority,
            memory_increment: true,
            peripheral_increment: false,
            source_word_size: WordSize::Bits16,
            dest_word_size: WordSize::Bits32,
        }
    }

    /// Programs the DMA channel for this stream. Allowed only while the
    /// channel is `Idle`; programming an enabled channel is rejected
    /// untouched.
    pub fn configure_transfer(
        &mut self,
        source_address: u32,
        burst_register_base: u32,
        circular: bool,
        priority: Priority,
    ) -> (r: Result<(), ConfigError>)
        requires
            old(self).wf(),
            burst_register_base + 4 * old(self).descriptor.base_offset <= u32::MAX,
        ensures
            final(self).wf(),
            !(old(self).dma.state is Idle) ==> r == Err::<(), ConfigError>(ConfigError::WrongState)
                && *final(self) == *old(self),
            old(self).dma.state is Idle ==> {
                &&& r == Ok::<(), ConfigError>(())
                &&& final(self).dma.state is Configured
                &&& final(self).dma.config == Some(
                    old(self).transfer_config_spec(
                        source_address,
                        burst_register_base,
                        circular,
                        priority,
                    ),
                )
                &&& final(self).dma.remaining == old(self).table@.len()
                &&& final(self).timer == old(self).timer
                &&& final(self).table == old(self).table
                &&& final(self).descriptor == old(self).descriptor
                &&& final(self).position == old(self).position
                &&& final(self).bursts_done == old(self).bursts_done
            },
    {
        let config = DmaChannelConfig {
            source_address,
            dest_address: burst_register_base + 4 * self.descriptor.base_offset,
            transfer_count: self.table.len() as u16,
            circular,
            priority,
            memory_increment: true,
            peripheral_increment: false,
            source_word_size: WordSize::Bits16,
            dest_word_size: WordSize::Bits32,
        };
        self.dma.configure(config)
    }

    /// Sets the channel's enable bit (`Configured -> Enabled`) and resets
    /// playback to the table's beginning. Any other channel state is
    /// rejected untouched. This must happen before the timer's burst
    /// request path is armed.
    pub fn enable_dma(&mut self) -> (r: Result<(), ConfigError>)
        requires
            old(self).wf(),
        ensures
            final(self).wf(),
            !(old(self).dma.state is Configured) ==> r == Err::<(), ConfigError>(
                ConfigError::WrongState,
            ) && *final(self) == *old(self),
            old(self).dma.state is Configured ==> {
                &&& r == Ok::<(), ConfigError>(())
                &&& final(self).dma == (DmaChannelController {
                    state: ChannelState::Enabled,
                    ..old(self).dma
                })
                &&& final(self).position == 0
                &&& final(self).bursts_done == 0
                &&& final(self).timer == old(self).timer
                &&& final(self).table == old(self).table
                &&& final(self).descriptor == old(self).descriptor
            },
    {
        let r = self.dma.enable();
        if r.is_ok() {
            self.position = 0;
            self.bursts_done = 0;
        }
        r
    }

    /// Arms the timer's update-event-to-DMA request path. The ordering rule
    /// is enforced here: if the DMA channel's enable bit is not yet set,
    /// the first update event could race an unprogrammed channel, so the
    /// call is rejected as a configuration-order violation and nothing is
    /// touched.
    pub fn arm_timer(&mut self) -> (r: Result<(), ConfigError>)
        requires
            old(self).wf(),
        ensures
            final(self).wf(),
            !old(self).dma.enable_bit() ==> r == Err::<(), ConfigError>(
                ConfigError::OrderingViolation,
            ) && *final(self) == *old(self),
            old(self).dma.enable_bit() && !(old(self).timer.state is Disabled) ==> r == Err::<
                (),
                ConfigError,
            >(ConfigError::WrongState) && *final(self) == *old(self),
            old(self).dma.enable_bit() && old(self).timer.state is Disabled ==> {
                &&& r == Ok::<(), ConfigError>(())
                &&& final(self).timer == (TimerTriggerSource {
                    state: TimerState::Armed,
                    ..old(self).timer
                })
                &&& final(self).dma == old(self).dma
                &&& final(self).table == old(self).table
                &&& final(self).descriptor == old(self).descriptor
                &&& final(self).position == old(self).position
                &&& final(self).bursts_done == old(self).bursts_done
            },
    {
        if !self.dma.enable_bit_set() {
            return Err(ConfigError::OrderingViolation);
        }
        self.timer.enable_burst_request()
    }

    /// Starts the timer's counter (`Armed -> Running`); from here the
    /// hardware streams autonomously.
    pub fn start_timer(&mut self) -> (r: Result<(), ConfigError>)
        requires
            old(self).wf(),
        ensures
            final(self).wf(),
            !(old(self).timer.state is Armed) ==> r == Err::<(), ConfigError>(
                ConfigError::WrongState,
            ) && *final(self) == *old(self),
            old(self).timer.state is Armed ==> {
                &&& r == Ok::<(), ConfigError>(())
                &&& final(self).timer == (TimerTriggerSource {
                    state: TimerState::Running,
                    ..old(self).timer
                })
                &&& final(self).dma == old(self).dma
                &&& final(self).table == old(self).table
                &&& final(self).descriptor == old(self).descriptor
                &&& final(self).position == old(self).position
                &&& final(self).bursts_done == old(self).bursts_done
            },
    {
        self.timer.start()
    }

    /// Ordering law: in every well-formed stream state in which the
    /// timer's burst request path is armed (or already running), the DMA
    /// channel's enable bit is set. Together with the first-burst law this
    /// says the first update event can never fire into an unprogrammed or
    /// disabled channel.
    pub proof fn lemma_armed_implies_dma_enabled(s: Self)
        requires
            s.wf(),
            s.timer.burst_request_enabled(),
        ensures
            s.dma.enable_bit(),
    {
    }

    /// First-burst law: in every well-formed stream state in which the
    /// channel is enabled and no burst has been served yet, playback
    /// stands at the table's beginning, so the first transfer moves
    /// exactly the table's first burst.
    pub proof fn lemma_first_burst_at_table_start(s: Self)
        requires
            s.wf(),
            s.dma.state is Enabled,
            s.bursts_done == 0,
        ensures
            s.position == 0,
    {
    }

    /// One update event while the counter runs. If the channel is enabled,
    /// exactly one burst is served: the next `burst_length` table items in
    /// order, returned here as the words the hardware moved; playback
    /// advances, wrapping to the table's beginning in circular mode and
    /// completing the channel at the table's end in one-shot mode. If the
    /// channel is not enabled (a completed one-shot transfer), the event
    /// moves nothing and changes nothing.
    pub fn trigger_update(&mut self) -> (burst: Vec<u16>)
        requires
            old(self).wf(),
            old(self).timer.state is Running,
            old(self).bursts_done < u64::MAX,
        ensures
            final(self).wf(),
            !(old(self).dma.state is Enabled) ==> burst@ =~= Seq::<u16>::empty() && *final(self)
                == *old(self),
            old(self).dma.state is Enabled ==> {
                &&& burst@ =~= old(self).table@.subrange(
                    old(self).position as int,
                    old(self).position + old(self).descriptor.burst_length,
                )
                &&& final(self).bursts_done == old(self).bursts_done + 1
                &&& final(self).dma == DmaChannelController::spec_consume(
                    old(self).dma,
                    old(self).descriptor.burst_length as nat,
                )
                &&& final(self).timer == old(self).timer
                &&& final(self).table == old(self).table
                &&& final(self).descriptor == old(self).descriptor
                &&& final(self).position == (if old(self).position
                    + old(self).descriptor.burst_length < old(self).table@.len() {
                    old(self).position + old(self).descriptor.burst_length
                } else if old(self).dma.config->Some_0.circular {
                    0int
                } else {
                    old(self).table@.len() as int
                })
            },
    {
        if !matches!(self.dma.state, ChannelState::Enabled) {
            return Vec::new();
        }
        let burst_len = self.descriptor.items_per_trigger() as usize;
        proof {
            // The pass counter always holds at least one whole burst.
            if self.dma.remaining < burst_len {
                lemma_small_mod(self.dma.remaining as nat, burst_len as nat);
                assert(false);
            }
        }
        let mut burst: Vec<u16> = Vec::new();
        let mut j: usize = 0;
        while j < burst_len
            invariant
                j <= burst_len,
                self == old(self),
                old(self).wf(),
                old(self).dma.state is Enabled,
                burst_len == old(self).descriptor.burst_length,
                old(self).position + burst_len <= old(self).table@.len(),
                burst@ =~= old(self).table@.subrange(
                    old(self).position as int,
                    old(self).position + j,
                ),
            decreases burst_len - j,
        {
            burst.push(self.table[self.position + j]);
            proof {
                assert(burst@ =~= old(self).table@.subrange(
                    old(self).position as int,
                    old(self).position + j + 1,
                ));
            }
            j += 1;
        }
        proof {
            DmaChannelController::lemma_consume_burst(self.dma, burst_len as u16);
            if self.dma.remaining > burst_len {
                // Removing one burst keeps the counter a whole number of
                // bursts.
                lemma_mod_multiples_vanish(-1, self.dma.remaining as int, burst_len as int);
            }
        }
        let circular = match self.dma.config {
            Some(c) => c.circular,
            None => false,
        };
        self.dma.consume_items(burst_len as u16);
        if self.position + burst_len < self.table.len() {
            self.position = self.position + burst_len;
        } else if circular {
            self.position = 0;
        } else {
            self.position = self.table.len();
        }
        self.bursts_done = self.bursts_done + 1;
        burst
    }

    /// Stops the stream: disarms the timer (clearing the counter-enable
    /// and request-generation bits), then clears the channel's enable bit
    /// and pending flags, and rewinds playback. Total and idempotent; the
    /// timer's configuration and the table stay intact, so the stream can
    /// be reprogrammed and restarted.
    pub fn stop(&mut self)
        requires
            old(self).wf(),
        ensures
            final(self).wf(),
            final(self).timer == (TimerTriggerSource {
                state: TimerState::Disabled,
                ..old(self).timer
            }),
            final(self).dma == DmaChannelController::spec_stop(old(self).dma),
            final(self).position == 0,
            final(self).bursts_done == 0,
            final(self).table == old(self).table,
            final(self).descriptor == old(self).descriptor,
            final(self).request_source == old(self).request_source,
    {
        self.timer.disarm();
        self.dma.stop();
        self.position = 0;
        self.bursts_done = 0;
    }
}

} // verus!
