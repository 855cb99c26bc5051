use dma_pwm::dma::ChannelState;
use dma_pwm::dma::DmaChannelConfig;
use dma_pwm::dma::DmaChannelController;
use dma_pwm::dma::InterruptKind;
use dma_pwm::dma::Priority;
use dma_pwm::dma::RequestSource;
use dma_pwm::dma::WordSize;
use dma_pwm::dma::validate_request_line;
use dma_pwm::errors::ConfigError;

fn sample_config(circular: bool, transfer_count: u16) -> DmaChannelConfig {
    DmaChannelConfig {
        source_address: 0x2000_0000,
        dest_address: 0x4000_004C,
        transfer_count,
        circular,
        priority: Priority::Medium,
        memory_increment: true,
        peripheral_increment: false,
        source_word_size: WordSize::Bits16,
        dest_word_size: WordSize::Bits32,
    }
}

#[test]
fn ccr_word_matches_field_layout() {
    // Direction bit 4, circular bit 5, memory-increment bit 7, peripheral
    // size code 2 at bit 8, memory size code 1 at bit 10, priority code 1
    // at bit 12.
    let word = sample_config(true, 16).ccr_word();
    assert_eq!(word, 0x10 + 0x20 + 0x80 + 0x200 + 0x400 + 0x1000);
    assert_eq!(word, 0x16B0);
}

#[test]
fn ccr_word_one_shot_low_priority() {
    let mut config = sample_config(false, 16);
    config.priority = Priority::Low;
    config.memory_increment = false;
    assert_eq!(config.ccr_word(), 0x10 + 0x200 + 0x400);
}

#[test]
fn lifecycle_idle_configured_enabled() {
    let mut channel = DmaChannelController::new();
    assert_eq!(channel.state, ChannelState::Idle);
    assert_eq!(channel.configure(sample_config(true, 16)), Ok(()));
    assert_eq!(channel.state, ChannelState::Configured);
    assert_eq!(channel.remaining, 16);
    assert_eq!(channel.enable(), Ok(()));
    assert_eq!(channel.state, ChannelState::Enabled);
    assert!(channel.enable_bit_set());
}

#[test]
fn configure_while_enabled_rejected() {
    let mut channel = DmaChannelController::new();
    channel.configure(sample_config(true, 16)).unwrap();
    channel.enable().unwrap();
    let before_state = channel.state;
    assert_eq!(
        channel.configure(sample_config(false, 8)),
        Err(ConfigError::WrongState)
    );
    assert_eq!(channel.state, before_state);
    assert_eq!(channel.config.unwrap().transfer_count, 16);
}

#[test]
fn configure_rejects_empty_transfer() {
    let mut channel = DmaChannelController::new();
    assert_eq!(
        channel.configure(sample_config(true, 0)),
        Err(ConfigError::EmptyTable)
    );
    assert_eq!(channel.state, ChannelState::Idle);
}

#[test]
fn enable_needs_configuration_first() {
    let mut channel = DmaChannelController::new();
    assert_eq!(channel.enable(), Err(ConfigError::WrongState));
    assert_eq!(channel.state, ChannelState::Idle);
}

#[test]
fn stop_is_idempotent() {
    let mut channel = DmaChannelController::new();
    channel.configure(sample_config(true, 4)).unwrap();
    channel.enable().unwrap();
    assert!(channel.enable_bit_set());
    channel.stop();
    assert_eq!(channel.state, ChannelState::Idle);
    assert!(!channel.enable_bit_set());
    assert!(!channel.half_transfer_flag);
    assert!(!channel.transfer_complete_flag);
    assert!(!channel.transfer_error_flag);
    let after_first = (channel.state, channel.remaining, channel.error_events);
    channel.stop();
    assert_eq!(channel.state, ChannelState::Idle);
    assert!(!channel.enable_bit_set());
    assert_eq!(
        (channel.state, channel.remaining, channel.error_events),
        after_first
    );
}

#[test]
fn circular_channel_never_completes() {
    let mut channel = DmaChannelController::new();
    channel.configure(sample_config(true, 4)).unwrap();
    channel.enable().unwrap();
    channel.consume_items(4);
    assert_eq!(channel.state, ChannelState::Enabled);
    assert_eq!(channel.remaining, 4);
    channel.consume_items(11);
    assert_eq!(channel.state, ChannelState::Enabled);
    assert_eq!(channel.remaining, 1);
}

#[test]
fn one_shot_completes_after_exact_count() {
    let mut channel = DmaChannelController::new();
    channel.configure(sample_config(false, 4)).unwrap();
    channel.enable().unwrap();
    channel.consume_items(3);
    assert_eq!(channel.state, ChannelState::Enabled);
    assert_eq!(channel.remaining, 1);
    channel.consume_one();
    assert_eq!(channel.state, ChannelState::Complete);
    assert!(channel.transfer_complete_flag);
    assert_eq!(channel.remaining, 0);
    // Further hardware activity is inert and the channel does not re-arm.
    channel.consume_items(5);
    assert_eq!(channel.state, ChannelState::Complete);
    assert_eq!(channel.enable(), Err(ConfigError::WrongState));
    assert_eq!(channel.state, ChannelState::Complete);
}

#[test]
fn clear_interrupt_keeps_state_and_counts_errors() {
    let mut channel = DmaChannelController::new();
    channel.configure(sample_config(false, 2)).unwrap();
    channel.enable().unwrap();
    channel.transfer_error_flag = true;
    channel.half_transfer_flag = true;
    channel.clear_interrupt(InterruptKind::TransferError);
    assert!(!channel.transfer_error_flag);
    assert!(channel.half_transfer_flag);
    assert_eq!(channel.error_events, 1);
    assert_eq!(channel.state, ChannelState::Enabled);
    channel.clear_interrupt(InterruptKind::TransferError);
    assert_eq!(channel.error_events, 1);
    channel.clear_interrupt(InterruptKind::HalfTransfer);
    assert!(!channel.half_transfer_flag);
}

#[test]
fn request_lines_validated_against_documented_events() {
    assert_eq!(validate_request_line(60), Ok(RequestSource::TimerUpdate));
    assert_eq!(validate_request_line(56), Ok(RequestSource::TimerCompare1));
    assert_eq!(
        validate_request_line(57),
        Err(ConfigError::InvalidRequestLine)
    );
    assert_eq!(RequestSource::TimerUpdate.request_line(), 60);
    assert_eq!(RequestSource::TimerCompare1.request_line(), 56);
}

#[test]
fn priority_and_size_codes() {
    assert_eq!(Priority::Low.level(), 0);
    assert_eq!(Priority::Medium.level(), 1);
    assert_eq!(Priority::High.level(), 2);
    assert_eq!(Priority::VeryHigh.level(), 3);
    assert_eq!(WordSize::Bits8.size_code(), 0);
    assert_eq!(WordSize::Bits16.size_code(), 1);
    assert_eq!(WordSize::Bits32.size_code(), 2);
}
