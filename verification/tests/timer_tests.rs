use dma_pwm::burst::BurstDescriptor;
use dma_pwm::errors::ConfigError;
use dma_pwm::timer::PwmMode;
use dma_pwm::timer::TimerState;
use dma_pwm::timer::TimerTriggerSource;
use dma_pwm::timer::compute_reload;
use dma_pwm::timer::pwm_mode_word;

#[test]
fn reload_for_twenty_kilohertz() {
    assert_eq!(compute_reload(170_000_000, 20_000), 8499);
}

#[test]
fn reload_edge_values() {
    assert_eq!(compute_reload(1, 1), 0);
    assert_eq!(compute_reload(170_000_000, 170_000_000), 0);
    // Floored division: the achieved rate is at or above the target.
    assert_eq!(compute_reload(10, 3), 2);
}

#[test]
fn configure_frequency_programs_reload() {
    let mut timer = TimerTriggerSource::new();
    assert_eq!(timer.configure_frequency(20_000, 170_000_000), Ok(()));
    assert_eq!(timer.reload, 8499);
    assert_eq!(timer.prescaler, 0);
    assert_eq!(timer.state, TimerState::Disabled);
}

#[test]
fn configure_frequency_rejections() {
    let mut timer = TimerTriggerSource::new();
    assert_eq!(
        timer.configure_frequency(0, 170_000_000),
        Err(ConfigError::InvalidFrequency)
    );
    assert_eq!(
        timer.configure_frequency(200_000_000, 170_000_000),
        Err(ConfigError::InvalidFrequency)
    );
    timer.enable_burst_request().unwrap();
    assert_eq!(
        timer.configure_frequency(20_000, 170_000_000),
        Err(ConfigError::WrongState)
    );
    assert_eq!(timer.reload, 0);
}

#[test]
fn timer_state_walk() {
    let mut timer = TimerTriggerSource::new();
    assert_eq!(timer.start(), Err(ConfigError::WrongState));
    assert_eq!(timer.enable_burst_request(), Ok(()));
    assert_eq!(timer.state, TimerState::Armed);
    assert_eq!(timer.enable_burst_request(), Err(ConfigError::WrongState));
    assert_eq!(timer.start(), Ok(()));
    assert_eq!(timer.state, TimerState::Running);
    timer.disarm();
    assert_eq!(timer.state, TimerState::Disabled);
    timer.disarm();
    assert_eq!(timer.state, TimerState::Disabled);
}

#[test]
fn pwm_channel_compare_from_duty_fraction() {
    let mut timer = TimerTriggerSource::new();
    timer.configure_frequency(20_000, 170_000_000).unwrap();
    assert_eq!(timer.enable_pwm_channel(0, PwmMode::Mode1, 1, 2), Ok(()));
    // Period is reload + 1 = 8500 ticks; half of it, floored.
    assert_eq!(timer.read_compare_register(0), 4250);
    assert!(timer.channel_enabled[0]);
    assert!(!timer.channel_enabled[1]);
    assert_eq!(timer.enable_pwm_channel(3, PwmMode::Mode1, 1, 3), Ok(()));
    assert_eq!(timer.read_compare_register(3), 2833);
}

#[test]
fn pwm_channel_rejections() {
    let mut timer = TimerTriggerSource::new();
    assert_eq!(
        timer.enable_pwm_channel(4, PwmMode::Mode1, 1, 2),
        Err(ConfigError::InvalidChannel)
    );
    assert_eq!(
        timer.enable_pwm_channel(0, PwmMode::Mode1, 3, 2),
        Err(ConfigError::InvalidDuty)
    );
    assert_eq!(
        timer.enable_pwm_channel(0, PwmMode::Mode1, 1, 0),
        Err(ConfigError::InvalidDuty)
    );
    timer.enable_burst_request().unwrap();
    assert_eq!(
        timer.enable_pwm_channel(0, PwmMode::Mode1, 1, 2),
        Err(ConfigError::WrongState)
    );
}

#[test]
fn pwm_mode_words() {
    // Preload enable at bit three, mode code in bits six down to four.
    assert_eq!(pwm_mode_word(PwmMode::Mode1), 0x68);
    assert_eq!(pwm_mode_word(PwmMode::Mode2), 0x78);
}

#[test]
fn compare_snapshot_reads_all_channels() {
    let mut timer = TimerTriggerSource::new();
    timer.configure_frequency(20_000, 170_000_000).unwrap();
    timer.enable_pwm_channel(1, PwmMode::Mode1, 1, 4).unwrap();
    assert_eq!(timer.compare_snapshot(), vec![0, 2125, 0, 0]);
}

#[test]
fn burst_descriptor_control_word() {
    // Four compare registers starting thirteen registers into the map:
    // length field three, offset field thirteen.
    let descriptor = BurstDescriptor::new(13, 4, 32).unwrap();
    assert_eq!(descriptor.dcr_word(), 0x30D);
    assert_eq!(descriptor.items_per_trigger(), 4);
    let single = BurstDescriptor::new(13, 1, 32).unwrap();
    assert_eq!(single.dcr_word(), 0xD);
}

#[test]
fn burst_descriptor_rejections() {
    assert_eq!(
        BurstDescriptor::new(13, 0, 32),
        Err(ConfigError::InvalidBurstWindow)
    );
    assert_eq!(
        BurstDescriptor::new(30, 4, 32),
        Err(ConfigError::InvalidBurstWindow)
    );
    assert_eq!(
        BurstDescriptor::new(13, 4, 12),
        Err(ConfigError::InvalidBurstWindow)
    );
    assert_eq!(
        BurstDescriptor::new(33, 1, 32),
        Err(ConfigError::InvalidBurstWindow)
    );
}

#[test]
fn configure_burst_window_stores_control_word() {
    let descriptor = BurstDescriptor::new(13, 4, 32).unwrap();
    let mut timer = TimerTriggerSource::new();
    assert_eq!(timer.configure_burst_window(&descriptor), Ok(()));
    assert_eq!(timer.burst_window, 0x30D);
    timer.enable_burst_request().unwrap();
    assert_eq!(
        timer.configure_burst_window(&descriptor),
        Err(ConfigError::WrongState)
    );
}
