use audio_sender::config::{parse_protocol, AudioConfig, ConfigError, Protocol};

#[test]
fn parse_protocol_accepts_tcp() {
    assert_eq!(parse_protocol(&b"tcp".to_vec()), Ok(Protocol::Tcp));
}

#[test]
fn parse_protocol_accepts_udp() {
    assert_eq!(parse_protocol(&b"udp".to_vec()), Ok(Protocol::Udp));
}

#[test]
fn parse_protocol_rejects_anything_else() {
    for bad in ["TCP", "Udp", "http", "", "tc", "tcpp"] {
        assert_eq!(
            parse_protocol(&bad.as_bytes().to_vec()),
            Err(ConfigError::InvalidProtocol)
        );
    }
}

fn build(rate: u32, channels: u16, buffer: u32) -> Result<AudioConfig, ConfigError> {
    AudioConfig::new(
        Some(b"USB".to_vec()),
        b"localhost:8080".to_vec(),
        Protocol::Tcp,
        rate,
        channels,
        buffer,
    )
}

#[test]
fn config_accepts_positive_parameters() {
    let c = build(16000, 1, 1024).expect("a valid configuration");
    assert_eq!(c.sample_rate, 16000);
    assert_eq!(c.channels, 1);
    assert_eq!(c.buffer_size, 1024);
    assert_eq!(c.protocol, Protocol::Tcp);
    assert_eq!(c.server_addr, b"localhost:8080".to_vec());
    assert_eq!(c.device_name, Some(b"USB".to_vec()));
}

#[test]
fn config_rejects_zero_sample_rate() {
    assert!(matches!(build(0, 1, 1024), Err(ConfigError::InvalidSampleRate)));
}

#[test]
fn config_rejects_zero_channel_count() {
    assert!(matches!(build(16000, 0, 1024), Err(ConfigError::InvalidChannelCount)));
}

#[test]
fn config_rejects_zero_buffer_size() {
    assert!(matches!(build(16000, 1, 0), Err(ConfigError::InvalidBufferSize)));
}

#[test]
fn config_reports_first_zero_parameter() {
    assert!(matches!(build(0, 0, 0), Err(ConfigError::InvalidSampleRate)));
    assert!(matches!(build(16000, 0, 0), Err(ConfigError::InvalidChannelCount)));
}
