//! Run configuration: the transport choice and the capture parameters,
//! validated once before streaming starts. Names and addresses are carried
//! as their bytes; the surrounding program converts to and from text.

use vstd::prelude::*;

verus! {

/// The transport a run streams over.
#[derive(Clone, Copy, Debug, PartialEq, Eq, Structural)]
pub enum Protocol {
    Tcp,
    Udp,
}

#[derive(Clone, Copy, Debug, PartialEq, Eq, Structural)]
pub enum ConfigError {
    /// The protocol argument named neither transport.
    InvalidProtocol,
    /// A sample rate of zero.
    InvalidSampleRate,
    /// A channel count of zero.
    InvalidChannelCount,
    /// A buffer size of zero.
    InvalidBufferSize,
}

/// The bytes of the protocol argument that selects TCP: "tcp".
pub open spec fn tcp_token() -> Seq<u8> {
    seq![116u8, 99u8, 112u8]
}

/// The bytes of the protocol argument that selects UDP: "udp".
pub open spec fn udp_token() -> Seq<u8> {
    seq![117u8, 100u8, 112u8]
}

/// Reads the protocol argument: exactly "tcp" or "udp" (case-sensitive),
/// anything else is rejected.
pub fn parse_protocol(arg: &Vec<u8>) -> (r: Result<Protocol, ConfigError>)
    ensures
        arg@ == tcp_token() ==> r == Ok::<Protocol, ConfigError>(Protocol::Tcp),
        arg@ == udp_token() ==> r == Ok::<Protocol, ConfigError>(Protocol::Udp),
        arg@ != tcp_token() && arg@ != udp_token() ==> r == Err::<Protocol, ConfigError>(
            ConfigError::InvalidProtocol,
        ),
{
    if arg.len() == 3 {
        if arg[0] == 116 && arg[1] == 99 && arg[2] == 112 {
            proof {
                assert(arg@ =~= tcp_token());
            }
            return Ok(Protocol::Tcp);
        }
        if arg[0] == 117 && arg[1] == 100 && arg[2] == 112 {
            proof {
                assert(arg@ =~= udp_token());
            }
            return Ok(Protocol::Udp);
        }
    }
    proof {
        assert(arg@ != tcp_token() && arg@ != udp_token());
    }
    Err(ConfigError::InvalidProtocol)
}

/// The validated configuration of one run. Immutable once constructed.
pub struct AudioConfig {
    /// Substring to pick the capture device by; absent means the default device.
    pub device_name: Option<Vec<u8>>,
    /// The server's address, as "host:port" bytes.
    pub server_addr: Vec<u8>,
    pub protocol: Protocol,
    /// Samples per second per channel; positive.
    pub sample_rate: u32,
    /// Interleaved channels per frame; positive.
    pub channels: u16,
    /// Frames per capture callback; positive.
    pub buffer_size: u32,
}

impl AudioConfig {
    /// A configuration is valid when every capture parameter is positive.
    pub open spec fn valid(self) -> bool {
        self.sample_rate > 0 && self.channels > 0 && self.buffer_size > 0
    }

    /// Validates and assembles a configuration. Succeeds exactly on positive
    /// capture parameters; the first zero parameter, in the order sample
    /// rate, channel count, buffer size, names the error.
    pub fn new(
        device_name: Option<Vec<u8>>,
        server_addr: Vec<u8>,
        protocol: Protocol,
        sample_rate: u32,
        channels: u16,
        buffer_size: u32,
    ) -> (r: Result<AudioConfig, ConfigError>)
        ensures
            r is Ok <==> sample_rate > 0 && channels > 0 && buffer_size > 0,
            match r {
                Ok(c) => {
                    &&& c.valid()
                    &&& sample_rate > 0 && channels > 0 && buffer_size > 0
                    &&& c == (AudioConfig {
                        device_name,
                        server_addr,
                        protocol,
                        sample_rate,
                        channels,
                        buffer_size,
                    })
                },
                Err(e) => {
                    &&& (e == ConfigError::InvalidSampleRate <==> sample_rate == 0)
                    &&& (e == ConfigError::InvalidChannelCount <==> sample_rate > 0 && channels
                        == 0)
                    &&& (e == ConfigError::InvalidBufferSize <==> sample_rate > 0 && channels > 0
                        && buffer_size == 0)
                },
            },
    {
        if sample_rate == 0 {
            return Err(ConfigError::InvalidSampleRate);
        }
        if channels == 0 {
            return Err(ConfigError::InvalidChannelCount);
        }
        if buffer_size == 0 {
            return Err(ConfigError::InvalidBufferSize);
        }
        Ok(AudioConfig { device_name, server_addr, protocol, sample_rate, channels, buffer_size })
    }
}

} // verus!
