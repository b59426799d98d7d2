//! Node runners of the workflow executor: which runner a node type selects,
//! and how each runner reads its configuration.

use vstd::prelude::*;
use crate::error::AgentError;
use crate::text::{owned, str_eq};

verus! {

/// The runner kinds, selected by node type.
#[derive(Debug, Clone, Copy, PartialEq, Eq, Structural)]
pub enum NodeKind {
    Camera,
    GpioRead,
    GpioWrite,
    Delay,
    HttpRequest,
    Log,
    Passthrough,
}

/// The runner kind for a node type; unknown types pass their inputs through.
pub open spec fn kind_for(t: Seq<char>) -> NodeKind {
    if t == "camera"@ || t == "camera_capture"@ {
        NodeKind::Camera
    } else if t == "gpio_read"@ || t == "gpio_input"@ {
        NodeKind::GpioRead
    } else if t == "gpio_write"@ || t == "gpio_output"@ {
        NodeKind::GpioWrite
    } else if t == "delay"@ || t == "timer"@ {
        NodeKind::Delay
    } else if t == "http_request"@ {
        NodeKind::HttpRequest
    } else if t == "log"@ || t == "debug"@ {
        NodeKind::Log
    } else {
        NodeKind::Passthrough
    }
}

/// Selects runners by node type.
pub struct NodeRunnerFactory;

impl NodeRunnerFactory {
    /// The runner kind for `node_type`.
    pub fn kind(node_type: &str) -> (r: NodeKind)
        ensures
            r == kind_for(node_type@),
    {
        if str_eq(node_type, "camera") || str_eq(node_type, "camera_capture") {
            NodeKind::Camera
        } else if str_eq(node_type, "gpio_read") || str_eq(node_type, "gpio_input") {
            NodeKind::GpioRead
        } else if str_eq(node_type, "gpio_write") || str_eq(node_type, "gpio_output") {
            NodeKind::GpioWrite
        } else if str_eq(node_type, "delay") || str_eq(node_type, "timer") {
            NodeKind::Delay
        } else if str_eq(node_type, "http_request") {
            NodeKind::HttpRequest
        } else if str_eq(node_type, "log") || str_eq(node_type, "debug") {
            NodeKind::Log
        } else {
            NodeKind::Passthrough
        }
    }
}

/// Captures camera frames.
#[derive(Debug)]
pub struct CameraNodeRunner {
    pub node_id: String,
    pub device: String,
    pub width: u32,
    pub height: u32,
}

impl CameraNodeRunner {
    /// Device `/dev/video0` and `640 x 480` unless configured; sizes are cut to 32 bits.
    pub fn new(node_id: &str, device: Option<&str>, width: Option<u64>, height: Option<u64>) -> (r:
        Result<Self, AgentError>)
        ensures
            r is Ok,
            r->Ok_0.node_id@ == node_id@,
            r->Ok_0.device@ == (match device {
                Some(d) => d@,
                None => "/dev/video0"@,
            }),
            r->Ok_0.width == (match width {
                Some(w) => w % 0x1_0000_0000,
                None => 640,
            }),
            r->Ok_0.height == (match height {
                Some(h) => h % 0x1_0000_0000,
                None => 480,
            }),
    {
        let device = match device {
            Some(d) => owned(d),
            None => owned("/dev/video0"),
        };
        let w: u64 = match width {
            Some(w) => w % 0x1_0000_0000,
            None => 640,
        };
        let h: u64 = match height {
            Some(h) => h % 0x1_0000_0000,
            None => 480,
        };
        Ok(CameraNodeRunner { node_id: owned(node_id), device, width: w as u32, height: h as u32 })
    }
}

fn required_pin(pin: Option<u64>) -> (r: Result<u8, AgentError>)
    ensures
        match pin {
            Some(p) => r == Ok::<u8, AgentError>((p % 256) as u8),
            None => r is Err && r->Err_0 is ConfigError,
        },
{
    match pin {
        Some(p) => Ok((p % 256) as u8),
        None => Err(AgentError::ConfigError(owned("GPIO pin not specified"))),
    }
}

/// Reads a GPIO pin.
#[derive(Debug)]
pub struct GpioReadNodeRunner {
    pub node_id: String,
    pub pin: u8,
}

impl GpioReadNodeRunner {
    /// The pin must be configured; it is cut to 8 bits.
    pub fn new(node_id: &str, pin: Option<u64>) -> (r: Result<Self, AgentError>)
        ensures
            match pin {
                Some(p) => r is Ok && r->Ok_0.node_id@ == node_id@ && r->Ok_0.pin == p % 256,
                None => r is Err && r->Err_0 is ConfigError,
            },
    {
        let pin = required_pin(pin)?;
        Ok(GpioReadNodeRunner { node_id: owned(node_id), pin })
    }
}

/// Drives a GPIO pin.
#[derive(Debug)]
pub struct GpioWriteNodeRunner {
    pub node_id: String,
    pub pin: u8,
}

impl GpioWriteNodeRunner {
    /// The pin must be configured; it is cut to 8 bits.
    pub fn new(node_id: &str, pin: Option<u64>) -> (r: Result<Self, AgentError>)
        ensures
            match pin {
                Some(p) => r is Ok && r->Ok_0.node_id@ == node_id@ && r->Ok_0.pin == p % 256,
                None => r is Err && r->Err_0 is ConfigError,
            },
    {
        let pin = required_pin(pin)?;
        Ok(GpioWriteNodeRunner { node_id: owned(node_id), pin })
    }
}

/// Waits before passing its inputs on.
#[derive(Debug)]
pub struct DelayNodeRunner {
    pub node_id: String,
    pub delay_ms: u64,
}

impl DelayNodeRunner {
    /// One second unless configured.
    pub fn new(node_id: &str, delay_ms: Option<u64>) -> (r: Result<Self, AgentError>)
        ensures
            r is Ok && r->Ok_0.node_id@ == node_id@ && r->Ok_0.delay_ms == (match delay_ms {
                Some(d) => d,
                None => 1000,
            }),
    {
        let d = match delay_ms {
            Some(d) => d,
            None => 1000,
        };
        Ok(DelayNodeRunner { node_id: owned(node_id), delay_ms: d })
    }
}

/// Issues an HTTP request.
#[derive(Debug)]
pub struct HttpRequestNodeRunner {
    pub node_id: String,
    pub url: String,
    pub method: String,
}

impl HttpRequestNodeRunner {
    /// The URL must be configured; the method is `GET` unless configured.
    pub fn new(node_id: &str, url: Option<&str>, method: Option<&str>) -> (r: Result<Self, AgentError>)
        ensures
            match url {
                Some(u) => r is Ok && r->Ok_0.node_id@ == node_id@ && r->Ok_0.url@ == u@
                    && r->Ok_0.method@ == (match method {
                    Some(m) => m@,
                    None => "GET"@,
                }),
                None => r is Err && r->Err_0 is ConfigError,
            },
    {
        let url = match url {
            Some(u) => owned(u),
            None => return Err(AgentError::ConfigError(owned("HTTP URL not specified"))),
        };
        let method = match method {
            Some(m) => owned(m),
            None => owned("GET"),
        };
        Ok(HttpRequestNodeRunner { node_id: owned(node_id), url, method })
    }
}

/// Logs its inputs.
#[derive(Debug)]
pub struct LogNodeRunner {
    pub node_id: String,
    pub prefix: String,
}

impl LogNodeRunner {
    /// Prefix `[LOG]` unless configured.
    pub fn new(node_id: &str, prefix: Option<&str>) -> (r: Result<Self, AgentError>)
        ensures
            r is Ok && r->Ok_0.node_id@ == node_id@ && r->Ok_0.prefix@ == (match prefix {
                Some(p) => p@,
                None => "[LOG]"@,
            }),
    {
        let prefix = match prefix {
            Some(p) => owned(p),
            None => owned("[LOG]"),
        };
        Ok(LogNodeRunner { node_id: owned(node_id), prefix })
    }
}

/// Passes its inputs through unchanged.
#[derive(Debug)]
pub struct PassthroughNodeRunner {
    pub node_id: String,
    pub node_type: String,
}

impl PassthroughNodeRunner {
    /// A passthrough runner for a node of type `node_type`.
    pub fn new(node_id: &str, node_type: &str) -> (r: Result<Self, AgentError>)
        ensures
            r is Ok && r->Ok_0.node_id@ == node_id@ && r->Ok_0.node_type@ == node_type@,
    {
        Ok(PassthroughNodeRunner { node_id: owned(node_id), node_type: owned(node_type) })
    }
}

} // verus!
