//! Paths of the agent's persisted state, and the settings file's contents.

use vstd::prelude::*;
use crate::text::{owned, str_eq};

verus! {

/// `base` joined with `name` as a path: an absolute `name` replaces `base`, an
/// empty `base` gives `name`, and one `/` separates the two otherwise.
pub open spec fn join_path(base: Seq<char>, name: Seq<char>) -> Seq<char> {
    if name.len() > 0 && name[0] == '/' {
        name
    } else if base.len() == 0 {
        name
    } else if base.last() == '/' {
        base + name
    } else {
        base + seq!['/'] + name
    }
}

fn join(base: &str, name: &str) -> (r: String)
    ensures
        r@ == join_path(base@, name@),
{
    let n = name.unicode_len();
    if n > 0 && name.get_char(0) == '/' {
        return owned(name);
    }
    let b = base.unicode_len();
    if b == 0 {
        return owned(name);
    }
    if base.get_char(b - 1) == '/' {
        owned(base).concat(name)
    } else {
        let sep = "/";
        proof {
            reveal_strlit("/");
        }
        assert(sep@ =~= seq!['/']);
        owned(base).concat(sep).concat(name)
    }
}

/// A file, by path.
#[derive(Debug)]
pub struct File {
    path: String,
}

impl View for File {
    type V = Seq<char>;

    closed spec fn view(&self) -> Seq<char> {
        self.path@
    }
}

impl File {
    /// The file at `path`.
    pub fn new(path: &str) -> (r: Self)
        ensures
            r@ == path@,
    {
        File { path: owned(path) }
    }

    /// Its path.
    pub fn path(&self) -> (r: &str)
        ensures
            r@ == self@,
    {
        self.path.as_str()
    }
}

/// A directory, by path.
#[derive(Debug)]
pub struct Dir {
    path: String,
}

impl View for Dir {
    type V = Seq<char>;

    closed spec fn view(&self) -> Seq<char> {
        self.path@
    }
}

impl Dir {
    /// The directory at `path`.
    pub fn new(path: &str) -> (r: Self)
        ensures
            r@ == path@,
    {
        Dir { path: owned(path) }
    }

    /// Its path.
    pub fn path(&self) -> (r: &str)
        ensures
            r@ == self@,
    {
        self.path.as_str()
    }

    /// The file `name` inside this directory.
    pub fn file(&self, name: &str) -> (r: File)
        ensures
            r@ == join_path(self@, name@),
    {
        File { path: join(self.path.as_str(), name) }
    }

    /// The subdirectory `name` of this directory.
    pub fn subdir(&self, name: &str) -> (r: Dir)
        ensures
            r@ == join_path(self@, name@),
    {
        Dir { path: join(self.path.as_str(), name) }
    }
}

/// Where the agent keeps its state.
#[derive(Debug)]
pub struct StorageLayout {
    pub base_dir: String,
}

impl StorageLayout {
    /// A layout rooted at `base_dir`.
    pub fn new(base_dir: &str) -> (r: Self)
        ensures
            r.base_dir@ == base_dir@,
    {
        StorageLayout { base_dir: owned(base_dir) }
    }

    /// `<base>/device.json`
    pub fn device_file(&self) -> (r: File)
        ensures
            r@ == join_path(self.base_dir@, "device.json"@),
    {
        File { path: join(self.base_dir.as_str(), "device.json") }
    }

    /// `<base>/settings.json`
    pub fn settings_file(&self) -> (r: File)
        ensures
            r@ == join_path(self.base_dir@, "settings.json"@),
    {
        File { path: join(self.base_dir.as_str(), "settings.json") }
    }

    /// `<base>/cache`
    pub fn cache_dir(&self) -> (r: Dir)
        ensures
            r@ == join_path(self.base_dir@, "cache"@),
    {
        Dir { path: join(self.base_dir.as_str(), "cache") }
    }

    /// `<base>/cache/workflows`
    pub fn workflows_cache_dir(&self) -> (r: Dir)
        ensures
            r@ == join_path(join_path(self.base_dir@, "cache"@), "workflows"@),
    {
        let cache = join(self.base_dir.as_str(), "cache");
        Dir { path: join(cache.as_str(), "workflows") }
    }

    /// `<base>/cache/configs`
    pub fn configs_cache_dir(&self) -> (r: Dir)
        ensures
            r@ == join_path(join_path(self.base_dir@, "cache"@), "configs"@),
    {
        let cache = join(self.base_dir.as_str(), "cache");
        Dir { path: join(cache.as_str(), "configs") }
    }

    /// `<base>/deployments`
    pub fn deployment_dir(&self) -> (r: Dir)
        ensures
            r@ == join_path(self.base_dir@, "deployments"@),
    {
        Dir { path: join(self.base_dir.as_str(), "deployments") }
    }

    /// `<base>/logs`
    pub fn logs_dir(&self) -> (r: Dir)
        ensures
            r@ == join_path(self.base_dir@, "logs"@),
    {
        Dir { path: join(self.base_dir.as_str(), "logs") }
    }

    /// `<base>/tokens`
    pub fn tokens_dir(&self) -> (r: Dir)
        ensures
            r@ == join_path(self.base_dir@, "tokens"@),
    {
        Dir { path: join(self.base_dir.as_str(), "tokens") }
    }
}

impl Default for StorageLayout {
    /// The Linux default, `/etc/ajime`.
    fn default() -> (r: Self)
        ensures
            r.base_dir@ == "/etc/ajime"@,
    {
        StorageLayout::new("/etc/ajime")
    }
}

/// Log verbosity.
#[derive(Debug, Clone, Copy, PartialEq, Eq, Structural)]
pub enum LogLevel {
    Trace,
    Debug,
    Info,
    Warn,
    Error,
}

impl Default for LogLevel {
    fn default() -> (r: Self)
        ensures
            r == LogLevel::Info,
    {
        LogLevel::Info
    }
}

/// The filter word of each level.
pub open spec fn level_word(l: LogLevel) -> Seq<char> {
    match l {
        LogLevel::Trace => "trace"@,
        LogLevel::Debug => "debug"@,
        LogLevel::Info => "info"@,
        LogLevel::Warn => "warn"@,
        LogLevel::Error => "error"@,
    }
}

/// Severity rank of a level, from `Trace` (0) to `Error` (4).
pub open spec fn level_rank(l: LogLevel) -> u8 {
    match l {
        LogLevel::Trace => 0,
        LogLevel::Debug => 1,
        LogLevel::Info => 2,
        LogLevel::Warn => 3,
        LogLevel::Error => 4,
    }
}

impl LogLevel {
    /// Severity rank, from `Trace` (0) to `Error` (4).
    pub fn to_level(&self) -> (r: u8)
        ensures
            r == level_rank(*self),
    {
        match self {
            LogLevel::Trace => 0,
            LogLevel::Debug => 1,
            LogLevel::Info => 2,
            LogLevel::Warn => 3,
            LogLevel::Error => 4,
        }
    }

    /// The filter word: `trace`, `debug`, `info`, `warn` or `error`.
    pub fn to_filter_string(&self) -> (r: &'static str)
        ensures
            r@ == level_word(*self),
    {
        match self {
            LogLevel::Trace => "trace",
            LogLevel::Debug => "debug",
            LogLevel::Info => "info",
            LogLevel::Warn => "warn",
            LogLevel::Error => "error",
        }
    }
}

/// The level a lowercase word names: the filter words, with `warning` also
/// naming `Warn`.
pub open spec fn level_named(word: Seq<char>) -> Option<LogLevel> {
    if word == "trace"@ {
        Some(LogLevel::Trace)
    } else if word == "debug"@ {
        Some(LogLevel::Debug)
    } else if word == "info"@ {
        Some(LogLevel::Info)
    } else if word == "warn"@ || word == "warning"@ {
        Some(LogLevel::Warn)
    } else if word == "error"@ {
        Some(LogLevel::Error)
    } else {
        None
    }
}

/// Lowercase form of a string, as std's `str::to_lowercase` computes it.
pub uninterp spec fn lower_of(s: Seq<char>) -> Seq<char>;

/// Relies on std's `str::to_lowercase`: the Unicode lowercase mapping, a
/// function of the characters alone.
#[verifier::external_body]
fn lowercase(s: &str) -> (r: String)
    ensures
        r@ == lower_of(s@),
{
    s.to_lowercase()
}

impl LogLevel {
    /// The level named by an already lowercased word; any other word is refused
    /// with `Invalid log level: <word>`.
    pub fn from_lowercase(word: &str) -> (r: Result<LogLevel, String>)
        ensures
            match level_named(word@) {
                Some(l) => r == Ok::<LogLevel, String>(l),
                None => r is Err && r->Err_0@ == "Invalid log level: "@ + word@,
            },
    {
        if str_eq(word, "trace") {
            Ok(LogLevel::Trace)
        } else if str_eq(word, "debug") {
            Ok(LogLevel::Debug)
        } else if str_eq(word, "info") {
            Ok(LogLevel::Info)
        } else if str_eq(word, "warn") || str_eq(word, "warning") {
            Ok(LogLevel::Warn)
        } else if str_eq(word, "error") {
            Ok(LogLevel::Error)
        } else {
            Err(owned("Invalid log level: ").concat(word))
        }
    }

    /// The level named by `s`, in any letter case.
    pub fn parse(s: &str) -> (r: Result<LogLevel, String>)
        ensures
            match level_named(lower_of(s@)) {
                Some(l) => r == Ok::<LogLevel, String>(l),
                None => r is Err,
            },
    {
        let lower = lowercase(s);
        match LogLevel::from_lowercase(lower.as_str()) {
            Ok(l) => Ok(l),
            Err(_) => Err(owned("Invalid log level: ").concat(s)),
        }
    }
}

/// Logging options.
#[derive(Debug)]
pub struct LogOptions {
    pub log_level: LogLevel,
    pub stdout: bool,
    pub log_dir: String,
    pub json_format: bool,
}

impl Default for LogOptions {
    fn default() -> (r: Self)
        ensures
            r.log_level == LogLevel::Info,
            r.stdout,
            r.log_dir@ == "/var/log/ajime"@,
            !r.json_format,
    {
        LogOptions { log_level: LogLevel::Info, stdout: true, log_dir: owned("/var/log/ajime"), json_format: false }
    }
}

/// Backend endpoint settings.
#[derive(Debug)]
pub struct BackendSettings {
    pub base_url: String,
}

fn default_backend_url() -> (r: String)
    ensures
        r@ == "http://localhost:8000/api/v1"@,
{
    owned("http://localhost:8000/api/v1")
}

impl Default for BackendSettings {
    fn default() -> (r: Self)
        ensures
            r.base_url@ == "http://localhost:8000/api/v1"@,
    {
        BackendSettings { base_url: default_backend_url() }
    }
}

/// MQTT broker settings.
#[derive(Debug)]
pub struct MqttBrokerSettings {
    pub host: String,
    pub port: u16,
    pub tls: bool,
    pub ca_cert_path: Option<String>,
}

fn default_true() -> (r: bool)
    ensures
        r,
{
    true
}

fn default_mqtt_host() -> (r: String)
    ensures
        r@.len() == 0,
{
    String::new()
}

fn default_mqtt_port() -> (r: u16)
    ensures
        r == 8883,
{
    8883
}

impl Default for MqttBrokerSettings {
    fn default() -> (r: Self)
        ensures
            r.host@.len() == 0,
            r.port == 8883,
            r.tls,
            r.ca_cert_path is None,
    {
        MqttBrokerSettings {
            host: default_mqtt_host(),
            port: default_mqtt_port(),
            tls: default_true(),
            ca_cert_path: None,
        }
    }
}

/// Hardware settings.
#[derive(Debug)]
pub struct HardwareSettings {
    pub enable_camera: bool,
    pub enable_gpio: bool,
    pub camera_device: String,
}

fn default_camera_device() -> (r: String)
    ensures
        r@ == "/dev/video0"@,
{
    owned("/dev/video0")
}

impl Default for HardwareSettings {
    fn default() -> (r: Self)
        ensures
            !r.enable_camera,
            !r.enable_gpio,
            r.camera_device@ == "/dev/video0"@,
    {
        HardwareSettings { enable_camera: false, enable_gpio: false, camera_device: default_camera_device() }
    }
}

fn default_polling_interval() -> (r: u64)
    ensures
        r == 30,
{
    30
}

/// Contents of the settings file.
#[derive(Debug)]
pub struct Settings {
    pub log_level: LogLevel,
    pub backend: BackendSettings,
    pub mqtt_broker: MqttBrokerSettings,
    pub is_persistent: bool,
    pub enable_socket_server: bool,
    pub enable_mqtt_worker: bool,
    pub enable_poller: bool,
    pub polling_interval_secs: u64,
    pub hardware: HardwareSettings,
}

impl Default for Settings {
    fn default() -> (r: Self)
        ensures
            r.log_level == LogLevel::Info,
            r.backend.base_url@ == "http://localhost:8000/api/v1"@,
            r.mqtt_broker.port == 8883,
            r.is_persistent && r.enable_socket_server && r.enable_mqtt_worker && r.enable_poller,
            r.polling_interval_secs == 30,
            r.hardware.camera_device@ == "/dev/video0"@,
    {
        Settings {
            log_level: LogLevel::Info,
            backend: BackendSettings::default(),
            mqtt_broker: MqttBrokerSettings::default(),
            is_persistent: default_true(),
            enable_socket_server: default_true(),
            enable_mqtt_worker: default_true(),
            enable_poller: default_true(),
            polling_interval_secs: default_polling_interval(),
            hardware: HardwareSettings::default(),
        }
    }
}

} // verus!
