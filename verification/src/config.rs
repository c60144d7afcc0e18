//! Agent configuration and the sampling decision.

use crate::capture::text_view;
use crate::digest::{hex_encode, hex_lower};
use crate::machine::{new_uuid, system_hostname, unix_seconds};
use vstd::prelude::*;
use vstd::string::*;

verus! {

/// The sampling rate at which every event is kept, in parts per million.
pub const SAMPLING_RATE_ALL: u32 = 1_000_000;

/// Runtime information.
#[derive(Clone, Debug)]
pub struct RuntimeInfo {
    pub runtime: String,
    pub runtime_version: String,
    pub platform: String,
    pub arch: String,
}

/// What a runtime descriptor says, as plain text.
pub struct RuntimeInfoView {
    pub runtime: Seq<char>,
    pub runtime_version: Seq<char>,
    pub platform: Seq<char>,
    pub arch: Seq<char>,
}

impl View for RuntimeInfo {
    type V = RuntimeInfoView;

    open spec fn view(&self) -> RuntimeInfoView {
        RuntimeInfoView {
            runtime: self.runtime@,
            runtime_version: self.runtime_version@,
            platform: self.platform@,
            arch: self.arch@,
        }
    }
}

impl RuntimeInfo {
    /// A copy of this descriptor.
    pub fn duplicate(&self) -> (copy: RuntimeInfo)
        ensures
            copy@ == self@,
    {
        RuntimeInfo {
            runtime: self.runtime.clone(),
            runtime_version: self.runtime_version.clone(),
            platform: self.platform.clone(),
            arch: self.arch.clone(),
        }
    }
}

/// Agent configuration.
#[derive(Clone, Debug)]
pub struct Config {
    /// API key.
    pub api_key: String,
    /// Backend WebSocket URL.
    pub backend_url: String,
    /// Environment name.
    pub environment: String,
    /// Sampling rate in parts per million: 0 keeps nothing, 1 000 000 or
    /// more keeps everything.
    pub sampling_rate: u32,
    /// Maximum capture depth for variables.
    pub max_capture_depth: usize,
    /// Maximum string length to capture.
    pub max_string_length: usize,
    /// Maximum collection size to capture.
    pub max_collection_size: usize,
    /// Enable debug logging.
    pub debug: bool,
    /// Hostname.
    pub hostname: String,
    /// Agent ID.
    pub agent_id: String,
    /// Descriptor of the runtime that hosts the agent.
    pub runtime: RuntimeInfo,
}

/// What a configuration says, as plain text and numbers.
pub struct ConfigView {
    pub api_key: Seq<char>,
    pub backend_url: Seq<char>,
    pub environment: Seq<char>,
    pub sampling_rate: u32,
    pub max_capture_depth: usize,
    pub max_string_length: usize,
    pub max_collection_size: usize,
    pub debug: bool,
    pub hostname: Seq<char>,
    pub agent_id: Seq<char>,
    pub runtime: RuntimeInfoView,
}

impl View for Config {
    type V = ConfigView;

    open spec fn view(&self) -> ConfigView {
        ConfigView {
            api_key: self.api_key@,
            backend_url: self.backend_url@,
            environment: self.environment@,
            sampling_rate: self.sampling_rate,
            max_capture_depth: self.max_capture_depth,
            max_string_length: self.max_string_length,
            max_collection_size: self.max_collection_size,
            debug: self.debug,
            hostname: self.hostname@,
            agent_id: self.agent_id@,
            runtime: self.runtime@,
        }
    }
}

/// Address of the collector that a new configuration points to.
pub const DEFAULT_BACKEND_URL: &'static str = "wss://api.aivory.net/ws/agent";

/// Environment label of a new configuration.
pub const DEFAULT_ENVIRONMENT: &'static str = "production";

/// Host name used when the system gives none.
pub const UNKNOWN_HOSTNAME: &'static str = "unknown";

/// Name of the runtime that this agent is built for.
pub const RUNTIME_NAME: &'static str = "rust";

/// Version reported in the runtime descriptor.
pub const RUNTIME_VERSION: &'static str = "1.0.0";

/// Platform and architecture label of a descriptor that nobody has filled
/// in yet.
pub const UNKNOWN_PLATFORM: &'static str = "unknown";

/// The runtime descriptor of a new configuration.
pub open spec fn default_runtime() -> RuntimeInfoView {
    RuntimeInfoView {
        runtime: RUNTIME_NAME@,
        runtime_version: RUNTIME_VERSION@,
        platform: UNKNOWN_PLATFORM@,
        arch: UNKNOWN_PLATFORM@,
    }
}

/// Settings taken from the process environment, each absent where the
/// environment does not set it. Numbers and the debug flag come as the
/// texts that the environment holds; the sampling rate comes in parts per
/// million.
#[derive(Clone, Debug)]
pub struct Overrides {
    pub api_key: Option<String>,
    pub backend_url: Option<String>,
    pub environment: Option<String>,
    pub sampling_rate: Option<u32>,
    pub max_capture_depth: Option<String>,
    pub max_string_length: Option<String>,
    pub max_collection_size: Option<String>,
    pub debug: Option<String>,
}

/// Whether a character is one of the ten decimal digits.
pub open spec fn is_decimal_digit(c: char) -> bool {
    '0' <= c <= '9'
}

/// The number that a run of decimal digits denotes.
pub open spec fn digits_value(digits: Seq<char>) -> nat
    decreases digits.len(),
{
    if digits.len() == 0 {
        0
    } else {
        digits_value(digits.drop_last()) * 10 + (digits.last() as u32 - '0' as u32) as nat
    }
}

/// The digits of a decimal number text: the text without its plus sign, if
/// it begins with one.
pub open spec fn unsigned_digits(text: Seq<char>) -> Seq<char> {
    if text.len() > 0 && text[0] == '+' {
        text.skip(1)
    } else {
        text
    }
}

/// The number that a text denotes as a `u64`: the text is an optional plus
/// sign followed by one or more decimal digits and nothing else, and the
/// number fits. Any other text denotes none.
pub open spec fn parsed_u64(text: Seq<char>) -> Option<u64> {
    let digits = unsigned_digits(text);
    if digits.len() > 0 && (forall|i: int|
        0 <= i < digits.len() ==> is_decimal_digit(#[trigger] digits[i])) && digits_value(digits)
        <= u64::MAX {
        Some(digits_value(digits) as u64)
    } else {
        None
    }
}

/// A text with every character in lower case, by the rules of the standard
/// library.
pub uninterp spec fn lowercase_of(text: Seq<char>) -> Seq<char>;

/// Calls `str::parse` for a `u64`.
/// Trusted: the text is read as the standard library documents it for
/// unsigned integers: an optional plus sign, then decimal digits only, at
/// least one; an empty text, any other character and a number too large
/// for a `u64` give no number.
#[verifier::external_body]
fn parse_u64(text: &str) -> (number: Option<u64>)
    ensures
        number == parsed_u64(text@),
{
    text.parse::<u64>().ok()
}

/// Calls `str::to_lowercase`.
/// Trusted: the result depends on the text alone.
#[verifier::external_body]
fn lowercase(text: &str) -> (lowered: String)
    ensures
        lowered@ == lowercase_of(text@),
{
    text.to_lowercase()
}

/// The host name of a configuration: the name that the system gives, or a
/// fixed text when it gives none.
pub open spec fn hostname_of(name: Option<Seq<char>>) -> Seq<char> {
    match name {
        Some(text) => text,
        None => UNKNOWN_HOSTNAME@,
    }
}

/// The configuration that `Config::new` assembles from an API key, what
/// the system gave as host name, a start time and a UUID text.
pub open spec fn new_config(
    api_key: Seq<char>,
    name: Option<Seq<char>>,
    timestamp: i64,
    uuid: Seq<char>,
) -> ConfigView {
    ConfigView {
        api_key,
        backend_url: DEFAULT_BACKEND_URL@,
        environment: DEFAULT_ENVIRONMENT@,
        sampling_rate: SAMPLING_RATE_ALL,
        max_capture_depth: 10,
        max_string_length: 1000,
        max_collection_size: 100,
        debug: false,
        hostname: hostname_of(name),
        agent_id: agent_id_of(timestamp, uuid),
        runtime: default_runtime(),
    }
}

/// Whether host name and agent identifier are those of a configuration
/// made on some machine: the host name is what a system gave or the fixed
/// text, the identifier is built from some start time and UUID text.
pub open spec fn has_machine_identity(config: ConfigView) -> bool {
    exists|name: Option<Seq<char>>, timestamp: i64, uuid: Seq<char>|
        #![trigger hostname_of(name), agent_id_of(timestamp, uuid)]
        uuid.len() == 36 && config.hostname == hostname_of(name) && config.agent_id
            == agent_id_of(timestamp, uuid)
}

/// A text setting, or its default.
pub open spec fn text_setting(value: Option<String>, default: Seq<char>) -> Seq<char> {
    match value {
        Some(text) => text@,
        None => default,
    }
}

/// A numeric setting: the number that the text denotes, or the default
/// where the setting is absent, does not denote a number, or denotes one
/// that a `usize` cannot hold.
pub open spec fn number_setting(value: Option<String>, default: usize) -> usize {
    match value {
        Some(text) => match parsed_u64(text@) {
            Some(number) => if number <= usize::MAX {
                number as usize
            } else {
                default
            },
            None => default,
        },
        None => default,
    }
}

/// The debug setting: on exactly when the text, in lower case, is `true`.
pub open spec fn flag_setting(value: Option<String>) -> bool {
    match value {
        Some(text) => lowercase_of(text@) == "true"@,
        None => false,
    }
}

/// One step of the 64-bit xorshift generator with shifts 13, 7 and 17.
pub open spec fn xorshift(seed: u64) -> u64 {
    let a = seed ^ (seed << 13);
    let b = a ^ (a >> 7);
    b ^ (b << 17)
}

/// Whether a draw falls below a sampling rate: the draw, read as a fraction
/// of the largest 64-bit value, is less than the rate, read as a fraction of
/// one million.
pub open spec fn draw_below_rate(draw: u64, rate: u32) -> bool {
    draw * SAMPLING_RATE_ALL < rate * u64::MAX
}

/// The sampling decision for one event: a rate of one or more keeps every
/// event, a rate of zero keeps none, and any other rate keeps the events
/// whose draw falls below it.
pub open spec fn sampled(rate: u32, draw: u64) -> bool {
    if rate >= SAMPLING_RATE_ALL {
        true
    } else if rate == 0 {
        false
    } else {
        draw_below_rate(draw, rate)
    }
}

/// The generator state after a sampling decision: only a rate strictly
/// between none and all draws, and so advances the state.
pub open spec fn seed_after(rate: u32, seed: u64) -> u64 {
    if 0 < rate < SAMPLING_RATE_ALL {
        xorshift(seed)
    } else {
        seed
    }
}

/// The last four bytes of a timestamp written as eight big-endian bytes.
pub open spec fn low_bytes(timestamp: i64) -> Seq<u8> {
    let word = timestamp as u64;
    seq![
        ((word >> 24) & 0xff) as u8,
        ((word >> 16) & 0xff) as u8,
        ((word >> 8) & 0xff) as u8,
        (word & 0xff) as u8,
    ]
}

/// An agent identifier: `agent-`, the low half of the start time in
/// hexadecimal, a hyphen, and the first eight characters of a UUID.
pub open spec fn agent_id_of(timestamp: i64, uuid: Seq<char>) -> Seq<char> {
    "agent-"@ + hex_lower(low_bytes(timestamp)) + seq!['-'] + uuid.take(8)
}

/// Types that a random draw can be turned into.
pub trait FromU64: Sized {
    /// The value that stands for a draw.
    spec fn of_u64(value: u64) -> Self;

    /// Turns a draw into a value of this type.
    fn from_u64(value: u64) -> (converted: Self)
        ensures
            converted == Self::of_u64(value),
    ;
}

impl FromU64 for u64 {
    open spec fn of_u64(value: u64) -> u64 {
        value
    }

    fn from_u64(value: u64) -> (converted: u64) {
        value
    }
}

/// Advances the generator state `seed` by one xorshift step and returns the
/// new state as a value of the requested type.
pub fn random<T: FromU64>(seed: &mut u64) -> (value: T)
    ensures
        *final(seed) == xorshift(*old(seed)),
        value == T::of_u64(xorshift(*old(seed))),
{
    let mut s: u64 = *seed;
    s = s ^ (s << 13);
    s = s ^ (s >> 7);
    s = s ^ (s << 17);
    *seed = s;
    T::from_u64(s)
}

/// Decides whether an event with the given draw is kept at the given rate.
pub fn sample_decision(rate: u32, draw: u64) -> (keep: bool)
    ensures
        keep == sampled(rate, draw),
{
    if rate >= SAMPLING_RATE_ALL {
        return true;
    }
    if rate == 0 {
        return false;
    }
    let scaled_draw: u128 = (draw as u128) * 1_000_000u128;
    let scaled_rate: u128 = (rate as u128) * 0xffff_ffff_ffff_ffffu128;
    scaled_draw < scaled_rate
}

/// A rate of one keeps every event and a rate of zero keeps none, whatever
/// the draw; between the two, a lower draw is kept whenever a higher one is.
pub proof fn sampling_boundaries(rate: u32, draw: u64, other: u64)
    ensures
        rate >= SAMPLING_RATE_ALL ==> sampled(rate, draw),
        rate == 0 ==> !sampled(rate, draw),
        other <= draw && sampled(rate, draw) ==> sampled(rate, other),
{
}

/// Builds an agent identifier from a start time and a UUID text.
pub fn make_agent_id(timestamp: i64, uuid: &str) -> (id: String)
    requires
        uuid@.len() >= 8,
    ensures
        id@ == agent_id_of(timestamp, uuid@),
{
    let word: u64 = timestamp as u64;
    let mut bytes: Vec<u8> = Vec::new();
    bytes.push(((word >> 24) & 0xff) as u8);
    bytes.push(((word >> 16) & 0xff) as u8);
    bytes.push(((word >> 8) & 0xff) as u8);
    bytes.push((word & 0xff) as u8);
    let mut id = String::from_str("agent-");
    id.append(hex_encode(bytes.as_slice()).as_str());
    id.append("-");
    id.append(uuid.substring_char(0, 8));
    proof {
        reveal_strlit("-");
    }
    id
}

/// The host name to configure, given what the system answered: its name,
/// or `unknown` when it gave none.
pub fn hostname_or_unknown(name: Option<String>) -> (hostname: String)
    ensures
        hostname@ == hostname_of(
            text_view(name),
        ),
{
    match name {
        Some(text) => text,
        None => String::from_str(UNKNOWN_HOSTNAME),
    }
}

/// Reads a text setting.
fn read_text(value: &Option<String>, default: &str) -> (text: String)
    ensures
        text@ == text_setting(*value, default@),
{
    match value {
        Some(text) => text.clone(),
        None => String::from_str(default),
    }
}

/// Reads a numeric setting.
fn read_number(value: &Option<String>, default: usize) -> (number: usize)
    ensures
        number == number_setting(*value, default),
{
    match value {
        Some(text) => match parse_u64(text.as_str()) {
            Some(number) => if number <= usize::MAX as u64 {
                number as usize
            } else {
                default
            },
            None => default,
        },
        None => default,
    }
}

/// Reads the debug setting.
fn read_flag(value: &Option<String>) -> (flag: bool)
    ensures
        flag == flag_setting(*value),
{
    match value {
        Some(text) => lowercase(text.as_str()) == String::from_str("true"),
        None => false,
    }
}

impl Config {
    /// Creates the configuration of a process from the settings of its
    /// environment: each setting that is present and well-formed replaces
    /// the default, the API key defaults to the empty text, and the host
    /// name and the agent identifier are made as for a new configuration.
    pub fn from_environment(overrides: &Overrides) -> (config: Config)
        ensures
            config@.api_key == text_setting(overrides.api_key, Seq::empty()),
            config@.backend_url == text_setting(overrides.backend_url, DEFAULT_BACKEND_URL@),
            config@.environment == text_setting(overrides.environment, DEFAULT_ENVIRONMENT@),
            config@.sampling_rate == match overrides.sampling_rate {
                Some(rate) => rate,
                None => SAMPLING_RATE_ALL,
            },
            config@.max_capture_depth == number_setting(overrides.max_capture_depth, 10),
            config@.max_string_length == number_setting(overrides.max_string_length, 1000),
            config@.max_collection_size == number_setting(overrides.max_collection_size, 100),
            config@.debug == flag_setting(overrides.debug),
            config@.runtime == default_runtime(),
            has_machine_identity(config@),
    {
        let base = Config::new("");
        proof {
            reveal_strlit("");
        }
        Config {
            api_key: read_text(&overrides.api_key, ""),
            backend_url: read_text(&overrides.backend_url, DEFAULT_BACKEND_URL),
            environment: read_text(&overrides.environment, DEFAULT_ENVIRONMENT),
            sampling_rate: match overrides.sampling_rate {
                Some(rate) => rate,
                None => SAMPLING_RATE_ALL,
            },
            max_capture_depth: read_number(&overrides.max_capture_depth, 10),
            max_string_length: read_number(&overrides.max_string_length, 1000),
            max_collection_size: read_number(&overrides.max_collection_size, 100),
            debug: read_flag(&overrides.debug),
            ..base
        }
    }

    /// Creates a configuration with the given API key and the defaults for
    /// everything else: the public collector, the `production` environment,
    /// every event sampled, the system's host name and a fresh agent
    /// identifier.
    pub fn new(api_key: &str) -> (config: Config)
        ensures
            config@.api_key == api_key@,
            config@.backend_url == DEFAULT_BACKEND_URL@,
            config@.environment == DEFAULT_ENVIRONMENT@,
            config@.sampling_rate == SAMPLING_RATE_ALL,
            config@.max_capture_depth == 10,
            config@.max_string_length == 1000,
            config@.max_collection_size == 100,
            !config@.debug,
            config@.runtime == default_runtime(),
            has_machine_identity(config@),
    {
        let name = system_hostname();
        let timestamp = unix_seconds();
        let uuid = new_uuid();
        let ghost given = text_view(name);
        let config = Config::assemble(api_key, name, timestamp, uuid.as_str());
        assert(config@.hostname == hostname_of(given) && config@.agent_id == agent_id_of(
            timestamp,
            uuid@,
        ));
        config
    }

    /// Assembles a configuration from an API key and what the machine
    /// answered: the host name the system gave, if any, the start time in
    /// seconds, and a UUID text of which the first eight characters are
    /// used. Everything else takes its default.
    pub fn assemble(api_key: &str, name: Option<String>, timestamp: i64, uuid: &str) -> (config:
        Config)
        requires
            uuid@.len() >= 8,
        ensures
            config@ == new_config(
                api_key@,
                text_view(name),
                timestamp,
                uuid@,
            ),
    {
        Config {
            api_key: String::from_str(api_key),
            backend_url: String::from_str(DEFAULT_BACKEND_URL),
            environment: String::from_str(DEFAULT_ENVIRONMENT),
            sampling_rate: SAMPLING_RATE_ALL,
            max_capture_depth: 10,
            max_string_length: 1000,
            max_collection_size: 100,
            debug: false,
            hostname: hostname_or_unknown(name),
            agent_id: make_agent_id(timestamp, uuid),
            runtime: RuntimeInfo {
                runtime: String::from_str(RUNTIME_NAME),
                runtime_version: String::from_str(RUNTIME_VERSION),
                platform: String::from_str(UNKNOWN_PLATFORM),
                arch: String::from_str(UNKNOWN_PLATFORM),
            },
        }
    }

    /// Sets the environment.
    pub fn environment(self, env: &str) -> (config: Config)
        ensures
            config@ == (ConfigView { environment: env@, ..self@ }),
    {
        Config { environment: String::from_str(env), ..self }
    }

    /// Sets the backend URL.
    pub fn backend_url(self, url: &str) -> (config: Config)
        ensures
            config@ == (ConfigView { backend_url: url@, ..self@ }),
    {
        Config { backend_url: String::from_str(url), ..self }
    }

    /// Sets the sampling rate, in parts per million.
    pub fn sampling_rate(self, rate: u32) -> (config: Config)
        ensures
            config@ == (ConfigView { sampling_rate: rate, ..self@ }),
    {
        Config { sampling_rate: rate, ..self }
    }

    /// Enables debug logging.
    pub fn debug(self, debug: bool) -> (config: Config)
        ensures
            config@ == (ConfigView { debug, ..self@ }),
    {
        Config { debug, ..self }
    }

    /// Names the platform and architecture in the runtime descriptor.
    pub fn platform(self, platform: &str, arch: &str) -> (config: Config)
        ensures
            config@ == (ConfigView {
                runtime: RuntimeInfoView { platform: platform@, arch: arch@, ..self@.runtime },
                ..self@
            }),
    {
        let runtime = RuntimeInfo {
            platform: String::from_str(platform),
            arch: String::from_str(arch),
            ..self.runtime
        };
        Config { runtime, ..self }
    }

    /// Determines if the current event should be sampled. A rate of one or
    /// more keeps it and a rate of zero drops it without drawing; any other
    /// rate advances the generator state `seed` and compares the draw.
    pub fn should_sample(&self, seed: &mut u64) -> (keep: bool)
        ensures
            keep == sampled(self.sampling_rate, xorshift(*old(seed))),
            *final(seed) == seed_after(self.sampling_rate, *old(seed)),
            self.sampling_rate >= SAMPLING_RATE_ALL ==> keep,
            self.sampling_rate == 0 ==> !keep,
    {
        if self.sampling_rate >= SAMPLING_RATE_ALL {
            return true;
        }
        if self.sampling_rate == 0 {
            return false;
        }
        let draw: u64 = random(seed);
        sample_decision(self.sampling_rate, draw)
    }

    /// Gets runtime information.
    pub fn runtime_info(&self) -> (info: RuntimeInfo)
        ensures
            info@ == self@.runtime,
    {
        self.runtime.duplicate()
    }

    /// A copy of this configuration.
    pub fn duplicate(&self) -> (copy: Config)
        ensures
            copy@ == self@,
    {
        Config {
            api_key: self.api_key.clone(),
            backend_url: self.backend_url.clone(),
            environment: self.environment.clone(),
            sampling_rate: self.sampling_rate,
            max_capture_depth: self.max_capture_depth,
            max_string_length: self.max_string_length,
            max_collection_size: self.max_collection_size,
            debug: self.debug,
            hostname: self.hostname.clone(),
            agent_id: self.agent_id.clone(),
            runtime: self.runtime.duplicate(),
        }
    }
}

} // verus!
