//! Connection settings for the chat gateway and the shared state that holds them.
use vstd::prelude::*;

verus! {

/// User-configurable gateway connection parameters.
#[derive(Debug, Clone)]
pub struct OpenClawConfig {
    /// Base URL of the gateway.
    pub gateway_url: String,
    /// Agent identifier.
    pub agent_id: String,
    /// Shared secret for the hook endpoint.
    pub hooks_token: String,
    /// Session key for persistent conversations.
    pub session_key: String,
    /// Path of the command-line client.
    pub cli_path: String,
}

/// The value of a configuration: its fields as character sequences.
pub struct ConfigView {
    pub gateway_url: Seq<char>,
    pub agent_id: Seq<char>,
    pub hooks_token: Seq<char>,
    pub session_key: Seq<char>,
    pub cli_path: Seq<char>,
}

impl View for OpenClawConfig {
    type V = ConfigView;

    open spec fn view(&self) -> ConfigView {
        ConfigView {
            gateway_url: self.gateway_url@,
            agent_id: self.agent_id@,
            hooks_token: self.hooks_token@,
            session_key: self.session_key@,
            cli_path: self.cli_path@,
        }
    }
}

/// The lower-case hexadecimal digit for a value below 16.
pub open spec fn hex_digit(d: nat) -> char {
    seq!['0', '1', '2', '3', '4', '5', '6', '7', '8', '9', 'a', 'b', 'c', 'd', 'e', 'f'][d as int]
}

/// A number in lower-case hexadecimal, without leading zeros.
pub open spec fn hex_spec(n: nat) -> Seq<char>
    decreases n,
{
    if n < 16 {
        seq![hex_digit(n)]
    } else {
        hex_spec(n / 16).push(hex_digit(n % 16))
    }
}

/// The default path of the command-line client.
pub open spec fn default_cli_path_spec() -> Seq<char> {
    "openclaw"@
}

/// The default session key for a clock reading in milliseconds.
pub open spec fn session_key_spec(millis: nat) -> Seq<char> {
    "desktop-companion-"@ + hex_spec(millis)
}

/// The default configuration for a clock reading in milliseconds.
pub open spec fn default_config_spec(millis: nat) -> ConfigView {
    ConfigView {
        gateway_url: "http://localhost:18789"@,
        agent_id: Seq::empty(),
        hooks_token: Seq::empty(),
        session_key: session_key_spec(millis),
        cli_path: default_cli_path_spec(),
    }
}

/// Relies on `std::time::SystemTime::now`: milliseconds since the Unix
/// epoch, or 0 for a clock set before it. Nothing is known of the value.
#[verifier::external_body]
fn clock_millis() -> (r: u128) {
    std::time::SystemTime::now().duration_since(std::time::UNIX_EPOCH).unwrap_or_default().as_millis()
}

fn digit_str(d: u128) -> (r: &'static str)
    requires
        d < 16,
    ensures
        r@ == seq![hex_digit(d as nat)],
{
    let digits = "0123456789abcdef";
    proof {
        reveal_strlit("0123456789abcdef");
    }
    let r = digits.substring_char(d as usize, d as usize + 1);
    assert(r@ =~= seq![hex_digit(d as nat)]);
    r
}

/// The default path of the command-line client: looked up on the search path.
pub fn default_cli_path() -> (r: String)
    ensures
        r@ == default_cli_path_spec(),
{
    String::from_str("openclaw")
}

/// A number in lower-case hexadecimal, without leading zeros.
pub fn hex_of(n: u128) -> (r: String)
    ensures
        r@ == hex_spec(n as nat),
    decreases n,
{
    if n < 16 {
        String::from_str(digit_str(n))
    } else {
        let mut s = hex_of(n / 16);
        s.append(digit_str(n % 16));
        s
    }
}

/// A short hexadecimal string taken from the clock, for default session
/// keys; it is no secret.
pub fn rand_hex() -> (r: String)
    ensures
        exists|t: u128| r@ == hex_spec(t as nat),
{
    let t = clock_millis();
    hex_of(t)
}

/// The default configuration for a given clock reading in milliseconds.
pub fn default_config_at(millis: u128) -> (r: OpenClawConfig)
    ensures
        r@ == default_config_spec(millis as nat),
{
    let mut session_key = String::from_str("desktop-companion-");
    let hex = hex_of(millis);
    session_key.append(hex.as_str());
    OpenClawConfig {
        gateway_url: String::from_str("http://localhost:18789"),
        agent_id: String::new(),
        hooks_token: String::new(),
        session_key,
        cli_path: default_cli_path(),
    }
}

impl Default for OpenClawConfig {
    /// The default configuration, with a session key taken from the clock.
    fn default() -> (r: Self)
        ensures
            exists|t: u128| r@ == default_config_spec(t as nat),
    {
        default_config_at(clock_millis())
    }
}

impl OpenClawConfig {
    /// A copy with the same field values.
    pub fn duplicate(&self) -> (r: Self)
        ensures
            r@ == self@,
    {
        OpenClawConfig {
            gateway_url: self.gateway_url.clone(),
            agent_id: self.agent_id.clone(),
            hooks_token: self.hooks_token.clone(),
            session_key: self.session_key.clone(),
            cli_path: self.cli_path.clone(),
        }
    }
}

/// The configuration in force, shared by the commands that read and
/// replace it.
pub struct ConfigState {
    pub config: OpenClawConfig,
}

impl ConfigState {
    /// State holding the given configuration.
    pub fn new(config: OpenClawConfig) -> (r: Self)
        ensures
            r.config@ == config@,
    {
        ConfigState { config }
    }

    /// A copy of the current configuration; reading always succeeds.
    pub fn get(&self) -> (r: Result<OpenClawConfig, String>)
        ensures
            r is Ok,
            r->Ok_0@ == self.config@,
    {
        Ok(self.config.duplicate())
    }

    /// Replaces the current configuration.
    pub fn replace(&mut self, config: OpenClawConfig)
        ensures
            final(self).config@ == config@,
    {
        self.config = config;
    }
}

} // verus!
