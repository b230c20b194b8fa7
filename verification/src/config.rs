//! The hub's configuration: where it comes from, which settings may be
//! left out, and what is handed to the bus client.
//!
//! The configuration is itself a script. It is evaluated in a script
//! environment of its own, and the settings are the values that it leaves
//! bound to a few names.

use vstd::prelude::*;
use steel::steel_vm::engine::Engine;

verus! {

/// The name under which the hub runs. It is the client id where none is
/// configured, and part of the default paths.
pub const PROGRAM_NAME: &'static str = "heinzelmann";

/// The configuration that is read when no path is given on the command line.
pub const DEFAULT_CONFIG_LOCATION: &'static str = "/etc/heinzelmann/config.scm";

/// The user's program where the configuration names none.
pub const DEFAULT_PROGRAM_LOCATION: &'static str = "/etc/heinzelmann/program.scm";

/// The broker's port where the configuration names none.
pub const DEFAULT_PORT: u16 = 1883;

/// Seconds between keep-alive messages to the broker.
pub const KEEP_ALIVE_SECS: u64 = 5;

/// How many requests the bus client queues.
pub const REQUEST_CAPACITY: usize = 10;

/// `steel::steel_vm::engine::Engine`, a script environment. It is only
/// carried from one call to the next.
#[verifier::external_type_specification]
#[verifier::external_body]
pub struct ExEngine(Engine);

/// The settings of the hub.
#[derive(Debug)]
pub struct Configuration {
    pub id: String,
    pub program_location: String,
    pub addr: String,
    pub port: u16,
    pub user: Option<String>,
    pub password: Option<String>,
}

/// What the bus client is set up with.
#[derive(Debug)]
pub struct BrokerSettings {
    pub client_id: String,
    pub host: String,
    pub port: u16,
    pub keep_alive_secs: u64,
    /// User and password. They are used only where both are configured.
    pub credentials: Option<(String, String)>,
    pub capacity: usize,
}

/// A name that the configuration may bind.
#[derive(Clone, Copy, Debug, PartialEq, Eq, Structural)]
pub enum Field {
    ClientId,
    ProgramLocation,
    BrokerAddr,
    BrokerPort,
    BrokerUser,
    BrokerPass,
}

/// Why there is no configuration.
#[derive(Clone, Copy, Debug, PartialEq, Eq, Structural)]
pub enum ConfigError {
    /// The configuration script failed.
    Program,
    /// The broker's address is not configured.
    MissingAddr,
    /// The name is bound to a value of the wrong type.
    WrongType(Field),
}

/// What a name is bound to after the configuration script has run.
#[derive(Debug)]
pub enum Setting<T> {
    /// The name is not bound.
    Missing,
    /// The name is bound to this value.
    Given(T),
    /// The name is bound to a value of another type.
    Mistyped,
}

/// The six settings as they were looked up.
#[derive(Debug)]
pub struct Settings {
    pub client_id: Setting<String>,
    pub program_location: Setting<String>,
    pub broker_addr: Setting<String>,
    pub broker_port: Setting<u16>,
    pub broker_user: Setting<String>,
    pub broker_pass: Setting<String>,
}

/// The first setting, in the order of the fields, that rules a
/// configuration out: a value of the wrong type, or no address.
pub open spec fn first_fault(s: Settings) -> Option<ConfigError> {
    if s.client_id is Mistyped {
        Some(ConfigError::WrongType(Field::ClientId))
    } else if s.program_location is Mistyped {
        Some(ConfigError::WrongType(Field::ProgramLocation))
    } else if s.broker_addr is Missing {
        Some(ConfigError::MissingAddr)
    } else if s.broker_addr is Mistyped {
        Some(ConfigError::WrongType(Field::BrokerAddr))
    } else if s.broker_port is Mistyped {
        Some(ConfigError::WrongType(Field::BrokerPort))
    } else if s.broker_user is Mistyped {
        Some(ConfigError::WrongType(Field::BrokerUser))
    } else if s.broker_pass is Mistyped {
        Some(ConfigError::WrongType(Field::BrokerPass))
    } else {
        None
    }
}

/// The text of a setting, or `default` where it is not given.
pub open spec fn text_or(setting: Setting<String>, default: Seq<char>) -> Seq<char> {
    match setting {
        Setting::Given(s) => s@,
        _ => default,
    }
}

/// The text of a setting that may be left out.
pub open spec fn optional_text(setting: Setting<String>) -> Option<Seq<char>> {
    match setting {
        Setting::Given(s) => Some(s@),
        _ => None,
    }
}

/// The text of an optional string.
pub open spec fn text_of(s: Option<String>) -> Option<Seq<char>> {
    match s {
        Some(s) => Some(s@),
        None => None,
    }
}

/// Whether `c` is the configuration that the settings `s` describe: what
/// is given is taken, the client id falls back to the program's name, the
/// program's location and the port to their defaults, and user and password
/// stay out where they are not given.
pub open spec fn configures(s: Settings, c: Configuration) -> bool {
    &&& c.id@ == text_or(s.client_id, PROGRAM_NAME@)
    &&& c.program_location@ == text_or(s.program_location, DEFAULT_PROGRAM_LOCATION@)
    &&& c.addr@ == text_or(s.broker_addr, Seq::empty())
    &&& c.port == match s.broker_port {
        Setting::Given(port) => port,
        _ => DEFAULT_PORT,
    }
    &&& text_of(c.user) == optional_text(s.broker_user)
    &&& text_of(c.password) == optional_text(s.broker_pass)
}

/// Whether `r` is what the settings `s` lead to.
pub open spec fn configured(s: Settings, r: Result<Configuration, ConfigError>) -> bool {
    match r {
        Ok(c) => first_fault(s) is None && configures(s, c),
        Err(e) => first_fault(s) == Some(e),
    }
}

/// The user and the password of a configuration, where it has both.
pub open spec fn credentials_of(c: Configuration) -> Option<(Seq<char>, Seq<char>)> {
    match (c.user, c.password) {
        (Some(user), Some(password)) => Some((user@, password@)),
        _ => None,
    }
}

/// `Engine::new` makes a fresh script environment. Nothing is claimed of it.
#[verifier::external_body]
fn new_engine() -> (vm: Engine) {
    Engine::new()
}

/// `Engine::compile_and_run_raw_program` compiles and evaluates the program
/// and fails if either step does. The result says whether it succeeded;
/// nothing is claimed of when it does.
#[verifier::external_body]
fn run_program(vm: &mut Engine, program: String) -> (ran: bool) {
    vm.compile_and_run_raw_program(program).is_ok()
}

/// `Engine::extract_value` fails for a name that is not bound, and
/// `String::try_from` fails for a value that is neither a string nor a
/// symbol. Nothing is claimed of which of the three outcomes comes.
#[verifier::external_body]
fn lookup_text(vm: &Engine, name: &str) -> (setting: Setting<String>) {
    match vm.extract_value(name) {
        Ok(value) => match String::try_from(value) {
            Ok(text) => Setting::Given(text),
            Err(_) => Setting::Mistyped,
        },
        Err(_) => Setting::Missing,
    }
}

/// `Engine::extract_value` fails for a name that is not bound, and
/// `u16::try_from` fails for a value that is not an integer. Nothing is
/// claimed of which of the three outcomes comes.
#[verifier::external_body]
fn lookup_port(vm: &Engine, name: &str) -> (setting: Setting<u16>) {
    match vm.extract_value(name) {
        Ok(value) => match u16::try_from(value) {
            Ok(port) => Setting::Given(port),
            Err(_) => Setting::Mistyped,
        },
        Err(_) => Setting::Missing,
    }
}

fn given_or(setting: Setting<String>, default: &str) -> (text: String)
    ensures
        text@ == text_or(setting, default@),
{
    match setting {
        Setting::Given(s) => s,
        _ => default.to_owned(),
    }
}

fn given(setting: Setting<String>) -> (text: Option<String>)
    ensures
        text_of(text) == optional_text(setting),
{
    match setting {
        Setting::Given(s) => Some(s),
        _ => None,
    }
}

impl Configuration {
    /// A configuration of exactly these settings.
    pub fn new(
        id: String,
        program_location: String,
        addr: String,
        port: u16,
        user: Option<String>,
        password: Option<String>,
    ) -> (c: Configuration)
        ensures
            c.id == id,
            c.program_location == program_location,
            c.addr == addr,
            c.port == port,
            c.user == user,
            c.password == password,
    {
        Configuration { id, program_location, addr, port, user, password }
    }

    /// The configuration that looked-up settings describe, or the first
    /// reason why they describe none.
    pub fn from_settings(s: Settings) -> (r: Result<Configuration, ConfigError>)
        ensures
            configured(s, r),
    {
        if let Setting::Mistyped = s.client_id {
            return Err(ConfigError::WrongType(Field::ClientId));
        }
        if let Setting::Mistyped = s.program_location {
            return Err(ConfigError::WrongType(Field::ProgramLocation));
        }
        match s.broker_addr {
            Setting::Missing => {
                return Err(ConfigError::MissingAddr);
            },
            Setting::Mistyped => {
                return Err(ConfigError::WrongType(Field::BrokerAddr));
            },
            _ => {},
        }
        if let Setting::Mistyped = s.broker_port {
            return Err(ConfigError::WrongType(Field::BrokerPort));
        }
        if let Setting::Mistyped = s.broker_user {
            return Err(ConfigError::WrongType(Field::BrokerUser));
        }
        if let Setting::Mistyped = s.broker_pass {
            return Err(ConfigError::WrongType(Field::BrokerPass));
        }
        let port = match s.broker_port {
            Setting::Given(port) => port,
            _ => DEFAULT_PORT,
        };
        Ok(
            Configuration::new(
                given_or(s.client_id, PROGRAM_NAME),
                given_or(s.program_location, DEFAULT_PROGRAM_LOCATION),
                given_or(s.broker_addr, ""),
                port,
                given(s.broker_user),
                given(s.broker_pass),
            ),
        )
    }

    /// Evaluates a configuration script in a script environment of its own
    /// and reads the settings that it leaves bound to `client_id`,
    /// `program_location`, `broker_addr`, `broker_port`, `broker_user` and
    /// `broker_pass`.
    ///
    /// What the script binds is the environment's business. Whatever it is,
    /// the result is either the failure of the script or what
    /// [`Configuration::from_settings`] makes of some settings.
    pub fn from_config_program(program: String) -> (r: Result<Configuration, ConfigError>)
        ensures
            r == Err::<Configuration, ConfigError>(ConfigError::Program) || exists|s: Settings|
                configured(s, r),
    {
        let mut vm = new_engine();
        if !run_program(&mut vm, program) {
            return Err(ConfigError::Program);
        }
        let settings = Settings {
            client_id: lookup_text(&vm, "client_id"),
            program_location: lookup_text(&vm, "program_location"),
            broker_addr: lookup_text(&vm, "broker_addr"),
            broker_port: lookup_port(&vm, "broker_port"),
            broker_user: lookup_text(&vm, "broker_user"),
            broker_pass: lookup_text(&vm, "broker_pass"),
        };
        let r = Configuration::from_settings(settings);
        assert(configured(settings, r));
        r
    }

    /// What the bus client is set up with: the client id, the broker's
    /// address and port, the keep-alive interval and the queue's capacity,
    /// and the credentials where both user and password are configured.
    pub fn broker_settings(&self) -> (b: BrokerSettings)
        ensures
            b.client_id@ == self.id@,
            b.host@ == self.addr@,
            b.port == self.port,
            b.keep_alive_secs == KEEP_ALIVE_SECS,
            b.capacity == REQUEST_CAPACITY,
            match b.credentials {
                Some((user, password)) => credentials_of(*self) == Some((user@, password@)),
                None => credentials_of(*self) is None,
            },
    {
        let credentials = match (&self.user, &self.password) {
            (Some(user), Some(password)) => Some((user.clone(), password.clone())),
            _ => None,
        };
        BrokerSettings {
            client_id: self.id.clone(),
            host: self.addr.clone(),
            port: self.port,
            keep_alive_secs: KEEP_ALIVE_SECS,
            credentials,
            capacity: REQUEST_CAPACITY,
        }
    }
}

/// Where the configuration is read from: the first argument after the
/// program's own name, or the default location where there is none.
pub fn config_location(args: &Vec<String>) -> (location: String)
    ensures
        location@ == if args.len() > 1 {
            args[1]@
        } else {
            DEFAULT_CONFIG_LOCATION@
        },
{
    if args.len() > 1 {
        args[1].clone()
    } else {
        DEFAULT_CONFIG_LOCATION.to_owned()
    }
}

} // verus!
