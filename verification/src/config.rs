//! Configuration of the audio tap module: its defaults, and how the values
//! given on the command line (or in the environment) replace them.

use vstd::prelude::*;

verus! {

/// Port of the HTTP control API when none is given.
pub const DEFAULT_LISTEN_PORT: u16 = 7871;
/// Default rtl_tcp server port.
pub const DEFAULT_RTLTCP_PORT: u16 = 1234;

/// Settings of the audio tap module.
pub struct AudioTapConfig {
    /// Tap identifier registered with the hub.
    pub tap_id: Option<String>,
    /// Hub API token.
    pub api_token: Option<String>,
    /// Hub endpoint host name.
    pub hub_endpoint: String,
    /// TLS SNI override for the hub connection.
    pub server_name: Option<String>,
    /// rtl_tcp server host.
    pub rtltcp_host: String,
    /// rtl_tcp server port.
    pub rtltcp_port: u16,
    /// Centre frequency to tune at startup, in Hz.
    pub center_hz: u32,
    /// Optional standalone health-check port.
    pub healthcheck_port: Option<u16>,
}

/// The values the command line gave, already converted to their types (the
/// centre frequency from MHz to whole Hz).
pub struct ModuleArgs {
    pub tap_id: Option<String>,
    pub api_token: Option<String>,
    pub center_hz: Option<u32>,
    pub hub: Option<String>,
    pub server_name: Option<String>,
    pub rtltcp_host: Option<String>,
    pub rtltcp_port: Option<u16>,
    pub healthcheck_port: Option<u16>,
}

/// A required value that the command line did not give.
#[derive(Debug, Clone, Copy, PartialEq, Eq, Structural)]
pub enum ArgumentError {
    MissingTapId,
    MissingApiToken,
    MissingCenterMhz,
}

impl ArgumentError {
    /// The text reported for the error.
    pub fn message(&self) -> (r: &'static str)
        ensures
            r@ == match *self {
                ArgumentError::MissingTapId => "tap-id required"@,
                ArgumentError::MissingApiToken => "api-token required"@,
                ArgumentError::MissingCenterMhz => "center-mhz required"@,
            },
    {
        match self {
            ArgumentError::MissingTapId => "tap-id required",
            ArgumentError::MissingApiToken => "api-token required",
            ArgumentError::MissingCenterMhz => "center-mhz required",
        }
    }
}

/// The view of an optional string.
pub open spec fn opt_view(s: Option<String>) -> Option<Seq<char>> {
    match s {
        Some(x) => Some(x@),
        None => None,
    }
}

impl AudioTapConfig {
    /// Defaults: hub `api.zako.ac`, rtl_tcp at `localhost:1234`, centre 0 Hz,
    /// nothing else set.
    pub fn new() -> (r: Self)
        ensures
            r.tap_id is None,
            r.api_token is None,
            r.hub_endpoint@ == "api.zako.ac"@,
            r.server_name is None,
            r.rtltcp_host@ == "localhost"@,
            r.rtltcp_port == DEFAULT_RTLTCP_PORT,
            r.center_hz == 0,
            r.healthcheck_port is None,
    {
        AudioTapConfig {
            tap_id: None,
            api_token: None,
            hub_endpoint: String::from_str("api.zako.ac"),
            server_name: None,
            rtltcp_host: String::from_str("localhost"),
            rtltcp_port: DEFAULT_RTLTCP_PORT,
            center_hz: 0,
            healthcheck_port: None,
        }
    }

    /// Takes the values of the command line. The tap id, the API token and
    /// the centre frequency are required and checked in that order; a value
    /// taken before a missing one stays taken. On success the hub, rtl_tcp
    /// host and port replace the defaults only when given, while the server
    /// name and health-check port are taken as given.
    pub fn apply_arguments(&mut self, args: ModuleArgs) -> (r: Result<(), ArgumentError>)
        ensures
            args.tap_id is None ==> r == Err::<(), ArgumentError>(ArgumentError::MissingTapId),
            args.tap_id is Some && args.api_token is None ==> r == Err::<(), ArgumentError>(
                ArgumentError::MissingApiToken,
            ),
            args.tap_id is Some && args.api_token is Some && args.center_hz is None ==> r
                == Err::<(), ArgumentError>(ArgumentError::MissingCenterMhz),
            r is Ok <==> (args.tap_id is Some && args.api_token is Some && args.center_hz is Some),
            opt_view(final(self).tap_id) == match args.tap_id {
                Some(t) => Some(t@),
                None => opt_view(old(self).tap_id),
            },
            opt_view(final(self).api_token) == if args.tap_id is Some && args.api_token is Some {
                opt_view(args.api_token)
            } else {
                opt_view(old(self).api_token)
            },
            final(self).center_hz == if r is Ok {
                args.center_hz.unwrap()
            } else {
                old(self).center_hz
            },
            final(self).hub_endpoint@ == match (r, args.hub) {
                (Ok(_), Some(h)) => h@,
                _ => old(self).hub_endpoint@,
            },
            opt_view(final(self).server_name) == if r is Ok {
                opt_view(args.server_name)
            } else {
                opt_view(old(self).server_name)
            },
            final(self).rtltcp_host@ == match (r, args.rtltcp_host) {
                (Ok(_), Some(h)) => h@,
                _ => old(self).rtltcp_host@,
            },
            final(self).rtltcp_port == match (r, args.rtltcp_port) {
                (Ok(_), Some(p)) => p,
                _ => old(self).rtltcp_port,
            },
            final(self).healthcheck_port == if r is Ok {
                args.healthcheck_port
            } else {
                old(self).healthcheck_port
            },
    {
        let ModuleArgs {
            tap_id,
            api_token,
            center_hz,
            hub,
            server_name,
            rtltcp_host,
            rtltcp_port,
            healthcheck_port,
        } = args;
        match tap_id {
            Some(t) => {
                self.tap_id = Some(t);
            },
            None => {
                return Err(ArgumentError::MissingTapId);
            },
        }
        match api_token {
            Some(t) => {
                self.api_token = Some(t);
            },
            None => {
                return Err(ArgumentError::MissingApiToken);
            },
        }
        match center_hz {
            Some(c) => {
                self.center_hz = c;
            },
            None => {
                return Err(ArgumentError::MissingCenterMhz);
            },
        }
        if let Some(h) = hub {
            self.hub_endpoint = h;
        }
        self.server_name = server_name;
        if let Some(h) = rtltcp_host {
            self.rtltcp_host = h;
        }
        if let Some(p) = rtltcp_port {
            self.rtltcp_port = p;
        }
        self.healthcheck_port = healthcheck_port;
        Ok(())
    }
}

} // verus!
