use vstd::prelude::*;

verus! {

/// Most request-handling workers the HTTP server accepts.
pub const MAX_WORKERS: usize = 512;

/// Host the server binds to unless told otherwise.
pub open spec fn standard_host() -> Seq<char> {
    "127.0.0.1"@
}

/// Port the server binds to unless told otherwise.
pub const STANDARD_PORT: u16 = 8080;

/// Request-handling workers started unless told otherwise.
pub const STANDARD_WORKERS: usize = 4;

/// Seconds the simulated computation blocks its thread unless told otherwise.
pub const STANDARD_DELAY_SECS: u64 = 5;

/// Why a configuration was refused.
#[derive(Debug, Clone, Copy, PartialEq, Eq, Structural)]
pub enum ConfigError {
    /// The worker count was zero.
    NoWorkers,
    /// The worker count exceeded `MAX_WORKERS`.
    TooManyWorkers,
}

/// Where the server listens, how many request-handling workers it runs, and
/// how long the simulated computation of each health check takes.
#[derive(Debug)]
pub struct ServerConfig {
    host: String,
    port: u16,
    workers: usize,
    delay_secs: u64,
}

impl ServerConfig {
    /// The worker count is one the server can run with.
    pub closed spec fn wf(&self) -> bool {
        1 <= self.workers <= MAX_WORKERS
    }

    pub closed spec fn spec_host(&self) -> Seq<char> {
        self.host@
    }

    pub closed spec fn spec_port(&self) -> u16 {
        self.port
    }

    pub closed spec fn spec_workers(&self) -> usize {
        self.workers
    }

    pub closed spec fn spec_delay_secs(&self) -> u64 {
        self.delay_secs
    }

    /// A configuration with the given values, refused where the server could
    /// not start that many workers.
    pub fn new(host: String, port: u16, workers: usize, delay_secs: u64) -> (r: Result<ServerConfig, ConfigError>)
        ensures
            workers == 0 ==> r == Err::<ServerConfig, ConfigError>(ConfigError::NoWorkers),
            workers > MAX_WORKERS ==> r == Err::<ServerConfig, ConfigError>(ConfigError::TooManyWorkers),
            1 <= workers <= MAX_WORKERS ==> (r matches Ok(c) && c.wf() && c.spec_host() == host@
                && c.spec_port() == port && c.spec_workers() == workers && c.spec_delay_secs() == delay_secs),
    {
        if workers == 0 {
            Err(ConfigError::NoWorkers)
        } else if workers > MAX_WORKERS {
            Err(ConfigError::TooManyWorkers)
        } else {
            Ok(ServerConfig { host, port, workers, delay_secs })
        }
    }

    /// The configuration the service runs with out of the box: 127.0.0.1:8080,
    /// four workers, a five-second simulated computation.
    pub fn standard() -> (r: ServerConfig)
        ensures
            r.wf(),
            r.spec_host() == standard_host(),
            r.spec_port() == STANDARD_PORT,
            r.spec_workers() == STANDARD_WORKERS,
            r.spec_delay_secs() == STANDARD_DELAY_SECS,
    {
        ServerConfig {
            host: "127.0.0.1".to_owned(),
            port: STANDARD_PORT,
            workers: STANDARD_WORKERS,
            delay_secs: STANDARD_DELAY_SECS,
        }
    }

    pub fn host(&self) -> (r: &str)
        ensures
            r@ == self.spec_host(),
    {
        self.host.as_str()
    }

    pub fn port(&self) -> (r: u16)
        ensures
            r == self.spec_port(),
    {
        self.port
    }

    pub fn workers(&self) -> (r: usize)
        ensures
            r == self.spec_workers(),
            self.wf() ==> 1 <= r <= MAX_WORKERS,
    {
        self.workers
    }

    pub fn delay_secs(&self) -> (r: u64)
        ensures
            r == self.spec_delay_secs(),
    {
        self.delay_secs
    }
}

} // verus!
