use vstd::prelude::*;

verus! {

/// Descriptors of the tables the service can serve, as the discovery
/// queries or the configuration file produce them.
pub type TableSources = serde_yaml::Value;

/// Descriptors of the functions the service can serve.
pub type FunctionSources = serde_yaml::Value;

/// Pool capacity used when none is given.
pub const DEFAULT_POOL_SIZE: u32 = 20;

/// HTTP keep-alive, in seconds, used when none is given.
pub const DEFAULT_KEEP_ALIVE: usize = 75;

/// The bind address used when none is given.
pub open spec fn default_listen_addresses() -> Seq<char> {
    "0.0.0.0:3000"@
}

/// The fully resolved configuration the service runs with.
#[derive(Debug, PartialEq)]
pub struct Config {
    pub watch: bool,
    pub pool_size: u32,
    pub keep_alive: usize,
    pub worker_processes: usize,
    pub listen_addresses: String,
    pub connection_string: String,
    pub table_sources: Option<TableSources>,
    pub function_sources: Option<FunctionSources>,
}

/// What was explicitly supplied: every setting optional but the connection
/// string.
#[derive(Debug, PartialEq)]
pub struct ConfigBuilder {
    pub watch: Option<bool>,
    pub pool_size: Option<u32>,
    pub keep_alive: Option<usize>,
    pub worker_processes: Option<usize>,
    pub listen_addresses: Option<String>,
    pub connection_string: String,
    pub table_sources: Option<TableSources>,
    pub function_sources: Option<FunctionSources>,
}

/// A `Config` with its strings as character sequences.
pub struct ConfigView {
    pub watch: bool,
    pub pool_size: u32,
    pub keep_alive: usize,
    pub worker_processes: usize,
    pub listen_addresses: Seq<char>,
    pub connection_string: Seq<char>,
    pub table_sources: Option<TableSources>,
    pub function_sources: Option<FunctionSources>,
}

/// A `ConfigBuilder` with its strings as character sequences.
pub struct ConfigBuilderView {
    pub watch: Option<bool>,
    pub pool_size: Option<u32>,
    pub keep_alive: Option<usize>,
    pub worker_processes: Option<usize>,
    pub listen_addresses: Option<Seq<char>>,
    pub connection_string: Seq<char>,
    pub table_sources: Option<TableSources>,
    pub function_sources: Option<FunctionSources>,
}

/// An optional string as an optional character sequence.
pub open spec fn string_view(s: Option<String>) -> Option<Seq<char>> {
    match s {
        Some(s) => Some(s@),
        None => None,
    }
}

impl View for Config {
    type V = ConfigView;

    open spec fn view(&self) -> ConfigView {
        ConfigView {
            watch: self.watch,
            pool_size: self.pool_size,
            keep_alive: self.keep_alive,
            worker_processes: self.worker_processes,
            listen_addresses: self.listen_addresses@,
            connection_string: self.connection_string@,
            table_sources: self.table_sources,
            function_sources: self.function_sources,
        }
    }
}

impl View for ConfigBuilder {
    type V = ConfigBuilderView;

    open spec fn view(&self) -> ConfigBuilderView {
        ConfigBuilderView {
            watch: self.watch,
            pool_size: self.pool_size,
            keep_alive: self.keep_alive,
            worker_processes: self.worker_processes,
            listen_addresses: string_view(self.listen_addresses),
            connection_string: self.connection_string@,
            table_sources: self.table_sources,
            function_sources: self.function_sources,
        }
    }
}

/// The configuration a partial one resolves to: each absent setting takes its
/// default, `default_workers` standing for the number of processing units of
/// the host; the connection string and the sources pass through unchanged.
pub open spec fn resolve(b: ConfigBuilderView, default_workers: usize) -> ConfigView {
    ConfigView {
        watch: b.watch.unwrap_or(false),
        pool_size: b.pool_size.unwrap_or(DEFAULT_POOL_SIZE),
        keep_alive: b.keep_alive.unwrap_or(DEFAULT_KEEP_ALIVE),
        worker_processes: b.worker_processes.unwrap_or(default_workers),
        listen_addresses: b.listen_addresses.unwrap_or(default_listen_addresses()),
        connection_string: b.connection_string,
        table_sources: b.table_sources,
        function_sources: b.function_sources,
    }
}

/// A partial configuration in which nothing but the connection string is given.
pub open spec fn only_connection(connection_string: Seq<char>) -> ConfigBuilderView {
    ConfigBuilderView {
        watch: None,
        pool_size: None,
        keep_alive: None,
        worker_processes: None,
        listen_addresses: None,
        connection_string,
        table_sources: None,
        function_sources: None,
    }
}

/// Relies on num_cpus::get: the number of logical processing units available
/// to this process, which its documentation says is always at least one.
#[verifier::external_body]
fn available_cpus() -> (r: usize)
    ensures
        r >= 1,
{
    num_cpus::get()
}

impl ConfigBuilder {
    /// A partial configuration that gives the connection string and nothing else.
    pub fn new(connection_string: String) -> (r: ConfigBuilder)
        ensures
            r@ == only_connection(connection_string@),
    {
        ConfigBuilder {
            watch: None,
            pool_size: None,
            keep_alive: None,
            worker_processes: None,
            listen_addresses: None,
            connection_string,
            table_sources: None,
            function_sources: None,
        }
    }

    /// Resolves the defaults, with `default_workers` as the number of worker
    /// processes where none is given.
    pub fn finalize_with(self, default_workers: usize) -> (r: Config)
        ensures
            r@ == resolve(self@, default_workers),
    {
        let listen_addresses = match self.listen_addresses {
            Some(s) => s,
            None => "0.0.0.0:3000".to_owned(),
        };
        Config {
            watch: match self.watch {
                Some(w) => w,
                None => false,
            },
            pool_size: match self.pool_size {
                Some(p) => p,
                None => DEFAULT_POOL_SIZE,
            },
            keep_alive: match self.keep_alive {
                Some(k) => k,
                None => DEFAULT_KEEP_ALIVE,
            },
            worker_processes: match self.worker_processes {
                Some(w) => w,
                None => default_workers,
            },
            listen_addresses,
            connection_string: self.connection_string,
            table_sources: self.table_sources,
            function_sources: self.function_sources,
        }
    }

    /// Resolves the defaults; the number of worker processes defaults to the
    /// number of processing units of the host, which is asked for only when
    /// no number is given.
    pub fn finalize(self) -> (r: Config)
        ensures
            r@ == resolve(self@, r.worker_processes),
            self.worker_processes is None ==> r.worker_processes >= 1,
    {
        let default_workers = match self.worker_processes {
            Some(w) => w,
            None => available_cpus(),
        };
        self.finalize_with(default_workers)
    }
}

/// With every optional setting absent, resolution yields `watch` off, a pool
/// of 20, a keep-alive of 75 s, the bind address `0.0.0.0:3000`, and as many
/// worker processes as the host reports processing units.
pub proof fn lemma_default_completeness(b: ConfigBuilderView, host_units: usize)
    requires
        b == only_connection(b.connection_string),
    ensures
        resolve(b, host_units).watch == false,
        resolve(b, host_units).pool_size == 20,
        resolve(b, host_units).keep_alive == 75,
        resolve(b, host_units).listen_addresses == "0.0.0.0:3000"@,
        resolve(b, host_units).worker_processes == host_units,
{
}

/// Each setting that the partial configuration supplies appears unchanged in
/// the resolved one, whatever the other settings are.
pub proof fn lemma_override_precedence(b: ConfigBuilderView, host_units: usize)
    ensures
        b.watch matches Some(w) ==> resolve(b, host_units).watch == w,
        b.pool_size matches Some(p) ==> resolve(b, host_units).pool_size == p,
        b.keep_alive matches Some(k) ==> resolve(b, host_units).keep_alive == k,
        b.worker_processes matches Some(n) ==> resolve(b, host_units).worker_processes == n,
        b.listen_addresses matches Some(a) ==> resolve(b, host_units).listen_addresses == a,
        b.table_sources is Some ==> resolve(b, host_units).table_sources == b.table_sources,
        b.function_sources is Some ==> resolve(b, host_units).function_sources
            == b.function_sources,
{
}

/// The connection string is never defaulted: resolution returns the one given.
pub proof fn lemma_connection_string_passthrough(b: ConfigBuilderView, host_units: usize)
    ensures
        resolve(b, host_units).connection_string == b.connection_string,
{
}

} // verus!
