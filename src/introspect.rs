use vstd::pervasive::unreached;
use vstd::prelude::*;

use crate::config::{
    resolve, string_view, Config, ConfigBuilder, ConfigBuilderView, FunctionSources, TableSources,
};
use crate::error::ConfigError;

verus! {

/// The overrides given on the command line, each one optional.
#[derive(Debug, PartialEq)]
pub struct Args {
    pub flag_watch: Option<bool>,
    pub flag_keep_alive: Option<usize>,
    pub flag_listen_addresses: Option<String>,
    pub flag_pool_size: Option<u32>,
    pub flag_workers: Option<usize>,
}

/// The partial configuration that introspection assembles: the overrides of
/// the command line, the connection string, and the discovered sources.
pub open spec fn introspected(
    args: Args,
    connection_string: Seq<char>,
    table_sources: TableSources,
    function_sources: FunctionSources,
) -> ConfigBuilderView {
    ConfigBuilderView {
        watch: args.flag_watch,
        pool_size: args.flag_pool_size,
        keep_alive: args.flag_keep_alive,
        worker_processes: args.flag_workers,
        listen_addresses: string_view(args.flag_listen_addresses),
        connection_string,
        table_sources: Some(table_sources),
        function_sources: Some(function_sources),
    }
}

/// Where an introspection run stands.
#[derive(Debug, PartialEq)]
pub enum Stage {
    /// Waiting for a connection from the pool.
    Connecting,
    /// Waiting for the table sources.
    ListingTables,
    /// Waiting for the function sources, the table sources being known.
    ListingFunctions(TableSources),
}

/// An introspection run: what it started from and where it stands.
#[derive(Debug, PartialEq)]
pub struct Introspection {
    pub args: Args,
    pub connection_string: String,
    pub stage: Stage,
}

/// What the last request to the database brought.
#[derive(Debug, PartialEq)]
pub enum IntrospectionEvent {
    Connected,
    ConnectionFailed(String),
    TablesListed(TableSources),
    FunctionsListed(FunctionSources),
    ListingFailed(String),
}

/// A discovery query for the driver to run on the connection.
#[derive(Debug, PartialEq)]
pub enum Request {
    ListTables,
    ListFunctions,
}

/// The outcome of a step: the run goes on with a request, or it is over.
#[derive(Debug, PartialEq)]
pub enum IntrospectionStep {
    Next(Introspection, Request),
    Done(Result<Config, ConfigError>),
}

/// Whether a run at `stage` waits for an event such as `event`.
pub open spec fn awaits(stage: Stage, event: IntrospectionEvent) -> bool {
    match stage {
        Stage::Connecting => event is Connected || event is ConnectionFailed,
        Stage::ListingTables => event is TablesListed || event is ListingFailed,
        Stage::ListingFunctions(_) => event is FunctionsListed || event is ListingFailed,
    }
}

/// What a step from `run` on `event` yields: a connection leads to the table
/// query, the tables to the function query, the functions to the finished
/// configuration; a failed connection ends the run with a pool error, a
/// failed query with a discovery error, each with its description.
pub open spec fn steps_to(run: Introspection, event: IntrospectionEvent, r: IntrospectionStep) -> bool {
    match event {
        IntrospectionEvent::Connected => r == IntrospectionStep::Next(
            Introspection {
                args: run.args,
                connection_string: run.connection_string,
                stage: Stage::ListingTables,
            },
            Request::ListTables,
        ),
        IntrospectionEvent::ConnectionFailed(m) => r == IntrospectionStep::Done(
            Err(ConfigError::Pool(m)),
        ),
        IntrospectionEvent::TablesListed(t) => r == IntrospectionStep::Next(
            Introspection {
                args: run.args,
                connection_string: run.connection_string,
                stage: Stage::ListingFunctions(t),
            },
            Request::ListFunctions,
        ),
        IntrospectionEvent::FunctionsListed(f) => match (run.stage, r) {
            (Stage::ListingFunctions(t), IntrospectionStep::Done(Ok(c))) => {
                &&& c@ == resolve(
                    introspected(run.args, run.connection_string@, t, f),
                    c.worker_processes,
                )
                &&& run.args.flag_workers is None ==> c.worker_processes >= 1
            },
            _ => false,
        },
        IntrospectionEvent::ListingFailed(m) => r == IntrospectionStep::Done(
            Err(ConfigError::Discovery(m)),
        ),
    }
}

impl Introspection {
    /// A run that starts by asking the pool for a connection.
    pub fn new(args: Args, connection_string: String) -> (r: Introspection)
        ensures
            r.args == args,
            r.connection_string == connection_string,
            r.stage is Connecting,
    {
        Introspection { args, connection_string, stage: Stage::Connecting }
    }

    /// Whether the run waits for an event such as `event`.
    pub fn awaits(&self, event: &IntrospectionEvent) -> (r: bool)
        ensures
            r == awaits(self.stage, *event),
    {
        match self.stage {
            Stage::Connecting => match event {
                IntrospectionEvent::Connected | IntrospectionEvent::ConnectionFailed(_) => true,
                _ => false,
            },
            Stage::ListingTables => match event {
                IntrospectionEvent::TablesListed(_) | IntrospectionEvent::ListingFailed(_) => true,
                _ => false,
            },
            Stage::ListingFunctions(_) => match event {
                IntrospectionEvent::FunctionsListed(_) | IntrospectionEvent::ListingFailed(_) => true,
                _ => false,
            },
        }
    }
}

/// The partial configuration assembled from the overrides, the connection
/// string and the discovered sources.
pub fn introspected_builder(
    args: Args,
    connection_string: String,
    table_sources: TableSources,
    function_sources: FunctionSources,
) -> (r: ConfigBuilder)
    ensures
        r@ == introspected(args, connection_string@, table_sources, function_sources),
{
    ConfigBuilder {
        watch: args.flag_watch,
        keep_alive: args.flag_keep_alive,
        listen_addresses: args.flag_listen_addresses,
        connection_string,
        pool_size: args.flag_pool_size,
        worker_processes: args.flag_workers,
        table_sources: Some(table_sources),
        function_sources: Some(function_sources),
    }
}

/// Takes an introspection run one step on what the database brought: the
/// driver acquires a connection for a new run, runs each request it is
/// handed, and feeds back the outcome until the run is done.
pub fn generate_config(run: Introspection, event: IntrospectionEvent) -> (r: IntrospectionStep)
    requires
        awaits(run.stage, event),
    ensures
        steps_to(run, event, r),
{
    let Introspection { args, connection_string, stage } = run;
    match event {
        IntrospectionEvent::Connected => IntrospectionStep::Next(
            Introspection { args, connection_string, stage: Stage::ListingTables },
            Request::ListTables,
        ),
        IntrospectionEvent::ConnectionFailed(m) => IntrospectionStep::Done(
            Err(ConfigError::Pool(m)),
        ),
        IntrospectionEvent::TablesListed(t) => IntrospectionStep::Next(
            Introspection { args, connection_string, stage: Stage::ListingFunctions(t) },
            Request::ListFunctions,
        ),
        IntrospectionEvent::FunctionsListed(f) => match stage {
            Stage::ListingFunctions(t) => {
                let config = introspected_builder(args, connection_string, t, f).finalize();
                IntrospectionStep::Done(Ok(config))
            },
            _ => unreached(),
        },
        IntrospectionEvent::ListingFailed(m) => IntrospectionStep::Done(
            Err(ConfigError::Discovery(m)),
        ),
    }
}

/// When the pool gives no connection, the run ends with a pool error and
/// requests no discovery query.
pub proof fn lemma_pool_failure_propagation(run: Introspection, m: String, r: IntrospectionStep)
    requires
        run.stage is Connecting,
        steps_to(run, IntrospectionEvent::ConnectionFailed(m), r),
    ensures
        r matches IntrospectionStep::Done(Err(e)) && e is Pool,
        !(r is Next),
{
}

/// A run that ends with a configuration has filled in both kinds of sources.
pub proof fn lemma_discovery_populates_sources(
    run: Introspection,
    event: IntrospectionEvent,
    r: IntrospectionStep,
)
    requires
        awaits(run.stage, event),
        steps_to(run, event, r),
        r is Done,
    ensures
        r matches IntrospectionStep::Done(Ok(c)) ==> c.table_sources is Some
            && c.function_sources is Some,
{
}

} // verus!
