use vstd::prelude::*;

use crate::config::{
    only_connection, resolve, Config, ConfigBuilder, ConfigBuilderView, FunctionSources, TableSources,
};
use crate::document::{lookup, yaml_entry, yaml_parses, Document, Entry, EntryKind};
use crate::error::ConfigError;

verus! {

/// Why a configuration file is refused.
pub enum LoadError {
    Syntax,
    MissingField(Seq<char>),
    WrongType(Seq<char>),
}

/// Whether an entry may stand under a boolean key.
pub open spec fn flag_fits(k: EntryKind) -> bool {
    k is Missing || k is Null || k is Bool
}

/// Whether an entry may stand under an integer key whose values go up to `max`.
pub open spec fn count_fits(k: EntryKind, max: int) -> bool {
    match k {
        EntryKind::Missing | EntryKind::Null => true,
        EntryKind::Number(Some(n)) => n <= max,
        _ => false,
    }
}

/// Whether an entry may stand under an optional string key.
pub open spec fn text_fits(k: EntryKind) -> bool {
    k is Missing || k is Null || k is Text
}

/// Whether an entry may stand under a key of source descriptors.
pub open spec fn sources_fit(k: EntryKind) -> bool {
    k is Missing || k is Null || k is Mapping
}

/// The boolean an entry gives, if any.
pub open spec fn flag_of(k: EntryKind) -> Option<bool> {
    match k {
        EntryKind::Bool(b) => Some(b),
        _ => None,
    }
}

/// The integer an entry gives, if any.
pub open spec fn count_of(k: EntryKind) -> Option<int> {
    match k {
        EntryKind::Number(Some(n)) => Some(n as int),
        _ => None,
    }
}

/// The string an entry gives, if any.
pub open spec fn text_of(k: EntryKind) -> Option<Seq<char>> {
    match k {
        EntryKind::Text(s) => Some(s),
        _ => None,
    }
}

/// Whether an optional integer setting holds what an entry gives.
pub open spec fn count_matches(v: Option<int>, k: EntryKind) -> bool {
    v == count_of(k)
}

/// Why the text is refused as a configuration file, if it is: the keys are
/// checked in the order `connection_string`, `watch`, `pool_size`,
/// `keep_alive`, `worker_processes`, `listen_addresses`, `table_sources`,
/// `function_sources`, and the first that does not fit is reported.
pub open spec fn load_error(t: Seq<char>) -> Option<LoadError> {
    if !yaml_parses(t) {
        Some(LoadError::Syntax)
    } else if yaml_entry(t, "connection_string"@) is Missing {
        Some(LoadError::MissingField("connection_string"@))
    } else if !(yaml_entry(t, "connection_string"@) is Text) {
        Some(LoadError::WrongType("connection_string"@))
    } else if !flag_fits(yaml_entry(t, "watch"@)) {
        Some(LoadError::WrongType("watch"@))
    } else if !count_fits(yaml_entry(t, "pool_size"@), u32::MAX as int) {
        Some(LoadError::WrongType("pool_size"@))
    } else if !count_fits(yaml_entry(t, "keep_alive"@), usize::MAX as int) {
        Some(LoadError::WrongType("keep_alive"@))
    } else if !count_fits(yaml_entry(t, "worker_processes"@), usize::MAX as int) {
        Some(LoadError::WrongType("worker_processes"@))
    } else if !text_fits(yaml_entry(t, "listen_addresses"@)) {
        Some(LoadError::WrongType("listen_addresses"@))
    } else if !sources_fit(yaml_entry(t, "table_sources"@)) {
        Some(LoadError::WrongType("table_sources"@))
    } else if !sources_fit(yaml_entry(t, "function_sources"@)) {
        Some(LoadError::WrongType("function_sources"@))
    } else {
        None
    }
}

/// Whether `err` is the error the library reports for `e`.
pub open spec fn reports(err: ConfigError, e: LoadError) -> bool {
    match e {
        LoadError::Syntax => err is Syntax,
        LoadError::MissingField(k) => err matches ConfigError::MissingField(m) && m@ == k,
        LoadError::WrongType(k) => err matches ConfigError::WrongType(m) && m@ == k,
    }
}

/// Whether `b` is the partial configuration that the document `t` states:
/// a null or absent key gives an absent setting, and the source descriptors
/// are present exactly where the document holds a mapping for them.
pub open spec fn loaded_from(b: ConfigBuilderView, t: Seq<char>) -> bool {
    &&& text_of(yaml_entry(t, "connection_string"@)) == Some(b.connection_string)
    &&& b.watch == flag_of(yaml_entry(t, "watch"@))
    &&& count_matches(
        match b.pool_size {
            Some(n) => Some(n as int),
            None => None,
        },
        yaml_entry(t, "pool_size"@),
    )
    &&& count_matches(
        match b.keep_alive {
            Some(n) => Some(n as int),
            None => None,
        },
        yaml_entry(t, "keep_alive"@),
    )
    &&& count_matches(
        match b.worker_processes {
            Some(n) => Some(n as int),
            None => None,
        },
        yaml_entry(t, "worker_processes"@),
    )
    &&& b.listen_addresses == text_of(yaml_entry(t, "listen_addresses"@))
    &&& (b.table_sources is Some <==> yaml_entry(t, "table_sources"@) is Mapping)
    &&& (b.function_sources is Some <==> yaml_entry(t, "function_sources"@) is Mapping)
}

/// Reads an optional boolean setting.
fn read_flag(doc: &Document, key: &str) -> (r: Result<Option<bool>, ConfigError>)
    ensures
        r is Ok <==> flag_fits(yaml_entry(doc.source(), key@)),
        r matches Ok(v) ==> v == flag_of(yaml_entry(doc.source(), key@)),
        r matches Err(e) ==> e matches ConfigError::WrongType(m) && m@ == key@,
{
    match lookup(doc, key) {
        Entry::Missing | Entry::Null => Ok(None),
        Entry::Bool(b) => Ok(Some(b)),
        _ => Err(ConfigError::WrongType(key.to_owned())),
    }
}

/// Reads an optional integer setting that may go up to `max`.
fn read_count(doc: &Document, key: &str, max: u64) -> (r: Result<Option<u64>, ConfigError>)
    ensures
        r is Ok <==> count_fits(yaml_entry(doc.source(), key@), max as int),
        r matches Ok(v) ==> count_matches(
            match v {
                Some(n) => Some(n as int),
                None => None,
            },
            yaml_entry(doc.source(), key@),
        ),
        r matches Ok(Some(n)) ==> n <= max,
        r matches Err(e) ==> e matches ConfigError::WrongType(m) && m@ == key@,
{
    match lookup(doc, key) {
        Entry::Missing | Entry::Null => Ok(None),
        Entry::Number(Some(n)) => {
            if n <= max {
                Ok(Some(n))
            } else {
                Err(ConfigError::WrongType(key.to_owned()))
            }
        },
        _ => Err(ConfigError::WrongType(key.to_owned())),
    }
}

/// Reads an optional integer setting of machine size.
fn read_usize(doc: &Document, key: &str) -> (r: Result<Option<usize>, ConfigError>)
    ensures
        r is Ok <==> count_fits(yaml_entry(doc.source(), key@), usize::MAX as int),
        r matches Ok(v) ==> count_matches(
            match v {
                Some(n) => Some(n as int),
                None => None,
            },
            yaml_entry(doc.source(), key@),
        ),
        r matches Err(e) ==> e matches ConfigError::WrongType(m) && m@ == key@,
{
    match read_count(doc, key, usize::MAX as u64) {
        Ok(Some(n)) => Ok(Some(n as usize)),
        Ok(None) => Ok(None),
        Err(e) => Err(e),
    }
}

/// Reads an optional string setting.
fn read_text(doc: &Document, key: &str) -> (r: Result<Option<String>, ConfigError>)
    ensures
        r is Ok <==> text_fits(yaml_entry(doc.source(), key@)),
        r matches Ok(v) ==> match v {
            Some(s) => text_of(yaml_entry(doc.source(), key@)) == Some(s@),
            None => text_of(yaml_entry(doc.source(), key@)) is None,
        },
        r matches Err(e) ==> e matches ConfigError::WrongType(m) && m@ == key@,
{
    match lookup(doc, key) {
        Entry::Missing | Entry::Null => Ok(None),
        Entry::Text(s) => Ok(Some(s)),
        _ => Err(ConfigError::WrongType(key.to_owned())),
    }
}

/// Reads optional source descriptors, which must form a mapping.
fn read_sources(doc: &Document, key: &str) -> (r: Result<Option<serde_yaml::Value>, ConfigError>)
    ensures
        r is Ok <==> sources_fit(yaml_entry(doc.source(), key@)),
        r matches Ok(v) ==> (v is Some <==> yaml_entry(doc.source(), key@) is Mapping),
        r matches Err(e) ==> e matches ConfigError::WrongType(m) && m@ == key@,
{
    match lookup(doc, key) {
        Entry::Missing | Entry::Null => Ok(None),
        Entry::Mapping(v) => Ok(Some(v)),
        _ => Err(ConfigError::WrongType(key.to_owned())),
    }
}

/// Reads the required connection string.
fn read_connection_string(doc: &Document) -> (r: Result<String, ConfigError>)
    ensures
        r matches Ok(s) ==> text_of(yaml_entry(doc.source(), "connection_string"@)) == Some(s@),
        r is Err ==> reports(
            r->Err_0,
            if yaml_entry(doc.source(), "connection_string"@) is Missing {
                LoadError::MissingField("connection_string"@)
            } else {
                LoadError::WrongType("connection_string"@)
            },
        ),
        r is Ok <==> yaml_entry(doc.source(), "connection_string"@) is Text,
{
    match lookup(doc, "connection_string") {
        Entry::Text(s) => Ok(s),
        Entry::Missing => Err(ConfigError::MissingField("connection_string".to_owned())),
        _ => Err(ConfigError::WrongType("connection_string".to_owned())),
    }
}

/// Reads the partial configuration that a YAML document states. Unknown keys
/// are ignored; a null value stands for an absent one.
pub fn builder_from_yaml(contents: &str) -> (r: Result<ConfigBuilder, ConfigError>)
    ensures
        r is Ok <==> load_error(contents@) is None,
        r matches Ok(b) ==> loaded_from(b@, contents@),
        r matches Err(e) ==> reports(e, load_error(contents@)->Some_0),
{
    let doc = match Document::parse(contents) {
        Ok(d) => d,
        Err(m) => {
            return Err(ConfigError::Syntax(m));
        },
    };
    let connection_string = read_connection_string(&doc)?;
    let watch = read_flag(&doc, "watch")?;
    let pool_size = match read_count(&doc, "pool_size", u32::MAX as u64)? {
        Some(n) => Some(n as u32),
        None => None,
    };
    let keep_alive = read_usize(&doc, "keep_alive")?;
    let worker_processes = read_usize(&doc, "worker_processes")?;
    let listen_addresses = read_text(&doc, "listen_addresses")?;
    let table_sources: Option<TableSources> = read_sources(&doc, "table_sources")?;
    let function_sources: Option<FunctionSources> = read_sources(&doc, "function_sources")?;
    Ok(
        ConfigBuilder {
            watch,
            pool_size,
            keep_alive,
            worker_processes,
            listen_addresses,
            connection_string,
            table_sources,
            function_sources,
        },
    )
}

/// Builds the configuration that the contents of a configuration file state,
/// with every absent setting defaulted.
pub fn config_from_yaml(contents: &str) -> (r: Result<Config, ConfigError>)
    ensures
        r is Ok <==> load_error(contents@) is None,
        r matches Ok(c) ==> exists|b: ConfigBuilderView|
            loaded_from(b, contents@) && c@ == resolve(b, c.worker_processes) && (
            b.worker_processes is None ==> c.worker_processes >= 1),
        r matches Err(e) ==> reports(e, load_error(contents@)->Some_0),
{
    let builder = builder_from_yaml(contents)?;
    let ghost b = builder@;
    let config = builder.finalize();
    assert(loaded_from(b, contents@) && config@ == resolve(b, config.worker_processes));
    Ok(config)
}

/// A document that holds a connection string and no other recognised key
/// loads to the partial configuration holding only that connection string,
/// and so resolves to what that partial configuration resolves to.
pub proof fn lemma_file_round_trip(
    t: Seq<char>,
    connection_string: Seq<char>,
    b: ConfigBuilderView,
    host_units: usize,
)
    requires
        yaml_parses(t),
        yaml_entry(t, "connection_string"@) == EntryKind::Text(connection_string),
        yaml_entry(t, "watch"@) is Missing,
        yaml_entry(t, "pool_size"@) is Missing,
        yaml_entry(t, "keep_alive"@) is Missing,
        yaml_entry(t, "worker_processes"@) is Missing,
        yaml_entry(t, "listen_addresses"@) is Missing,
        yaml_entry(t, "table_sources"@) is Missing,
        yaml_entry(t, "function_sources"@) is Missing,
        loaded_from(b, t),
    ensures
        load_error(t) is None,
        b == only_connection(connection_string),
        resolve(b, host_units) == resolve(only_connection(connection_string), host_units),
{
}

/// A document without a connection string is refused with an error on the
/// content of the file, which names the missing key.
pub proof fn lemma_missing_connection_string(t: Seq<char>)
    requires
        yaml_entry(t, "connection_string"@) is Missing,
    ensures
        load_error(t) is Some,
        forall|err: ConfigError| #[trigger] reports(err, load_error(t)->Some_0) ==> err.spec_is_parse(),
        yaml_parses(t) ==> load_error(t) == Some(LoadError::MissingField("connection_string"@)),
{
}

} // verus!
