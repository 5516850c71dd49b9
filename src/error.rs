use vstd::prelude::*;

verus! {

/// Why a configuration could not be built; each variant carries a
/// description of the cause.
#[derive(Debug, PartialEq)]
pub enum ConfigError {
    /// The configuration file could not be opened or read.
    Io(String),
    /// The file is not a YAML document.
    Syntax(String),
    /// The document lacks the named required key.
    MissingField(String),
    /// The named key holds a value of the wrong type.
    WrongType(String),
    /// No database connection could be had from the pool.
    Pool(String),
    /// A discovery query on the database failed.
    Discovery(String),
}

impl ConfigError {
    /// Whether the failure lies in the content of the configuration file.
    pub open spec fn spec_is_parse(&self) -> bool {
        self is Syntax || self is MissingField || self is WrongType
    }

    /// Whether the failure lies in the content of the configuration file.
    #[verifier::when_used_as_spec(spec_is_parse)]
    pub fn is_parse(&self) -> (r: bool)
        ensures
            r == self.spec_is_parse(),
    {
        match self {
            ConfigError::Syntax(_) | ConfigError::MissingField(_) | ConfigError::WrongType(_) => true,
            _ => false,
        }
    }

    /// The description of the cause.
    pub fn message(&self) -> (r: &String)
        ensures
            r == match self {
                ConfigError::Io(m) | ConfigError::Syntax(m) | ConfigError::MissingField(m)
                | ConfigError::WrongType(m) | ConfigError::Pool(m) | ConfigError::Discovery(m) => m,
            },
    {
        match self {
            ConfigError::Io(m) | ConfigError::Syntax(m) | ConfigError::MissingField(m)
            | ConfigError::WrongType(m) | ConfigError::Pool(m) | ConfigError::Discovery(m) => m,
        }
    }
}

} // verus!
