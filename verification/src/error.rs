//! Error taxonomy of the loader: one tagged union covering the four failure
//! kinds, each carrying a single descriptive line.
use vstd::prelude::*;

verus! {

/// The four failure kinds of a load: file I/O, YAML syntax, pattern
/// compilation, and field format/validation. Validation messages embed the
/// offending dotted path (for example `sources.cpu.period`).
#[derive(Debug)]
pub enum ConfigError {
    Io(String),
    Yaml(String),
    Regex(String),
    Format(String),
}

/// Mathematical image of `ConfigError`: the same four kinds over character
/// sequences.
#[verifier::ext_equal]
pub enum ConfigErrorV {
    Io(Seq<char>),
    Yaml(Seq<char>),
    Regex(Seq<char>),
    Format(Seq<char>),
}

impl View for ConfigError {
    type V = ConfigErrorV;

    open spec fn view(&self) -> ConfigErrorV {
        match self {
            ConfigError::Io(m) => ConfigErrorV::Io(m@),
            ConfigError::Yaml(m) => ConfigErrorV::Yaml(m@),
            ConfigError::Regex(m) => ConfigErrorV::Regex(m@),
            ConfigError::Format(m) => ConfigErrorV::Format(m@),
        }
    }
}

/// The descriptive line carried by an error, independent of its kind.
pub open spec fn error_message(e: ConfigErrorV) -> Seq<char> {
    match e {
        ConfigErrorV::Io(m) => m,
        ConfigErrorV::Yaml(m) => m,
        ConfigErrorV::Regex(m) => m,
        ConfigErrorV::Format(m) => m,
    }
}

impl ConfigError {
    /// The single descriptive line carried by this error.
    pub fn message(&self) -> (r: String)
        ensures
            r@ == error_message(self@),
    {
        match self {
            ConfigError::Io(m) => m.clone(),
            ConfigError::Yaml(m) => m.clone(),
            ConfigError::Regex(m) => m.clone(),
            ConfigError::Format(m) => m.clone(),
        }
    }
}

/// Views an exec `Result` as its mathematical image.
pub open spec fn rv<T: View, E: View>(r: Result<T, E>) -> Result<T::V, E::V> {
    match r {
        Ok(v) => Ok(v@),
        Err(e) => Err(e@),
    }
}

} // verus!
