//! Typed field extraction: the only place where type coercion of document
//! nodes occurs. Each accessor takes a node, a field key, and the dotted
//! path used in messages, and returns a strongly-typed value or an error
//! whose line embeds that path.
use vstd::prelude::*;

use crate::error::{rv, ConfigError, ConfigErrorV};
use crate::level::{level_of_index, spec_level_of_index, LogLevel};
use crate::msg::join2;
use crate::node::{node_get, node_int, node_str, Node};

verus! {

pub open spec fn msg_req_str(path: Seq<char>) -> Seq<char> {
    path + " is required and should be a string"@
}

pub open spec fn msg_opt_str(path: Seq<char>) -> Seq<char> {
    path + " should be a string"@
}

pub open spec fn msg_req_num(path: Seq<char>) -> Seq<char> {
    path + " is required and should be a number"@
}

pub open spec fn msg_opt_num(path: Seq<char>) -> Seq<char> {
    path + " should be a number"@
}

pub open spec fn msg_invalid(path: Seq<char>) -> Seq<char> {
    path + " is invalid"@
}

/// Required string field: present and a string, or a format error.
pub open spec fn spec_req_str(n: Node, key: Seq<char>, path: Seq<char>) -> Result<
    Seq<char>,
    ConfigErrorV,
> {
    match node_get(n, key) {
        Some(v) => match node_str(v) {
            Some(s) => Ok(s),
            None => Err(ConfigErrorV::Format(msg_req_str(path))),
        },
        None => Err(ConfigErrorV::Format(msg_req_str(path))),
    }
}

/// Optional string field with a default: absent yields the default, a
/// non-string value is a format error.
pub open spec fn spec_opt_str(
    n: Node,
    key: Seq<char>,
    path: Seq<char>,
    default: Seq<char>,
) -> Result<Seq<char>, ConfigErrorV> {
    match node_get(n, key) {
        Some(v) => match node_str(v) {
            Some(s) => Ok(s),
            None => Err(ConfigErrorV::Format(msg_opt_str(path))),
        },
        None => Ok(default),
    }
}

/// Required unsigned field: present, an integer, and non-negative.
pub open spec fn spec_req_u64(n: Node, key: Seq<char>, path: Seq<char>) -> Result<
    u64,
    ConfigErrorV,
> {
    match node_get(n, key) {
        Some(v) => match node_int(v) {
            Some(i) => if i >= 0 {
                Ok(i as u64)
            } else {
                Err(ConfigErrorV::Format(msg_invalid(path)))
            },
            None => Err(ConfigErrorV::Format(msg_req_num(path))),
        },
        None => Err(ConfigErrorV::Format(msg_req_num(path))),
    }
}

/// Optional unsigned field with a default: absent yields the default, a
/// non-integer value or a negative value is a format error.
pub open spec fn spec_opt_u64(n: Node, key: Seq<char>, path: Seq<char>, default: u64) -> Result<
    u64,
    ConfigErrorV,
> {
    match node_get(n, key) {
        Some(v) => match node_int(v) {
            Some(i) => if i >= 0 {
                Ok(i as u64)
            } else {
                Err(ConfigErrorV::Format(msg_invalid(path)))
            },
            None => Err(ConfigErrorV::Format(msg_opt_num(path))),
        },
        None => Ok(default),
    }
}

/// Optional severity field with a default: the value is an index into the
/// fixed severity table; an index outside the table is a format error.
pub open spec fn spec_opt_level(
    n: Node,
    key: Seq<char>,
    path: Seq<char>,
    default: LogLevel,
) -> Result<LogLevel, ConfigErrorV> {
    match node_get(n, key) {
        Some(v) => match node_int(v) {
            Some(i) => match spec_level_of_index(i) {
                Some(l) => Ok(l),
                None => Err(ConfigErrorV::Format(msg_invalid(path))),
            },
            None => Err(ConfigErrorV::Format(msg_opt_num(path))),
        },
        None => Ok(default),
    }
}

fn err_format(path: &str, suffix: &str) -> (e: ConfigError)
    ensures
        e@ == ConfigErrorV::Format(path@ + suffix@),
{
    ConfigError::Format(join2(path, suffix))
}

/// Extracts a required string field.
pub fn req_str(n: &Node, key: &str, path: &str) -> (r: Result<String, ConfigError>)
    ensures
        rv(r) == spec_req_str(*n, key@, path@),
{
    match n.get(key) {
        Some(v) => match v.as_str() {
            Some(s) => Ok(s.clone()),
            None => Err(err_format(path, " is required and should be a string")),
        },
        None => Err(err_format(path, " is required and should be a string")),
    }
}

/// Extracts an optional string field with a default.
pub fn opt_str(n: &Node, key: &str, path: &str, default: &str) -> (r: Result<String, ConfigError>)
    ensures
        rv(r) == spec_opt_str(*n, key@, path@, default@),
{
    match n.get(key) {
        Some(v) => match v.as_str() {
            Some(s) => Ok(s.clone()),
            None => Err(err_format(path, " should be a string")),
        },
        None => Ok(default.to_owned()),
    }
}

/// Extracts a required non-negative integer field.
pub fn req_u64(n: &Node, key: &str, path: &str) -> (r: Result<u64, ConfigError>)
    ensures
        rv(r) == spec_req_u64(*n, key@, path@),
{
    match n.get(key) {
        Some(v) => match v.as_int() {
            Some(i) => if i >= 0 {
                Ok(i as u64)
            } else {
                Err(err_format(path, " is invalid"))
            },
            None => Err(err_format(path, " is required and should be a number")),
        },
        None => Err(err_format(path, " is required and should be a number")),
    }
}

/// Extracts an optional non-negative integer field with a default.
pub fn opt_u64(n: &Node, key: &str, path: &str, default: u64) -> (r: Result<u64, ConfigError>)
    ensures
        rv(r) == spec_opt_u64(*n, key@, path@, default),
{
    match n.get(key) {
        Some(v) => match v.as_int() {
            Some(i) => if i >= 0 {
                Ok(i as u64)
            } else {
                Err(err_format(path, " is invalid"))
            },
            None => Err(err_format(path, " should be a number")),
        },
        None => Ok(default),
    }
}

/// Extracts an optional severity field with a default.
pub fn opt_level(n: &Node, key: &str, path: &str, default: LogLevel) -> (r: Result<
    LogLevel,
    ConfigError,
>)
    ensures
        rv(r) == spec_opt_level(*n, key@, path@, default),
{
    match n.get(key) {
        Some(v) => match v.as_int() {
            Some(i) => match level_of_index(i) {
                Some(l) => Ok(l),
                None => Err(err_format(path, " is invalid")),
            },
            None => Err(err_format(path, " should be a number")),
        },
        None => Ok(default),
    }
}

} // verus!
