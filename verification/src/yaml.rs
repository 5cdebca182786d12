//! The document scanner boundary: one trusted call parses a text into the
//! library's node model; everything after it is verified.
use vstd::prelude::*;

use crate::error::rv;
use crate::node::Node;

verus! {

#[verifier::external_type_specification]
#[verifier::external_body]
pub struct ExYaml(yaml_rust::Yaml);

/// What scanning a text yields: the documents it holds, rendered in the
/// library's node model, or the scanner's error line. Scanning is a
/// function of the text alone.
pub uninterp spec fn yaml_docs_of(source: Seq<char>) -> Result<Seq<Node>, Seq<char>>;

/// Relies on `yaml_rust::Yaml`: renders one parsed value in the library's
/// node model, one arm per variant; scalars the loader never coerces
/// become `Node::Other`.
#[verifier::external_body]
fn node_of_yaml(y: yaml_rust::Yaml) -> Node {
    match y {
        yaml_rust::Yaml::String(s) => Node::Str(s),
        yaml_rust::Yaml::Integer(i) => Node::Int(i),
        yaml_rust::Yaml::Array(items) => Node::List(items.into_iter().map(node_of_yaml).collect()),
        yaml_rust::Yaml::Hash(h) => Node::Dict(
            h.into_iter().map(|(k, v)| (node_of_yaml(k), node_of_yaml(v))).collect(),
        ),
        _ => Node::Other,
    }
}

/// Relies on `yaml_rust::YamlLoader::load_from_str`: scans a text into its
/// YAML documents — in document order, mapping entries in insertion order —
/// or fails on a syntax error, deterministically in the text alone, which
/// `yaml_docs_of` names.
#[verifier::external_body]
pub(crate) fn parse_yaml(source: &str) -> (r: Result<Vec<Node>, String>)
    ensures
        rv(r) == yaml_docs_of(source@),
{
    match yaml_rust::YamlLoader::load_from_str(source) {
        Ok(docs) => Ok(docs.into_iter().map(node_of_yaml).collect()),
        Err(e) => Err(format!("{}", e)),
    }
}

} // verus!
