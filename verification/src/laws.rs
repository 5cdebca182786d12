//! Laws of the merge: properties that hold of every input, each stated
//! over the spec functions the public contracts use and proved here.
use vstd::prelude::*;

use crate::config::{ConfigV, SourceFormat, SourceV};
use crate::error::ConfigErrorV;
use crate::extract::{msg_invalid, msg_req_num, spec_opt_level, spec_req_str};
use crate::level::LogLevel;
use crate::merge::{
    spec_apply_doc, spec_apply_sources, spec_merge_parameters, spec_merge_sources,
    spec_parse_sink, spec_parse_source,
};
use crate::node::{node_entries, node_get, node_int, node_str, Node};

verus! {

/// A valid `sources` entry that lacks `format` is parsed with the
/// Prometheus exposition format.
pub proof fn lemma_format_defaults_to_prometheus(name: Seq<char>, v: Node)
    requires
        node_get(v, "format"@) is None,
        spec_parse_source(name, v) is Ok,
    ensures
        spec_parse_source(name, v)->Ok_0.format == SourceFormat::Prometheus,
{
}

/// A valid `sinks` entry that lacks `ttl` and `size` is parsed with the
/// default retention policy: 3600 seconds and 1073741824 bytes.
pub proof fn lemma_sink_policy_defaults(name: Seq<char>, v: Node)
    requires
        node_get(v, "ttl"@) is None,
        node_get(v, "size"@) is None,
        spec_parse_sink(name, v) is Ok,
    ensures
        spec_parse_sink(name, v)->Ok_0.ttl == 3600,
        spec_parse_sink(name, v)->Ok_0.size == 1073741824,
{
}

/// Merging a `sources` section appends: the accumulated sources stay, in
/// order, as a prefix, and each entry of the section contributes exactly
/// one source — entries are never deduplicated or replaced.
pub proof fn lemma_merge_sources_appends(es: Seq<(Node, Node)>, acc: Seq<SourceV>)
    requires
        spec_merge_sources(es, acc) is Ok,
    ensures
        spec_merge_sources(es, acc)->Ok_0.len() == acc.len() + es.len(),
        spec_merge_sources(es, acc)->Ok_0.take(acc.len() as int) =~= acc,
    decreases es.len(),
{
    if es.len() == 0 {
    } else {
        let name = node_str(es[0].0)->Some_0;
        let s = spec_parse_source(name, es[0].1)->Ok_0;
        lemma_merge_sources_appends(es.drop_first(), acc.push(s));
        let full = spec_merge_sources(es, acc)->Ok_0;
        assert(full.take(acc.push(s).len() as int) =~= acc.push(s));
        assert forall|j: int| 0 <= j < acc.len() implies full.take(acc.len() as int)[j]
            == acc[j] by {
            assert(full.take(acc.push(s).len() as int)[j] == acc.push(s)[j]);
        }
        assert(full.take(acc.len() as int) =~= acc);
    }
}

/// The number of `sources` entries a document carries.
pub open spec fn doc_source_entry_count(doc: Node) -> int {
    match node_get(doc, "sources"@) {
        Some(sec) => match node_entries(sec) {
            Some(es) => es.len() as int,
            None => 0,
        },
        None => 0,
    }
}

/// A successfully applied document keeps every accumulated source, in
/// order, and appends exactly one source per entry of its `sources`
/// section.
pub proof fn lemma_doc_appends_sources(doc: Node, c: ConfigV)
    requires
        spec_apply_doc(doc, c) is Ok,
    ensures
        spec_apply_doc(doc, c)->Ok_0.sources.len() == c.sources.len() + doc_source_entry_count(
            doc,
        ),
        spec_apply_doc(doc, c)->Ok_0.sources.take(c.sources.len() as int) =~= c.sources,
{
    assert(spec_apply_sources(doc, c.sources) is Ok);
    match node_get(doc, "sources"@) {
        None => {
            assert(c.sources.take(c.sources.len() as int) =~= c.sources);
        },
        Some(sec) => {
            let es = node_entries(sec)->Some_0;
            lemma_merge_sources_appends(es, c.sources);
        },
    }
}

/// Applying two documents in turn keeps both documents' sources: the
/// final count is the sum, even when entries share a name.
pub proof fn lemma_two_layers_keep_both_sources(d1: Node, d2: Node, c: ConfigV)
    requires
        spec_apply_doc(d1, c) is Ok,
        spec_apply_doc(d2, spec_apply_doc(d1, c)->Ok_0) is Ok,
    ensures
        spec_apply_doc(d2, spec_apply_doc(d1, c)->Ok_0)->Ok_0.sources.len() == c.sources.len()
            + doc_source_entry_count(d1) + doc_source_entry_count(d2),
{
    lemma_doc_appends_sources(d1, c);
    lemma_doc_appends_sources(d2, spec_apply_doc(d1, c)->Ok_0);
}

/// A later document that sets `parameters.batch-size` always wins: after
/// it is applied the tunable holds its value, whatever was there before.
pub proof fn lemma_last_layer_batch_size_wins(doc: Node, c: ConfigV, b: i64)
    requires
        spec_apply_doc(doc, c) is Ok,
        node_get(doc, "parameters"@) is Some,
        node_get(node_get(doc, "parameters"@)->Some_0, "batch-size"@) == Some(Node::Int(b)),
        0 <= b,
    ensures
        spec_apply_doc(doc, c)->Ok_0.parameters.batch_size == b as u64,
{
    let sec = node_get(doc, "parameters"@)->Some_0;
    assert(spec_merge_parameters(sec, c.parameters) is Ok);
}

/// Severity index 0 always selects the most severe configured level.
pub proof fn lemma_log_level_zero_most_severe(n: Node, key: Seq<char>, path: Seq<char>, d: LogLevel)
    requires
        node_get(n, key) == Some(Node::Int(0)),
    ensures
        spec_opt_level(n, key, path, d) == Ok::<LogLevel, ConfigErrorV>(LogLevel::Critical),
{
}

/// A severity index beyond the table's range is a validation error naming
/// the path, whatever the previous level was.
pub proof fn lemma_log_level_out_of_range(
    n: Node,
    key: Seq<char>,
    path: Seq<char>,
    d: LogLevel,
    i: i64,
)
    requires
        node_get(n, key) == Some(Node::Int(i)),
        !(0 <= i <= 5),
    ensures
        spec_opt_level(n, key, path, d) == Err::<LogLevel, ConfigErrorV>(
            ConfigErrorV::Format(msg_invalid(path)),
        ),
{
}

/// A negative `period` in a `sources` entry whose `url` is in order is a
/// validation error naming `sources.<name>.period`.
pub proof fn lemma_negative_period_rejected(name: Seq<char>, v: Node, p: i64)
    requires
        spec_req_str(v, "url"@, "sources."@ + name + ".url"@) is Ok,
        node_get(v, "period"@) == Some(Node::Int(p)),
        p < 0,
    ensures
        spec_parse_source(name, v) == Err::<SourceV, ConfigErrorV>(
            ConfigErrorV::Format(msg_invalid("sources."@ + name + ".period"@)),
        ),
{
}

/// A `period` that is not an integer node — which is how a value too wide
/// for the document integer type arrives — is a validation error naming
/// `sources.<name>.period`.
pub proof fn lemma_non_integer_period_rejected(name: Seq<char>, v: Node)
    requires
        spec_req_str(v, "url"@, "sources."@ + name + ".url"@) is Ok,
        node_get(v, "period"@) is Some,
        node_int(node_get(v, "period"@)->Some_0) is None,
    ensures
        spec_parse_source(name, v) == Err::<SourceV, ConfigErrorV>(
            ConfigErrorV::Format(msg_req_num("sources."@ + name + ".period"@)),
        ),
{
}

} // verus!
