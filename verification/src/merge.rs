//! Document merger: parses one dynamically-typed document into the four
//! logical sections and folds them into an accumulating configuration.
//! List sections append, the label mapping inserts with last write winning,
//! and tunables are overwritten in place; the first failure aborts the
//! document with a descriptive error and leaves the configuration
//! unchanged.
use vstd::prelude::*;

use crate::config::{
    labels_keys_unique, labels_insert, labels_map, sinks_view, sources_view, Config, ConfigV,
    Parameters, ParametersV, Sink, SinkV, Source, SourceFormat, SourceV,
};
use crate::error::{rv, ConfigError, ConfigErrorV};
use crate::extract::{
    opt_level, opt_str, opt_u64, req_str, req_u64, spec_opt_level, spec_opt_str, spec_opt_u64,
    spec_req_str, spec_req_u64,
};
use crate::msg::{join2, join3};
use crate::node::{node_entries, node_get, node_list, node_str, Node};
use crate::pattern::{
    compile_metric_filters, compile_selector, metric_pattern_of, metric_patterns_of, regex_valid,
    regex_set_valid, selector_pattern_of, CompiledPattern, MetricFilter,
};

verus! {

/// Image of an optional pre-compiled value.
pub open spec fn opt_view<T: View>(o: Option<T>) -> Option<T::V> {
    match o {
        Some(x) => Some(x@),
        None => None,
    }
}

/// The `format` field of a source entry: optional, defaulting to
/// Prometheus; only the two exposition format names are accepted.
pub open spec fn spec_format_field(name: Seq<char>, v: Node) -> Result<
    SourceFormat,
    ConfigErrorV,
> {
    let path = "sources."@ + name + ".format"@;
    match spec_opt_str(v, "format"@, path, "prometheus"@) {
        Err(e) => Err(e),
        Ok(s) => if s == "prometheus"@ {
            Ok(SourceFormat::Prometheus)
        } else if s == "sensision"@ {
            Ok(SourceFormat::Sensision)
        } else {
            Err(ConfigErrorV::Format(path + " should be 'prometheus' or 'sensision'"@))
        },
    }
}

/// The `metrics` field of a source entry: an optional sequence of pattern
/// strings; an empty or absent sequence means "no filter". The result holds
/// the transformed (name-anchored) pattern texts.
pub open spec fn spec_metrics_field(name: Seq<char>, v: Node) -> Result<
    Option<Seq<Seq<char>>>,
    ConfigErrorV,
> {
    let path = "sources."@ + name + ".metrics"@;
    match node_get(v, "metrics"@) {
        None => Ok(None),
        Some(m) => match node_list(m) {
            None => Err(ConfigErrorV::Format(path + " should be an array"@)),
            Some(items) => if exists|i: int|
                0 <= i < items.len() && (#[trigger] node_str(items[i])) is None {
                Err(ConfigErrorV::Format(path + " should be an array of strings"@))
            } else if items.len() == 0 {
                Ok(None)
            } else {
                let pats = Seq::new(
                    items.len(),
                    |i: int| metric_pattern_of(node_str(items[i])->Some_0),
                );
                if regex_set_valid(pats) {
                    Ok(Some(pats))
                } else {
                    Err(ConfigErrorV::Regex(path + " is not a valid pattern"@))
                }
            },
        },
    }
}

/// The `selector` field of a sink entry: an optional pattern string,
/// anchored at the start when compiled. The result holds the anchored
/// pattern text.
pub open spec fn spec_selector_field(name: Seq<char>, v: Node) -> Result<
    Option<Seq<char>>,
    ConfigErrorV,
> {
    let path = "sinks."@ + name + ".selector"@;
    match node_get(v, "selector"@) {
        None => Ok(None),
        Some(s) => match node_str(s) {
            None => Err(ConfigErrorV::Format(path + " should be a string"@)),
            Some(u) => if regex_valid(selector_pattern_of(u)) {
                Ok(Some(selector_pattern_of(u)))
            } else {
                Err(ConfigErrorV::Regex(path + " is not a valid pattern"@))
            },
        },
    }
}

/// One `sources` entry: required `url` and non-negative `period`, optional
/// `format` and `metrics`, checked in that order.
pub open spec fn spec_parse_source(name: Seq<char>, v: Node) -> Result<SourceV, ConfigErrorV> {
    match spec_req_str(v, "url"@, "sources."@ + name + ".url"@) {
        Err(e) => Err(e),
        Ok(url) => match spec_req_u64(v, "period"@, "sources."@ + name + ".period"@) {
            Err(e) => Err(e),
            Ok(period) => match spec_format_field(name, v) {
                Err(e) => Err(e),
                Ok(format) => match spec_metrics_field(name, v) {
                    Err(e) => Err(e),
                    Ok(metrics) => Ok(SourceV { name, url, period, format, metrics }),
                },
            },
        },
    }
}

/// One `sinks` entry: required `url` and `token`, optional `token-header`,
/// `selector`, `ttl` and `size`, checked in that order.
pub open spec fn spec_parse_sink(name: Seq<char>, v: Node) -> Result<SinkV, ConfigErrorV> {
    match spec_req_str(v, "url"@, "sinks."@ + name + ".url"@) {
        Err(e) => Err(e),
        Ok(url) => match spec_req_str(v, "token"@, "sinks."@ + name + ".token"@) {
            Err(e) => Err(e),
            Ok(token) => match spec_opt_str(
                v,
                "token-header"@,
                "sinks."@ + name + ".token-header"@,
                "X-Warp10-Token"@,
            ) {
                Err(e) => Err(e),
                Ok(token_header) => match spec_selector_field(name, v) {
                    Err(e) => Err(e),
                    Ok(selector) => match spec_opt_u64(
                        v,
                        "ttl"@,
                        "sinks."@ + name + ".ttl"@,
                        3600,
                    ) {
                        Err(e) => Err(e),
                        Ok(ttl) => match spec_opt_u64(
                            v,
                            "size"@,
                            "sinks."@ + name + ".size"@,
                            1073741824,
                        ) {
                            Err(e) => Err(e),
                            Ok(size) => Ok(
                                SinkV { name, url, token, token_header, selector, ttl, size },
                            ),
                        },
                    },
                },
            },
        },
    }
}

/// Folds the entries of a `sources` section onto an accumulating source
/// sequence: each parsed entry is appended, never deduplicated.
pub open spec fn spec_merge_sources(es: Seq<(Node, Node)>, acc: Seq<SourceV>) -> Result<
    Seq<SourceV>,
    ConfigErrorV,
>
    decreases es.len(),
{
    if es.len() == 0 {
        Ok(acc)
    } else {
        match node_str(es[0].0) {
            None => Err(ConfigErrorV::Format("sources keys should be a string"@)),
            Some(name) => match spec_parse_source(name, es[0].1) {
                Err(e) => Err(e),
                Ok(s) => spec_merge_sources(es.drop_first(), acc.push(s)),
            },
        }
    }
}

/// Folds the entries of a `sinks` section onto an accumulating sink
/// sequence: each parsed entry is appended, never deduplicated.
pub open spec fn spec_merge_sinks(es: Seq<(Node, Node)>, acc: Seq<SinkV>) -> Result<
    Seq<SinkV>,
    ConfigErrorV,
>
    decreases es.len(),
{
    if es.len() == 0 {
        Ok(acc)
    } else {
        match node_str(es[0].0) {
            None => Err(ConfigErrorV::Format("sinks keys should be a string"@)),
            Some(name) => match spec_parse_sink(name, es[0].1) {
                Err(e) => Err(e),
                Ok(s) => spec_merge_sinks(es.drop_first(), acc.push(s)),
            },
        }
    }
}

/// Folds the entries of a `labels` section into the accumulating label
/// mapping: later entries win on a shared key.
pub open spec fn spec_merge_labels(es: Seq<(Node, Node)>, acc: Map<Seq<char>, Seq<char>>) -> Result<
    Map<Seq<char>, Seq<char>>,
    ConfigErrorV,
>
    decreases es.len(),
{
    if es.len() == 0 {
        Ok(acc)
    } else {
        match node_str(es[0].0) {
            None => Err(ConfigErrorV::Format("labels keys should be a string"@)),
            Some(name) => match node_str(es[0].1) {
                None => Err(ConfigErrorV::Format("labels."@ + name + " value should be a string"@)),
                Some(value) => spec_merge_labels(es.drop_first(), acc.insert(name, value)),
            },
        }
    }
}

/// Applies a `parameters` section: each recognized key, when present,
/// overwrites the corresponding scalar tunable in place.
pub open spec fn spec_merge_parameters(sec: Node, p: ParametersV) -> Result<
    ParametersV,
    ConfigErrorV,
> {
    match spec_opt_str(sec, "source-dir"@, "parameters.source-dir"@, p.source_dir) {
        Err(e) => Err(e),
        Ok(source_dir) => match spec_opt_str(sec, "sink-dir"@, "parameters.sink-dir"@, p.sink_dir) {
            Err(e) => Err(e),
            Ok(sink_dir) => match spec_opt_u64(
                sec,
                "scan-period"@,
                "parameters.scan-period"@,
                p.scan_period,
            ) {
                Err(e) => Err(e),
                Ok(scan_period) => match spec_opt_u64(
                    sec,
                    "batch-size"@,
                    "parameters.batch-size"@,
                    p.batch_size,
                ) {
                    Err(e) => Err(e),
                    Ok(batch_size) => match spec_opt_u64(
                        sec,
                        "batch-count"@,
                        "parameters.batch-count"@,
                        p.batch_count,
                    ) {
                        Err(e) => Err(e),
                        Ok(batch_count) => match spec_opt_str(
                            sec,
                            "log-file"@,
                            "parameters.log-file"@,
                            p.log_file,
                        ) {
                            Err(e) => Err(e),
                            Ok(log_file) => match spec_opt_level(
                                sec,
                                "log-level"@,
                                "parameters.log-level"@,
                                p.log_level,
                            ) {
                                Err(e) => Err(e),
                                Ok(log_level) => match spec_opt_u64(
                                    sec,
                                    "timeout"@,
                                    "parameters.timeout"@,
                                    p.timeout,
                                ) {
                                    Err(e) => Err(e),
                                    Ok(timeout) => Ok(
                                        ParametersV {
                                            scan_period,
                                            sink_dir,
                                            source_dir,
                                            batch_size,
                                            batch_count,
                                            log_file,
                                            log_level,
                                            timeout,
                                        },
                                    ),
                                },
                            },
                        },
                    },
                },
            },
        },
    }
}

/// The `sources` section of a document: absent is a no-op; present, it must
/// be a mapping and its entries are appended.
pub open spec fn spec_apply_sources(doc: Node, sources: Seq<SourceV>) -> Result<
    Seq<SourceV>,
    ConfigErrorV,
> {
    match node_get(doc, "sources"@) {
        None => Ok(sources),
        Some(sec) => match node_entries(sec) {
            None => Err(ConfigErrorV::Format("sources should be a map"@)),
            Some(es) => spec_merge_sources(es, sources),
        },
    }
}

/// The `sinks` section of a document: absent is a no-op; present, it must
/// be a mapping and its entries are appended.
pub open spec fn spec_apply_sinks(doc: Node, sinks: Seq<SinkV>) -> Result<
    Seq<SinkV>,
    ConfigErrorV,
> {
    match node_get(doc, "sinks"@) {
        None => Ok(sinks),
        Some(sec) => match node_entries(sec) {
            None => Err(ConfigErrorV::Format("sinks should be a map"@)),
            Some(es) => spec_merge_sinks(es, sinks),
        },
    }
}

/// The `labels` section of a document: absent is a no-op; present, it must
/// be a mapping and its entries are inserted.
pub open spec fn spec_apply_labels(doc: Node, labels: Map<Seq<char>, Seq<char>>) -> Result<
    Map<Seq<char>, Seq<char>>,
    ConfigErrorV,
> {
    match node_get(doc, "labels"@) {
        None => Ok(labels),
        Some(sec) => match node_entries(sec) {
            None => Err(ConfigErrorV::Format("labels should be a map"@)),
            Some(es) => spec_merge_labels(es, labels),
        },
    }
}

/// The `parameters` section of a document: absent — or not a mapping, whose
/// lookups then all miss — is a no-op for every tunable.
pub open spec fn spec_apply_parameters(doc: Node, p: ParametersV) -> Result<
    ParametersV,
    ConfigErrorV,
> {
    match node_get(doc, "parameters"@) {
        None => Ok(p),
        Some(sec) => spec_merge_parameters(sec, p),
    }
}

/// One whole document applied to an accumulating configuration: sources,
/// sinks, labels, then parameters; the first failing section aborts.
pub open spec fn spec_apply_doc(doc: Node, c: ConfigV) -> Result<ConfigV, ConfigErrorV> {
    match spec_apply_sources(doc, c.sources) {
        Err(e) => Err(e),
        Ok(sources) => match spec_apply_sinks(doc, c.sinks) {
            Err(e) => Err(e),
            Ok(sinks) => match spec_apply_labels(doc, c.labels) {
                Err(e) => Err(e),
                Ok(labels) => match spec_apply_parameters(doc, c.parameters) {
                    Err(e) => Err(e),
                    Ok(parameters) => Ok(ConfigV { sources, sinks, labels, parameters }),
                },
            },
        },
    }
}

fn format_field(name: &String, v: &Node) -> (r: Result<SourceFormat, ConfigError>)
    ensures
        rv(r) == spec_format_field(name@, *v),
{
    let path = join3("sources.", name.as_str(), ".format");
    let s = match opt_str(v, "format", path.as_str(), "prometheus") {
        Ok(s) => s,
        Err(e) => return Err(e),
    };
    let prometheus: String = "prometheus".to_owned();
    let sensision: String = "sensision".to_owned();
    if s == prometheus {
        Ok(SourceFormat::Prometheus)
    } else if s == sensision {
        Ok(SourceFormat::Sensision)
    } else {
        Err(ConfigError::Format(join2(path.as_str(), " should be 'prometheus' or 'sensision'")))
    }
}

#[verifier::loop_isolation(false)]
fn metrics_field(name: &String, v: &Node) -> (r: Result<Option<MetricFilter>, ConfigError>)
    ensures
        match r {
            Ok(m) => spec_metrics_field(name@, *v) == Ok::<_, ConfigErrorV>(opt_view(m)),
            Err(e) => spec_metrics_field(name@, *v) == Err::<Option<Seq<Seq<char>>>, _>(e@),
        },
{
    let path = join3("sources.", name.as_str(), ".metrics");
    let m = match v.get("metrics") {
        None => return Ok(None),
        Some(m) => m,
    };
    let items = match m.as_list() {
        None => return Err(ConfigError::Format(join2(path.as_str(), " should be an array"))),
        Some(items) => items,
    };
    let mut users: Vec<String> = Vec::new();
    let mut i: usize = 0;
    while i < items.len()
        invariant
            i <= items@.len(),
            users@.len() == i,
            forall|j: int|
                0 <= j < i ==> (#[trigger] node_str(items@[j])) == Some(users@[j]@),
        decreases items@.len() - i,
    {
        match items[i].as_str() {
            None => {
                proof {
                    assert(node_str(items@[i as int]) is None);
                    assert(exists|j: int|
                        0 <= j < items@.len() && (#[trigger] node_str(items@[j])) is None);
                }
                return Err(
                    ConfigError::Format(join2(path.as_str(), " should be an array of strings")),
                );
            },
            Some(s) => users.push(s.clone()),
        }
        i += 1;
    }
    if users.len() == 0 {
        return Ok(None);
    }
    let ghost pats = Seq::new(items@.len(), |j: int| metric_pattern_of(node_str(items@[j])->Some_0));
    proof {
        assert(pats =~= metric_patterns_of(users@.map_values(|p: String| p@)));
    }
    match compile_metric_filters(&users) {
        Some(f) => {
            proof {
                assert(f@ == pats);
            }
            Ok(Some(f))
        },
        None => Err(ConfigError::Regex(join2(path.as_str(), " is not a valid pattern"))),
    }
}

fn selector_field(name: &String, v: &Node) -> (r: Result<Option<CompiledPattern>, ConfigError>)
    ensures
        match r {
            Ok(m) => spec_selector_field(name@, *v) == Ok::<_, ConfigErrorV>(opt_view(m)),
            Err(e) => spec_selector_field(name@, *v) == Err::<Option<Seq<char>>, _>(e@),
        },
{
    let path = join3("sinks.", name.as_str(), ".selector");
    let s = match v.get("selector") {
        None => return Ok(None),
        Some(s) => s,
    };
    let u = match s.as_str() {
        None => return Err(ConfigError::Format(join2(path.as_str(), " should be a string"))),
        Some(u) => u,
    };
    match compile_selector(u.as_str()) {
        Some(cp) => Ok(Some(cp)),
        None => Err(ConfigError::Regex(join2(path.as_str(), " is not a valid pattern"))),
    }
}

fn parse_source(name: &String, v: &Node) -> (r: Result<Source, ConfigError>)
    ensures
        rv(r) == spec_parse_source(name@, *v),
{
    let url = match req_str(v, "url", join3("sources.", name.as_str(), ".url").as_str()) {
        Ok(u) => u,
        Err(e) => return Err(e),
    };
    let period = match req_u64(v, "period", join3("sources.", name.as_str(), ".period").as_str()) {
        Ok(p) => p,
        Err(e) => return Err(e),
    };
    let format = match format_field(name, v) {
        Ok(f) => f,
        Err(e) => return Err(e),
    };
    let metrics = match metrics_field(name, v) {
        Ok(m) => m,
        Err(e) => return Err(e),
    };
    let s = Source { name: name.clone(), url, period, format, metrics };
    proof {
        assert(s@ =~= spec_parse_source(name@, *v)->Ok_0);
    }
    Ok(s)
}

fn parse_sink(name: &String, v: &Node) -> (r: Result<Sink, ConfigError>)
    ensures
        rv(r) == spec_parse_sink(name@, *v),
{
    let url = match req_str(v, "url", join3("sinks.", name.as_str(), ".url").as_str()) {
        Ok(u) => u,
        Err(e) => return Err(e),
    };
    let token = match req_str(v, "token", join3("sinks.", name.as_str(), ".token").as_str()) {
        Ok(t) => t,
        Err(e) => return Err(e),
    };
    let token_header = match opt_str(
        v,
        "token-header",
        join3("sinks.", name.as_str(), ".token-header").as_str(),
        "X-Warp10-Token",
    ) {
        Ok(t) => t,
        Err(e) => return Err(e),
    };
    let selector = match selector_field(name, v) {
        Ok(s) => s,
        Err(e) => return Err(e),
    };
    let ttl = match opt_u64(v, "ttl", join3("sinks.", name.as_str(), ".ttl").as_str(), 3600) {
        Ok(t) => t,
        Err(e) => return Err(e),
    };
    let size = match opt_u64(
        v,
        "size",
        join3("sinks.", name.as_str(), ".size").as_str(),
        1073741824,
    ) {
        Ok(s) => s,
        Err(e) => return Err(e),
    };
    let s = Sink { name: name.clone(), url, token, token_header, selector, ttl, size };
    proof {
        assert(s@ =~= spec_parse_sink(name@, *v)->Ok_0);
    }
    Ok(s)
}

/// The label mapping after a parsed sequence of entries is inserted in
/// order: later entries win on a shared key.
pub open spec fn labels_fold(
    pairs: Seq<(String, String)>,
    acc: Map<Seq<char>, Seq<char>>,
) -> Map<Seq<char>, Seq<char>>
    decreases pairs.len(),
{
    if pairs.len() == 0 {
        acc
    } else {
        labels_fold(pairs.drop_first(), acc.insert(pairs[0].0@, pairs[0].1@))
    }
}

/// Whether a `sources` section merges, and with which error, does not
/// depend on the accumulated sources; on success it appends its own
/// contribution to them.
proof fn lemma_merge_sources_from_empty(es: Seq<(Node, Node)>, acc: Seq<SourceV>)
    ensures
        spec_merge_sources(es, acc) is Ok <==> spec_merge_sources(es, Seq::<SourceV>::empty())
            is Ok,
        spec_merge_sources(es, acc) is Err ==> spec_merge_sources(es, acc) == spec_merge_sources(
            es,
            Seq::<SourceV>::empty(),
        ),
        spec_merge_sources(es, acc) is Ok ==> spec_merge_sources(es, acc)->Ok_0 == acc
            + spec_merge_sources(es, Seq::<SourceV>::empty())->Ok_0,
    decreases es.len(),
{
    if es.len() == 0 {
        assert(acc + Seq::<SourceV>::empty() =~= acc);
    } else {
        match node_str(es[0].0) {
            None => {},
            Some(name) => match spec_parse_source(name, es[0].1) {
                Err(_) => {},
                Ok(s) => {
                    lemma_merge_sources_from_empty(es.drop_first(), acc.push(s));
                    lemma_merge_sources_from_empty(es.drop_first(), Seq::<SourceV>::empty().push(s));
                    if spec_merge_sources(es.drop_first(), Seq::<SourceV>::empty()) is Ok {
                        let m = spec_merge_sources(es.drop_first(), Seq::<SourceV>::empty())->Ok_0;
                        assert(acc.push(s) + m =~= acc + (Seq::<SourceV>::empty().push(s) + m));
                    }
                },
            },
        }
    }
}

/// The `sinks` counterpart of `lemma_merge_sources_from_empty`.
proof fn lemma_merge_sinks_from_empty(es: Seq<(Node, Node)>, acc: Seq<SinkV>)
    ensures
        spec_merge_sinks(es, acc) is Ok <==> spec_merge_sinks(es, Seq::<SinkV>::empty()) is Ok,
        spec_merge_sinks(es, acc) is Err ==> spec_merge_sinks(es, acc) == spec_merge_sinks(
            es,
            Seq::<SinkV>::empty(),
        ),
        spec_merge_sinks(es, acc) is Ok ==> spec_merge_sinks(es, acc)->Ok_0 == acc
            + spec_merge_sinks(es, Seq::<SinkV>::empty())->Ok_0,
    decreases es.len(),
{
    if es.len() == 0 {
        assert(acc + Seq::<SinkV>::empty() =~= acc);
    } else {
        match node_str(es[0].0) {
            None => {},
            Some(name) => match spec_parse_sink(name, es[0].1) {
                Err(_) => {},
                Ok(s) => {
                    lemma_merge_sinks_from_empty(es.drop_first(), acc.push(s));
                    lemma_merge_sinks_from_empty(es.drop_first(), Seq::<SinkV>::empty().push(s));
                    if spec_merge_sinks(es.drop_first(), Seq::<SinkV>::empty()) is Ok {
                        let m = spec_merge_sinks(es.drop_first(), Seq::<SinkV>::empty())->Ok_0;
                        assert(acc.push(s) + m =~= acc + (Seq::<SinkV>::empty().push(s) + m));
                    }
                },
            },
        }
    }
}

/// Merging a `labels` section whose entries parse to `pairs` folds those
/// pairs onto the accumulated mapping, whatever that mapping is.
proof fn lemma_merge_labels_fold(
    es: Seq<(Node, Node)>,
    pairs: Seq<(String, String)>,
    acc: Map<Seq<char>, Seq<char>>,
)
    requires
        pairs.len() == es.len(),
        forall|j: int|
            0 <= j < es.len() ==> (#[trigger] node_str(es[j].0)) == Some(pairs[j].0@)
                && node_str(es[j].1) == Some(pairs[j].1@),
    ensures
        spec_merge_labels(es, acc) == Ok::<_, ConfigErrorV>(labels_fold(pairs, acc)),
    decreases es.len(),
{
    if es.len() == 0 {
    } else {
        assert(node_str(es[0].0) == Some(pairs[0].0@));
        assert forall|j: int|
            0 <= j < es.drop_first().len() implies (#[trigger] node_str(es.drop_first()[j].0))
            == Some(pairs.drop_first()[j].0@) && node_str(es.drop_first()[j].1) == Some(
            pairs.drop_first()[j].1@,
        ) by {
            assert(es.drop_first()[j] == es[j + 1]);
            assert(pairs.drop_first()[j] == pairs[j + 1]);
        }
        lemma_merge_labels_fold(
            es.drop_first(),
            pairs.drop_first(),
            acc.insert(pairs[0].0@, pairs[0].1@),
        );
    }
}

/// Whether a `labels` section merges, and with which error, does not
/// depend on the accumulated mapping.
proof fn lemma_merge_labels_err_acc(
    es: Seq<(Node, Node)>,
    a: Map<Seq<char>, Seq<char>>,
    b: Map<Seq<char>, Seq<char>>,
)
    ensures
        spec_merge_labels(es, a) is Err <==> spec_merge_labels(es, b) is Err,
        spec_merge_labels(es, a) is Err ==> spec_merge_labels(es, a) == spec_merge_labels(es, b),
    decreases es.len(),
{
    if es.len() == 0 {
    } else {
        match node_str(es[0].0) {
            None => {},
            Some(name) => match node_str(es[0].1) {
                None => {},
                Some(value) => {
                    lemma_merge_labels_err_acc(
                        es.drop_first(),
                        a.insert(name, value),
                        b.insert(name, value),
                    );
                },
            },
        }
    }
}

fn parse_sources_section(es: &Vec<(Node, Node)>) -> (r: Result<Vec<Source>, ConfigError>)
    ensures
        match r {
            Ok(v) => spec_merge_sources(es@, Seq::<SourceV>::empty()) == Ok::<_, ConfigErrorV>(
                sources_view(v@),
            ),
            Err(e) => spec_merge_sources(es@, Seq::<SourceV>::empty()) == Err::<Seq<SourceV>, _>(
                e@,
            ),
        },
{
    let mut out: Vec<Source> = Vec::new();
    proof {
        assert(es@.skip(0) =~= es@);
        assert(sources_view(out@) =~= Seq::<SourceV>::empty());
    }
    let mut i: usize = 0;
    while i < es.len()
        invariant
            i <= es@.len(),
            spec_merge_sources(es@, Seq::<SourceV>::empty()) == spec_merge_sources(
                es@.skip(i as int),
                sources_view(out@),
            ),
        decreases es@.len() - i,
    {
        proof {
            assert(es@.skip(i as int)[0] == es@[i as int]);
            assert(es@.skip(i as int).drop_first() =~= es@.skip(i as int + 1));
        }
        let entry = &es[i];
        let name = match entry.0.as_str() {
            Some(s) => s.clone(),
            None => return Err(ConfigError::Format("sources keys should be a string".to_owned())),
        };
        match parse_source(&name, &entry.1) {
            Ok(s) => {
                let ghost sv = s@;
                let ghost before = sources_view(out@);
                out.push(s);
                proof {
                    assert(sources_view(out@) =~= before.push(sv));
                }
            },
            Err(e) => return Err(e),
        }
        i += 1;
    }
    Ok(out)
}

fn parse_sinks_section(es: &Vec<(Node, Node)>) -> (r: Result<Vec<Sink>, ConfigError>)
    ensures
        match r {
            Ok(v) => spec_merge_sinks(es@, Seq::<SinkV>::empty()) == Ok::<_, ConfigErrorV>(
                sinks_view(v@),
            ),
            Err(e) => spec_merge_sinks(es@, Seq::<SinkV>::empty()) == Err::<Seq<SinkV>, _>(e@),
        },
{
    let mut out: Vec<Sink> = Vec::new();
    proof {
        assert(es@.skip(0) =~= es@);
        assert(sinks_view(out@) =~= Seq::<SinkV>::empty());
    }
    let mut i: usize = 0;
    while i < es.len()
        invariant
            i <= es@.len(),
            spec_merge_sinks(es@, Seq::<SinkV>::empty()) == spec_merge_sinks(
                es@.skip(i as int),
                sinks_view(out@),
            ),
        decreases es@.len() - i,
    {
        proof {
            assert(es@.skip(i as int)[0] == es@[i as int]);
            assert(es@.skip(i as int).drop_first() =~= es@.skip(i as int + 1));
        }
        let entry = &es[i];
        let name = match entry.0.as_str() {
            Some(s) => s.clone(),
            None => return Err(ConfigError::Format("sinks keys should be a string".to_owned())),
        };
        match parse_sink(&name, &entry.1) {
            Ok(s) => {
                let ghost sv = s@;
                let ghost before = sinks_view(out@);
                out.push(s);
                proof {
                    assert(sinks_view(out@) =~= before.push(sv));
                }
            },
            Err(e) => return Err(e),
        }
        i += 1;
    }
    Ok(out)
}

fn parse_labels_section(es: &Vec<(Node, Node)>) -> (r: Result<Vec<(String, String)>, ConfigError>)
    ensures
        match r {
            Ok(v) => v@.len() == es@.len() && (forall|j: int|
                0 <= j < es@.len() ==> (#[trigger] node_str(es@[j].0)) == Some(v@[j].0@)
                    && node_str(es@[j].1) == Some(v@[j].1@)),
            Err(e) => spec_merge_labels(es@, Map::<Seq<char>, Seq<char>>::empty()) == Err::<
                Map<Seq<char>, Seq<char>>,
                _,
            >(e@),
        },
{
    proof {
        assert(es@.skip(0) =~= es@);
    }
    let mut out: Vec<(String, String)> = Vec::new();
    let ghost mut m: Map<Seq<char>, Seq<char>> = Map::empty();
    let mut i: usize = 0;
    while i < es.len()
        invariant
            i <= es@.len(),
            out@.len() == i,
            forall|j: int|
                0 <= j < i ==> (#[trigger] node_str(es@[j].0)) == Some(out@[j].0@) && node_str(
                    es@[j].1,
                ) == Some(out@[j].1@),
            spec_merge_labels(es@, Map::<Seq<char>, Seq<char>>::empty()) == spec_merge_labels(
                es@.skip(i as int),
                m,
            ),
        decreases es@.len() - i,
    {
        proof {
            assert(es@.skip(i as int)[0] == es@[i as int]);
            assert(es@.skip(i as int).drop_first() =~= es@.skip(i as int + 1));
        }
        let entry = &es[i];
        let name = match entry.0.as_str() {
            Some(s) => s.clone(),
            None => return Err(ConfigError::Format("labels keys should be a string".to_owned())),
        };
        let value = match entry.1.as_str() {
            Some(s) => s.clone(),
            None => {
                return Err(
                    ConfigError::Format(
                        join3("labels.", name.as_str(), " value should be a string"),
                    ),
                );
            },
        };
        proof {
            m = m.insert(name@, value@);
        }
        out.push((name, value));
        i += 1;
    }
    Ok(out)
}

fn parse_parameters(sec: &Node, p: &Parameters) -> (r: Result<Parameters, ConfigError>)
    ensures
        rv(r) == spec_merge_parameters(*sec, p@),
{
    let source_dir = match opt_str(
        sec,
        "source-dir",
        "parameters.source-dir",
        p.source_dir.as_str(),
    ) {
        Ok(v) => v,
        Err(e) => return Err(e),
    };
    let sink_dir = match opt_str(sec, "sink-dir", "parameters.sink-dir", p.sink_dir.as_str()) {
        Ok(v) => v,
        Err(e) => return Err(e),
    };
    let scan_period = match opt_u64(sec, "scan-period", "parameters.scan-period", p.scan_period) {
        Ok(v) => v,
        Err(e) => return Err(e),
    };
    let batch_size = match opt_u64(sec, "batch-size", "parameters.batch-size", p.batch_size) {
        Ok(v) => v,
        Err(e) => return Err(e),
    };
    let batch_count = match opt_u64(sec, "batch-count", "parameters.batch-count", p.batch_count) {
        Ok(v) => v,
        Err(e) => return Err(e),
    };
    let log_file = match opt_str(sec, "log-file", "parameters.log-file", p.log_file.as_str()) {
        Ok(v) => v,
        Err(e) => return Err(e),
    };
    let log_level = match opt_level(sec, "log-level", "parameters.log-level", p.log_level) {
        Ok(v) => v,
        Err(e) => return Err(e),
    };
    let timeout = match opt_u64(sec, "timeout", "parameters.timeout", p.timeout) {
        Ok(v) => v,
        Err(e) => return Err(e),
    };
    let q = Parameters {
        scan_period,
        sink_dir,
        source_dir,
        batch_size,
        batch_count,
        log_file,
        log_level,
        timeout,
    };
    proof {
        assert(q@ =~= spec_merge_parameters(*sec, p@)->Ok_0);
    }
    Ok(q)
}

/// Applies one parsed document to the accumulating configuration. On
/// success the new value is exactly the section-by-section merge; on
/// failure the error is the document's first and the configuration is
/// unchanged: every section is parsed into locals first, and nothing is
/// committed until all of them have succeeded.
#[verifier::loop_isolation(false)]
pub fn apply_document(doc: &Node, config: &mut Config) -> (r: Result<(), ConfigError>)
    requires
        old(config).wf(),
    ensures
        final(config).wf(),
        match r {
            Ok(_) => spec_apply_doc(*doc, old(config)@) == Ok::<_, ConfigErrorV>(final(config)@),
            Err(e) => spec_apply_doc(*doc, old(config)@) == Err::<ConfigV, _>(e@)
                && *final(config) == *old(config),
        },
{
    let ghost c0 = old(config)@;
    let mut added_sources: Vec<Source> = Vec::new();
    match doc.get("sources") {
        None => {},
        Some(sec) => match sec.as_entries() {
            None => return Err(ConfigError::Format("sources should be a map".to_owned())),
            Some(es) => match parse_sources_section(es) {
                Ok(v) => {
                    proof {
                        lemma_merge_sources_from_empty(es@, c0.sources);
                    }
                    added_sources = v;
                },
                Err(e) => {
                    proof {
                        lemma_merge_sources_from_empty(es@, c0.sources);
                    }
                    return Err(e);
                },
            },
        },
    }
    proof {
        if node_get(*doc, "sources"@) is None {
            assert(sources_view(added_sources@) =~= Seq::<SourceV>::empty());
            assert(c0.sources + sources_view(added_sources@) =~= c0.sources);
        }
        assert(spec_apply_sources(*doc, c0.sources) == Ok::<_, ConfigErrorV>(
            c0.sources + sources_view(added_sources@),
        ));
    }
    let mut added_sinks: Vec<Sink> = Vec::new();
    match doc.get("sinks") {
        None => {},
        Some(sec) => match sec.as_entries() {
            None => return Err(ConfigError::Format("sinks should be a map".to_owned())),
            Some(es) => match parse_sinks_section(es) {
                Ok(v) => {
                    proof {
                        lemma_merge_sinks_from_empty(es@, c0.sinks);
                    }
                    added_sinks = v;
                },
                Err(e) => {
                    proof {
                        lemma_merge_sinks_from_empty(es@, c0.sinks);
                    }
                    return Err(e);
                },
            },
        },
    }
    proof {
        if node_get(*doc, "sinks"@) is None {
            assert(sinks_view(added_sinks@) =~= Seq::<SinkV>::empty());
            assert(c0.sinks + sinks_view(added_sinks@) =~= c0.sinks);
        }
        assert(spec_apply_sinks(*doc, c0.sinks) == Ok::<_, ConfigErrorV>(
            c0.sinks + sinks_view(added_sinks@),
        ));
    }
    let mut label_pairs: Vec<(String, String)> = Vec::new();
    match doc.get("labels") {
        None => {},
        Some(sec) => match sec.as_entries() {
            None => return Err(ConfigError::Format("labels should be a map".to_owned())),
            Some(es) => match parse_labels_section(es) {
                Ok(v) => {
                    label_pairs = v;
                    proof {
                        lemma_merge_labels_fold(es@, label_pairs@, c0.labels);
                    }
                },
                Err(e) => {
                    proof {
                        lemma_merge_labels_err_acc(
                            es@,
                            c0.labels,
                            Map::<Seq<char>, Seq<char>>::empty(),
                        );
                    }
                    return Err(e);
                },
            },
        },
    }
    proof {
        assert(spec_apply_labels(*doc, c0.labels) == Ok::<_, ConfigErrorV>(
            labels_fold(label_pairs@, c0.labels),
        ));
    }
    let new_parameters: Option<Parameters> = match doc.get("parameters") {
        None => None,
        Some(sec) => match parse_parameters(sec, &config.parameters) {
            Ok(p) => Some(p),
            Err(e) => return Err(e),
        },
    };
    proof {
        if new_parameters is Some {
            assert(spec_apply_parameters(*doc, c0.parameters) == Ok::<_, ConfigErrorV>(
                new_parameters->Some_0@,
            ));
        } else {
            assert(spec_apply_parameters(*doc, c0.parameters) == Ok::<_, ConfigErrorV>(
                c0.parameters,
            ));
        }
    }
    // Commit stage: every section succeeded; nothing below can fail.
    let ghost add_s = added_sources@;
    let ghost add_k = added_sinks@;
    config.sources.append(&mut added_sources);
    config.sinks.append(&mut added_sinks);
    proof {
        assert(sources_view(config.sources@) =~= c0.sources + sources_view(add_s));
        assert(sinks_view(config.sinks@) =~= c0.sinks + sinks_view(add_k));
        assert(label_pairs@.skip(0) =~= label_pairs@);
    }
    let ghost committed_sources = config.sources@;
    let ghost committed_sinks = config.sinks@;
    let mut i: usize = 0;
    while i < label_pairs.len()
        invariant
            i <= label_pairs@.len(),
            config.sources@ == committed_sources,
            config.sinks@ == committed_sinks,
            config.parameters@ == c0.parameters,
            labels_keys_unique(config.labels@),
            labels_fold(label_pairs@, c0.labels) == labels_fold(
                label_pairs@.skip(i as int),
                labels_map(config.labels@),
            ),
        decreases label_pairs@.len() - i,
    {
        proof {
            assert(label_pairs@.skip(i as int)[0] == label_pairs@[i as int]);
            assert(label_pairs@.skip(i as int).drop_first() =~= label_pairs@.skip(i as int + 1));
        }
        let pair = &label_pairs[i];
        labels_insert(&mut config.labels, pair.0.clone(), pair.1.clone());
        i += 1;
    }
    match new_parameters {
        Some(p) => config.parameters = p,
        None => {},
    }
    proof {
        assert(config@ =~= spec_apply_doc(*doc, c0)->Ok_0);
    }
    Ok(())
}


} // verus!
