//! The strongly-typed configuration snapshot: sources to poll, sinks to
//! forward to, static labels, and global tunables, together with the
//! mathematical image of each and the hard-coded defaults.
use vstd::prelude::*;

use crate::level::LogLevel;
use crate::msg::join2;
use crate::pattern::{CompiledPattern, MetricFilter};

verus! {

/// Exposition format of a source.
#[derive(Clone, Copy, Debug, PartialEq, Eq, Structural)]
pub enum SourceFormat {
    Prometheus,
    Sensision,
}

impl View for SourceFormat {
    type V = SourceFormat;

    open spec fn view(&self) -> SourceFormat {
        *self
    }
}

/// One pollable target.
#[derive(Debug)]
pub struct Source {
    pub name: String,
    pub url: String,
    pub period: u64,
    pub format: SourceFormat,
    /// Pre-compiled metric-name filter; absent means "accept all".
    pub metrics: Option<MetricFilter>,
}

/// Mathematical image of a `Source`; `metrics` holds the transformed
/// pattern texts the filter was compiled from.
#[verifier::ext_equal]
pub struct SourceV {
    pub name: Seq<char>,
    pub url: Seq<char>,
    pub period: u64,
    pub format: SourceFormat,
    pub metrics: Option<Seq<Seq<char>>>,
}

impl View for Source {
    type V = SourceV;

    open spec fn view(&self) -> SourceV {
        SourceV {
            name: self.name@,
            url: self.url@,
            period: self.period,
            format: self.format,
            metrics: match self.metrics {
                Some(f) => Some(f@),
                None => None,
            },
        }
    }
}

/// One delivery target.
#[derive(Debug)]
pub struct Sink {
    pub name: String,
    pub url: String,
    pub token: String,
    pub token_header: String,
    /// Pre-compiled stream selector, anchored at the start; absent means
    /// "accept all streams".
    pub selector: Option<CompiledPattern>,
    pub ttl: u64,
    pub size: u64,
}

/// Mathematical image of a `Sink`; `selector` holds the anchored pattern
/// text it was compiled from.
#[verifier::ext_equal]
pub struct SinkV {
    pub name: Seq<char>,
    pub url: Seq<char>,
    pub token: Seq<char>,
    pub token_header: Seq<char>,
    pub selector: Option<Seq<char>>,
    pub ttl: u64,
    pub size: u64,
}

impl View for Sink {
    type V = SinkV;

    open spec fn view(&self) -> SinkV {
        SinkV {
            name: self.name@,
            url: self.url@,
            token: self.token@,
            token_header: self.token_header@,
            selector: match self.selector {
                Some(p) => Some(p@),
                None => None,
            },
            ttl: self.ttl,
            size: self.size,
        }
    }
}

/// Global tunables; every field is scalar and overwritten wholesale by the
/// last file that specifies it.
#[derive(Debug)]
pub struct Parameters {
    pub scan_period: u64,
    pub sink_dir: String,
    pub source_dir: String,
    pub batch_size: u64,
    pub batch_count: u64,
    pub log_file: String,
    pub log_level: LogLevel,
    pub timeout: u64,
}

/// Mathematical image of `Parameters`.
#[verifier::ext_equal]
pub struct ParametersV {
    pub scan_period: u64,
    pub sink_dir: Seq<char>,
    pub source_dir: Seq<char>,
    pub batch_size: u64,
    pub batch_count: u64,
    pub log_file: Seq<char>,
    pub log_level: LogLevel,
    pub timeout: u64,
}

impl View for Parameters {
    type V = ParametersV;

    open spec fn view(&self) -> ParametersV {
        ParametersV {
            scan_period: self.scan_period,
            sink_dir: self.sink_dir@,
            source_dir: self.source_dir@,
            batch_size: self.batch_size,
            batch_count: self.batch_count,
            log_file: self.log_file@,
            log_level: self.log_level,
            timeout: self.timeout,
        }
    }
}

/// No two label entries share a key.
pub open spec fn labels_keys_unique(s: Seq<(String, String)>) -> bool {
    forall|i: int, j: int|
        0 <= i < j < s.len() ==> (#[trigger] s[i].0@) != (#[trigger] s[j].0@)
}

/// The mapping a label list stands for: later entries win on a shared key.
pub open spec fn labels_map(s: Seq<(String, String)>) -> Map<Seq<char>, Seq<char>>
    decreases s.len(),
{
    if s.len() == 0 {
        Map::empty()
    } else {
        labels_map(s.drop_last()).insert(s.last().0@, s.last().1@)
    }
}

/// The root configuration value.
#[derive(Debug)]
pub struct Config {
    pub sources: Vec<Source>,
    pub sinks: Vec<Sink>,
    pub labels: Vec<(String, String)>,
    pub parameters: Parameters,
}

/// Mathematical image of a `Config`: ordered source and sink sequences, the
/// label mapping, and the tunables.
#[verifier::ext_equal]
pub struct ConfigV {
    pub sources: Seq<SourceV>,
    pub sinks: Seq<SinkV>,
    pub labels: Map<Seq<char>, Seq<char>>,
    pub parameters: ParametersV,
}

/// Image of a source list.
pub open spec fn sources_view(s: Seq<Source>) -> Seq<SourceV> {
    s.map_values(|x: Source| x@)
}

/// Image of a sink list.
pub open spec fn sinks_view(s: Seq<Sink>) -> Seq<SinkV> {
    s.map_values(|x: Sink| x@)
}

impl View for Config {
    type V = ConfigV;

    open spec fn view(&self) -> ConfigV {
        ConfigV {
            sources: sources_view(self.sources@),
            sinks: sinks_view(self.sinks@),
            labels: labels_map(self.labels@),
            parameters: self.parameters@,
        }
    }
}

impl Config {
    /// Well-formedness: the label list carries each key once.
    pub open spec fn wf(&self) -> bool {
        labels_keys_unique(self.labels@)
    }

    /// The value the label mapping holds for `key`, if any.
    pub fn label(&self, key: &str) -> (r: Option<&String>)
        requires
            self.wf(),
        ensures
            match r {
                Some(v) => self@.labels.contains_key(key@) && self@.labels[key@] == v@,
                None => !self@.labels.contains_key(key@),
            },
    {
        let key_string: String = key.to_owned();
        let mut i: usize = 0;
        while i < self.labels.len()
            invariant
                i <= self.labels@.len(),
                key_string@ == key@,
                self.wf(),
                forall|j: int| 0 <= j < i ==> (#[trigger] self.labels@[j].0@) != key@,
            decreases self.labels@.len() - i,
        {
            if self.labels[i].0 == key_string {
                proof {
                    lemma_labels_map_at(self.labels@, i as int, key@);
                }
                return Some(&self.labels[i].1);
            }
            i += 1;
        }
        proof {
            lemma_labels_map_dom(self.labels@, key@);
        }
        None
    }
}

proof fn lemma_labels_map_dom(s: Seq<(String, String)>, k: Seq<char>)
    ensures
        labels_map(s).contains_key(k) <==> exists|i: int|
            0 <= i < s.len() && (#[trigger] s[i].0@) == k,
    decreases s.len(),
{
    if s.len() == 0 {
    } else {
        lemma_labels_map_dom(s.drop_last(), k);
        assert(forall|i: int| 0 <= i < s.len() - 1 ==> s.drop_last()[i] == s[i]);
        if labels_map(s).contains_key(k) {
            if s.last().0@ == k {
                assert(s[s.len() - 1].0@ == k);
            } else {
                let i = choose|i: int|
                    0 <= i < s.drop_last().len() && (#[trigger] s.drop_last()[i].0@) == k;
                assert(s[i].0@ == k);
            }
        }
        if exists|i: int| 0 <= i < s.len() && (#[trigger] s[i].0@) == k {
            let i = choose|i: int| 0 <= i < s.len() && (#[trigger] s[i].0@) == k;
            if i < s.len() - 1 {
                assert(s.drop_last()[i].0@ == k);
            }
        }
    }
}

proof fn lemma_labels_map_at(s: Seq<(String, String)>, i: int, k: Seq<char>)
    requires
        labels_keys_unique(s),
        0 <= i < s.len(),
        s[i].0@ == k,
    ensures
        labels_map(s).contains_key(k),
        labels_map(s)[k] == s[i].1@,
    decreases s.len(),
{
    if i == s.len() - 1 {
    } else {
        assert(forall|j: int| 0 <= j < s.len() - 1 ==> s.drop_last()[j] == s[j]);
        lemma_labels_map_at(s.drop_last(), i, k);
        assert(s.last().0@ != k);
    }
}

proof fn lemma_labels_map_update(s: Seq<(String, String)>, i: int, p: (String, String))
    requires
        0 <= i < s.len(),
        labels_keys_unique(s),
        p.0@ == s[i].0@,
    ensures
        labels_map(s.update(i, p)) =~= labels_map(s).insert(p.0@, p.1@),
    decreases s.len(),
{
    let t = s.update(i, p);
    assert(forall|j: int| 0 <= j < s.len() - 1 ==> s.drop_last()[j] == s[j]);
    if i == s.len() - 1 {
        assert(t.drop_last() =~= s.drop_last());
        assert(t.last() == p);
    } else {
        assert forall|a: int, b: int|
            0 <= a < b < s.drop_last().len() implies (#[trigger] s.drop_last()[a].0@) != (
        #[trigger] s.drop_last()[b].0@) by {
            assert(s.drop_last()[a] == s[a]);
            assert(s.drop_last()[b] == s[b]);
        }
        lemma_labels_map_update(s.drop_last(), i, p);
        assert(t.drop_last() =~= s.drop_last().update(i, p));
        assert(t.last() == s.last());
        assert(s[i].0@ != s.last().0@);
        assert(labels_map(t) =~= labels_map(s).insert(p.0@, p.1@));
    }
}

/// Inserts a label: a fresh key is appended, an existing key's value is
/// overwritten in place — last write wins.
pub fn labels_insert(labels: &mut Vec<(String, String)>, key: String, value: String)
    requires
        labels_keys_unique(old(labels)@),
    ensures
        labels_keys_unique(final(labels)@),
        labels_map(final(labels)@) == labels_map(old(labels)@).insert(key@, value@),
{
    let ghost k = key@;
    let ghost v = value@;
    let mut i: usize = 0;
    while i < labels.len()
        invariant
            i <= labels@.len(),
            labels@ == old(labels)@,
            labels_keys_unique(labels@),
            key@ == k,
            value@ == v,
            forall|j: int| 0 <= j < i ==> (#[trigger] labels@[j].0@) != k,
        decreases labels@.len() - i,
    {
        let hit: bool = labels[i].0 == key;
        if hit {
            let ghost s = labels@;
            labels[i] = (key, value);
            proof {
                assert(labels@ == s.update(i as int, (labels@[i as int])));
                lemma_labels_map_update(s, i as int, labels@[i as int]);
                assert forall|a: int, b: int|
                    0 <= a < b < labels@.len() implies (#[trigger] labels@[a].0@) != (
                #[trigger] labels@[b].0@) by {
                    if a != i {
                        assert(labels@[a] == s[a]);
                    }
                    if b != i {
                        assert(labels@[b] == s[b]);
                    }
                    assert(labels@[i as int].0@ == s[i as int].0@);
                }
            }
            return;
        }
        i += 1;
    }
    let ghost s = labels@;
    labels.push((key, value));
    proof {
        assert(labels@.drop_last() =~= s);
        assert(labels@.last().0@ == k);
        assert(labels@.last().1@ == v);
        assert(labels_map(labels@) == labels_map(s).insert(k, v));
        assert forall|a: int, b: int|
            0 <= a < b < labels@.len() implies (#[trigger] labels@[a].0@) != (
        #[trigger] labels@[b].0@) by {
            if b == labels@.len() - 1 {
                assert(labels@[a] == s[a]);
            } else {
                assert(labels@[a] == s[a]);
                assert(labels@[b] == s[b]);
            }
        }
    }
}

/// The hard-coded default tunables; the default log file name is derived
/// from the program name the caller injects.
pub open spec fn spec_default_parameters(program: Seq<char>) -> ParametersV {
    ParametersV {
        scan_period: 1000,
        sink_dir: "sinks"@,
        source_dir: "sources"@,
        batch_size: 200000,
        batch_count: 250,
        log_file: program + ".log"@,
        log_level: LogLevel::Info,
        timeout: 300,
    }
}

/// The hard-coded default configuration: no sources, no sinks, no labels,
/// default tunables.
pub open spec fn spec_default_config(program: Seq<char>) -> ConfigV {
    ConfigV {
        sources: Seq::empty(),
        sinks: Seq::empty(),
        labels: Map::empty(),
        parameters: spec_default_parameters(program),
    }
}

/// Builds the hard-coded default configuration.
pub fn default_config(program: &str) -> (c: Config)
    ensures
        c@ == spec_default_config(program@),
        c.wf(),
{
    let c = Config {
        sources: Vec::new(),
        sinks: Vec::new(),
        labels: Vec::new(),
        parameters: Parameters {
            scan_period: 1000,
            sink_dir: "sinks".to_owned(),
            source_dir: "sources".to_owned(),
            batch_size: 200000,
            batch_count: 250,
            log_file: join2(program, ".log"),
            log_level: LogLevel::Info,
            timeout: 300,
        },
    };
    proof {
        assert(c@.sources =~= Seq::<SourceV>::empty());
        assert(c@.sinks =~= Seq::<SinkV>::empty());
        assert(c@.labels =~= Map::<Seq<char>, Seq<char>>::empty());
        assert(c@ =~= spec_default_config(program@));
    }
    c
}

} // verus!
