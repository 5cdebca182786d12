//! Layered loader: starts from the hard-coded defaults and applies each
//! configuration text in a defined order. Scalars set by a later layer
//! always overwrite, list sections append, and the label mapping merges
//! with the later key winning; the first error aborts the whole load.
use vstd::prelude::*;

use crate::config::{default_config, spec_default_config, Config, ConfigV};
use crate::error::{ConfigError, ConfigErrorV};
use crate::merge::{apply_document, spec_apply_doc};
use crate::node::Node;
use crate::yaml::{parse_yaml, yaml_docs_of};

verus! {

/// Documents of one text folded in order onto an accumulating
/// configuration.
pub open spec fn spec_apply_docs(docs: Seq<Node>, c: ConfigV) -> Result<ConfigV, ConfigErrorV>
    decreases docs.len(),
{
    if docs.len() == 0 {
        Ok(c)
    } else {
        match spec_apply_doc(docs[0], c) {
            Err(e) => Err(e),
            Ok(c2) => spec_apply_docs(docs.drop_first(), c2),
        }
    }
}

/// One text applied to an accumulating configuration: scanned, then each
/// of its documents merged in order.
pub open spec fn spec_load_str(content: Seq<char>, c: ConfigV) -> Result<ConfigV, ConfigErrorV> {
    match yaml_docs_of(content) {
        Err(m) => Err(ConfigErrorV::Yaml(m)),
        Ok(docs) => spec_apply_docs(docs, c),
    }
}

/// Layered texts folded in order onto an accumulating configuration.
pub open spec fn spec_load_layers(layers: Seq<Seq<char>>, c: ConfigV) -> Result<
    ConfigV,
    ConfigErrorV,
>
    decreases layers.len(),
{
    if layers.len() == 0 {
        Ok(c)
    } else {
        match spec_load_str(layers[0], c) {
            Err(e) => Err(e),
            Ok(c2) => spec_load_layers(layers.drop_first(), c2),
        }
    }
}

/// Folding documents distributes over appending one at the end.
proof fn lemma_apply_docs_snoc(docs: Seq<Node>, d: Node, c: ConfigV)
    ensures
        spec_apply_docs(docs.push(d), c) == (match spec_apply_docs(docs, c) {
            Ok(c2) => spec_apply_doc(d, c2),
            Err(e) => Err::<ConfigV, ConfigErrorV>(e),
        }),
    decreases docs.len(),
{
    if docs.len() == 0 {
        assert(docs.push(d)[0] == d);
        assert(docs.push(d).drop_first() =~= Seq::<Node>::empty());
        match spec_apply_doc(d, c) {
            Err(e) => {
                assert(spec_apply_docs(docs.push(d), c) == Err::<ConfigV, ConfigErrorV>(e));
            },
            Ok(c2) => {
                assert(spec_apply_docs(Seq::<Node>::empty(), c2) == Ok::<ConfigV, ConfigErrorV>(
                    c2,
                ));
                assert(spec_apply_docs(docs.push(d), c) == Ok::<ConfigV, ConfigErrorV>(c2));
            },
        }
        assert(spec_apply_docs(docs, c) == Ok::<ConfigV, ConfigErrorV>(c));
    } else {
        assert(docs.push(d)[0] == docs[0]);
        assert(docs.push(d).drop_first() =~= docs.drop_first().push(d));
        match spec_apply_doc(docs[0], c) {
            Err(e) => {
                assert(spec_apply_docs(docs.push(d), c) == Err::<ConfigV, ConfigErrorV>(e));
                assert(spec_apply_docs(docs, c) == Err::<ConfigV, ConfigErrorV>(e));
            },
            Ok(c2) => {
                lemma_apply_docs_snoc(docs.drop_first(), d, c2);
                assert(spec_apply_docs(docs.push(d), c) == spec_apply_docs(
                    docs.drop_first().push(d),
                    c2,
                ));
                assert(spec_apply_docs(docs, c) == spec_apply_docs(docs.drop_first(), c2));
            },
        }
    }
}

/// Applies one configuration text to the accumulating configuration:
/// scans it and merges each of its documents in order. On failure the
/// configuration holds exactly the documents that preceded the failing
/// one — a scan error leaves it untouched.
#[verifier::loop_isolation(false)]
pub fn load_str(contents: &str, config: &mut Config) -> (r: Result<(), ConfigError>)
    requires
        old(config).wf(),
    ensures
        final(config).wf(),
        match r {
            Ok(_) => spec_load_str(contents@, old(config)@) == Ok::<_, ConfigErrorV>(
                final(config)@,
            ),
            Err(e) => spec_load_str(contents@, old(config)@) == Err::<ConfigV, _>(e@) && (match
                yaml_docs_of(contents@) {
                Err(_) => *final(config) == *old(config),
                Ok(docs) => exists|k: int|
                    0 <= k < docs.len() && spec_apply_docs(#[trigger] docs.take(k), old(config)@)
                        == Ok::<_, ConfigErrorV>(final(config)@) && spec_apply_doc(
                        docs[k],
                        final(config)@,
                    ) == Err::<ConfigV, _>(e@),
            }),
        },
{
    let docs = match parse_yaml(contents) {
        Ok(d) => d,
        Err(m) => return Err(ConfigError::Yaml(m)),
    };
    proof {
        assert(docs@.skip(0) =~= docs@);
        assert(docs@.take(0) =~= Seq::<Node>::empty());
    }
    let mut i: usize = 0;
    while i < docs.len()
        invariant
            i <= docs@.len(),
            config.wf(),
            spec_apply_docs(docs@, old(config)@) == spec_apply_docs(
                docs@.skip(i as int),
                config@,
            ),
            spec_apply_docs(docs@.take(i as int), old(config)@) == Ok::<_, ConfigErrorV>(
                config@,
            ),
        decreases docs@.len() - i,
    {
        proof {
            assert(docs@.skip(i as int)[0] == docs@[i as int]);
            assert(docs@.skip(i as int).drop_first() =~= docs@.skip(i as int + 1));
        }
        let ghost before = config@;
        match apply_document(&docs[i], config) {
            Ok(_) => {},
            Err(e) => {
                proof {
                    assert(spec_apply_docs(docs@.take(i as int), old(config)@) == Ok::<
                        _,
                        ConfigErrorV,
                    >(config@));
                    assert(spec_apply_doc(docs@[i as int], config@) == Err::<ConfigV, _>(e@));
                }
                return Err(e);
            },
        }
        proof {
            assert(docs@.take(i as int + 1) =~= docs@.take(i as int).push(docs@[i as int]));
            lemma_apply_docs_snoc(docs@.take(i as int), docs@[i as int], old(config)@);
        }
        i += 1;
    }
    Ok(())
}

/// Loads a configuration from layered texts: the hard-coded defaults
/// first, then each text applied in the order given. With no layers the
/// result is exactly the defaults.
#[verifier::loop_isolation(false)]
pub fn load_layers(layers: &Vec<String>, program: &str) -> (r: Result<Config, ConfigError>)
    ensures
        match r {
            Ok(c) => c.wf() && spec_load_layers(
                layers@.map_values(|s: String| s@),
                spec_default_config(program@),
            ) == Ok::<_, ConfigErrorV>(c@),
            Err(e) => spec_load_layers(
                layers@.map_values(|s: String| s@),
                spec_default_config(program@),
            ) == Err::<ConfigV, _>(e@),
        },
        layers@.len() == 0 ==> (r matches Ok(c) && c@ == spec_default_config(program@)),
{
    let mut config = default_config(program);
    let ghost ls = layers@.map_values(|s: String| s@);
    proof {
        assert(ls.skip(0) =~= ls);
    }
    let mut i: usize = 0;
    while i < layers.len()
        invariant
            i <= layers@.len(),
            config.wf(),
            spec_load_layers(ls, spec_default_config(program@)) == spec_load_layers(
                ls.skip(i as int),
                config@,
            ),
        decreases layers@.len() - i,
    {
        proof {
            assert(ls.skip(i as int)[0] == ls[i as int]);
            assert(ls[i as int] == layers@[i as int]@);
            assert(ls.skip(i as int).drop_first() =~= ls.skip(i as int + 1));
        }
        match load_str(layers[i].as_str(), &mut config) {
            Ok(_) => {},
            Err(e) => return Err(e),
        }
        i += 1;
    }
    Ok(config)
}

} // verus!
