//! The library's own model of a dynamically-typed document node.
//!
//! A parsed YAML document is rendered into this enum before any logic reads
//! it; all field access goes through an explicit lookup returning an
//! optional node, never through a sentinel value.
use vstd::prelude::*;

verus! {

/// One dynamically-typed document node. Scalars that the loader never
/// coerces (booleans, floats, null, and the like) are collapsed into
/// `Other`, which fails every typed access exactly as a wrong type does.
#[derive(Debug)]
pub enum Node {
    Str(String),
    Int(i64),
    List(Vec<Node>),
    Dict(Vec<(Node, Node)>),
    Other,
}

/// The character sequence held by a string node.
pub open spec fn node_str(n: Node) -> Option<Seq<char>> {
    match n {
        Node::Str(s) => Some(s@),
        _ => None,
    }
}

/// The integer held by an integer node.
pub open spec fn node_int(n: Node) -> Option<i64> {
    match n {
        Node::Int(i) => Some(i),
        _ => None,
    }
}

/// The items of a list node.
pub open spec fn node_list(n: Node) -> Option<Seq<Node>> {
    match n {
        Node::List(v) => Some(v@),
        _ => None,
    }
}

/// The key/value entries of a mapping node, in document order.
pub open spec fn node_entries(n: Node) -> Option<Seq<(Node, Node)>> {
    match n {
        Node::Dict(v) => Some(v@),
        _ => None,
    }
}

/// First entry of `es` whose key is the string `key`.
pub open spec fn lookup_entries(es: Seq<(Node, Node)>, key: Seq<char>) -> Option<Node>
    decreases es.len(),
{
    if es.len() == 0 {
        None
    } else if node_str(es[0].0) == Some(key) {
        Some(es[0].1)
    } else {
        lookup_entries(es.drop_first(), key)
    }
}

/// Value under the string key `key` when `n` is a mapping that has it;
/// `None` when the key is absent or `n` is not a mapping.
pub open spec fn node_get(n: Node, key: Seq<char>) -> Option<Node> {
    match node_entries(n) {
        Some(es) => lookup_entries(es, key),
        None => None,
    }
}

impl Node {
    /// Explicit lookup of a string key in a mapping node.
    pub fn get<'a>(&'a self, key: &str) -> (r: Option<&'a Node>)
        ensures
            match r {
                Some(n) => node_get(*self, key@) == Some(*n),
                None => node_get(*self, key@) is None,
            },
    {
        let key_string: String = key.to_owned();
        match self {
            Node::Dict(es) => {
                let mut i: usize = 0;
                proof {
                    assert(es@.skip(0) =~= es@);
                }
                while i < es.len()
                    invariant
                        i <= es@.len(),
                        key_string@ == key@,
                        node_get(*self, key@) == lookup_entries(es@.skip(i as int), key@),
                    decreases es@.len() - i,
                {
                    let entry = &es[i];
                    let matched: bool = match &entry.0 {
                        Node::Str(s) => *s == key_string,
                        _ => false,
                    };
                    proof {
                        assert(es@.skip(i as int)[0] == es@[i as int]);
                        assert(es@.skip(i as int).drop_first() =~= es@.skip(i as int + 1));
                    }
                    if matched {
                        return Some(&entry.1);
                    }
                    i += 1;
                }
                None
            },
            _ => None,
        }
    }

    /// Typed access to a string node.
    pub fn as_str(&self) -> (r: Option<&String>)
        ensures
            match r {
                Some(s) => node_str(*self) == Some(s@),
                None => node_str(*self) is None,
            },
    {
        match self {
            Node::Str(s) => Some(s),
            _ => None,
        }
    }

    /// Typed access to an integer node.
    pub fn as_int(&self) -> (r: Option<i64>)
        ensures
            r == node_int(*self),
    {
        match self {
            Node::Int(i) => Some(*i),
            _ => None,
        }
    }

    /// Typed access to the items of a list node.
    pub fn as_list(&self) -> (r: Option<&Vec<Node>>)
        ensures
            match r {
                Some(v) => node_list(*self) == Some(v@),
                None => node_list(*self) is None,
            },
    {
        match self {
            Node::List(v) => Some(v),
            _ => None,
        }
    }

    /// Typed access to the entries of a mapping node.
    pub fn as_entries(&self) -> (r: Option<&Vec<(Node, Node)>>)
        ensures
            match r {
                Some(v) => node_entries(*self) == Some(v@),
                None => node_entries(*self) is None,
            },
    {
        match self {
            Node::Dict(v) => Some(v),
            _ => None,
        }
    }
}

} // verus!
