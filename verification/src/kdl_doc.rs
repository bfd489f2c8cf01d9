//! KDL documents as plain values: the nodes, entries and children that the
//! `kdl` crate parses, and the lookups that the schema reader makes on them
//! (an argument by position, a property by name, the first argument of the
//! first child node with a name).

use vstd::prelude::*;
use crate::text::str_eq;

verus! {

#[verifier::external_type_specification]
#[verifier::external_body]
pub struct ExKdlDocument(kdl::KdlDocument);

/// An entry of a node: a positional argument (no name) or a property.
#[derive(Debug)]
pub struct KdlEntryData {
    /// The property name; `None` for an argument.
    pub name: Option<String>,
    /// The value when it is a KDL string.
    pub string: Option<String>,
    /// The value as KDL writes it.
    pub text: String,
}

/// A node: its name, its entries in document order, and its child nodes
/// when it has a children block.
#[derive(Debug)]
pub struct KdlNodeData {
    pub name: String,
    pub entries: Vec<KdlEntryData>,
    pub children: Option<Vec<KdlNodeData>>,
}

/// The outcome of parsing a text as a KDL document with the `kdl` crate:
/// its top-level nodes, or the parser's error message.
pub uninterp spec fn kdl_parse_outcome(text: Seq<char>) -> Result<Vec<KdlNodeData>, String>;

/// Converts the nodes of a parsed document one for one, children included,
/// through `KdlDocument::nodes`, `KdlNode::{name, entries, children}`,
/// `KdlIdentifier::value`, `KdlEntry::{name, value}` and
/// `KdlValue::{as_string, to_string}`. Nothing is stated of it: it serves
/// `parse_kdl_nodes`, whose contract covers the whole conversion.
#[verifier::external_body]
fn kdl_nodes_data(doc: &kdl::KdlDocument) -> Vec<KdlNodeData> {
    doc.nodes().iter().map(|n| KdlNodeData {
        name: n.name().value().to_string(),
        entries: n.entries().iter().map(|e| KdlEntryData {
            name: e.name().map(|i| i.value().to_string()),
            string: e.value().as_string().map(|s| s.to_string()),
            text: e.value().to_string(),
        }).collect(),
        children: n.children().map(kdl_nodes_data),
    }).collect()
}

/// Parses a text with `kdl::KdlDocument::from_str` (the KDL v2 syntax)
/// and hands back the document's nodes as plain
/// values, or the parser's error message. The result is named by
/// `kdl_parse_outcome` of the text; nothing more is stated of it.
#[verifier::external_body]
pub fn parse_kdl_nodes(text: &str) -> (r: Result<Vec<KdlNodeData>, String>)
    ensures
        r == kdl_parse_outcome(text@),
{
    match text.parse::<kdl::KdlDocument>() {
        Ok(doc) => Ok(kdl_nodes_data(&doc)),
        Err(e) => Err(e.to_string()),
    }
}

/// The entry is a property named `key`.
pub open spec fn is_prop(e: KdlEntryData, key: Seq<char>) -> bool {
    e.name matches Some(n) && n@ == key
}

/// The `k`-th argument (entry without a name) among the entries from
/// position `i` on.
pub open spec fn nth_arg_from(es: Seq<KdlEntryData>, i: int, k: int) -> Option<KdlEntryData>
    decreases es.len() - i,
{
    if i < 0 || i >= es.len() {
        None
    } else if es[i].name is None {
        if k == 0 {
            Some(es[i])
        } else {
            nth_arg_from(es, i + 1, k - 1)
        }
    } else {
        nth_arg_from(es, i + 1, k)
    }
}

/// The `k`-th argument of a node's entries, counting from zero, as
/// `KdlNode::entry(k)` finds it.
pub open spec fn nth_arg(es: Seq<KdlEntryData>, k: int) -> Option<KdlEntryData> {
    nth_arg_from(es, 0, k)
}

/// The last property named `key` among the first `n` entries.
pub open spec fn last_prop_upto(es: Seq<KdlEntryData>, key: Seq<char>, n: int) -> Option<
    KdlEntryData,
>
    decreases n,
{
    if n <= 0 || n > es.len() {
        None
    } else if is_prop(es[n - 1], key) {
        Some(es[n - 1])
    } else {
        last_prop_upto(es, key, n - 1)
    }
}

/// The property named `key` of a node's entries, as `KdlNode::entry(key)`
/// finds it: the last one of that name.
pub open spec fn last_prop(es: Seq<KdlEntryData>, key: Seq<char>) -> Option<KdlEntryData> {
    last_prop_upto(es, key, es.len() as int)
}

/// The first node named `key` from position `i` on.
pub open spec fn first_named_from(nodes: Seq<KdlNodeData>, key: Seq<char>, i: int) -> Option<
    KdlNodeData,
>
    decreases nodes.len() - i,
{
    if i < 0 || i >= nodes.len() {
        None
    } else if nodes[i].name@ == key {
        Some(nodes[i])
    } else {
        first_named_from(nodes, key, i + 1)
    }
}

/// The first argument of the first node named `key`, as
/// `KdlDocument::get_arg(key)` finds it.
pub open spec fn get_arg(nodes: Seq<KdlNodeData>, key: Seq<char>) -> Option<KdlEntryData> {
    match first_named_from(nodes, key, 0) {
        Some(n) => nth_arg(n.entries@, 0),
        None => None,
    }
}

/// The string value of an entry, or the empty string when the value is no
/// string.
pub open spec fn string_or_empty(e: KdlEntryData) -> Seq<char> {
    match e.string {
        Some(s) => s@,
        None => seq![],
    }
}

/// The position of the `k`-th argument among the entries.
pub fn find_arg(es: &Vec<KdlEntryData>, k: usize) -> (r: Option<usize>)
    ensures
        r matches Some(i) ==> i < es@.len() && nth_arg(es@, k as int) == Some(es@[i as int]),
        r is None ==> nth_arg(es@, k as int) is None,
{
    let n = es.len();
    let mut i: usize = 0;
    let mut left: usize = k;
    while i < n
        invariant
            n == es@.len(),
            i <= n,
            left <= k,
            nth_arg(es@, k as int) == nth_arg_from(es@, i as int, left as int),
        decreases n - i,
    {
        if es[i].name.is_none() {
            if left == 0 {
                return Some(i);
            }
            left = left - 1;
        }
        i = i + 1;
    }
    None
}

/// The position of the last property named `key` among the entries.
pub fn find_prop(es: &Vec<KdlEntryData>, key: &str) -> (r: Option<usize>)
    ensures
        r matches Some(i) ==> i < es@.len() && last_prop(es@, key@) == Some(es@[i as int]),
        r is None ==> last_prop(es@, key@) is None,
{
    let n = es.len();
    let mut i: usize = 0;
    let mut cur: Option<usize> = None;
    while i < n
        invariant
            n == es@.len(),
            i <= n,
            cur matches Some(j) ==> j < i && last_prop_upto(es@, key@, i as int) == Some(
                es@[j as int],
            ),
            cur is None ==> last_prop_upto(es@, key@, i as int) is None,
        decreases n - i,
    {
        match &es[i].name {
            Some(nm) => {
                if str_eq(nm.as_str(), key) {
                    cur = Some(i);
                }
            },
            None => {},
        }
        i = i + 1;
    }
    cur
}

/// The first argument of the first node named `key`, as
/// `KdlDocument::get_arg` finds it.
pub fn find_child_arg<'a>(nodes: &'a Vec<KdlNodeData>, key: &str) -> (r: Option<&'a KdlEntryData>)
    ensures
        r matches Some(e) ==> get_arg(nodes@, key@) == Some(*e),
        r is None ==> get_arg(nodes@, key@) is None,
{
    let n = nodes.len();
    let mut i: usize = 0;
    while i < n
        invariant
            n == nodes@.len(),
            i <= n,
            first_named_from(nodes@, key@, 0) == first_named_from(nodes@, key@, i as int),
        decreases n - i,
    {
        if str_eq(nodes[i].name.as_str(), key) {
            let node = &nodes[i];
            return match find_arg(&node.entries, 0) {
                Some(j) => Some(&node.entries[j]),
                None => None,
            };
        }
        i = i + 1;
    }
    None
}

/// Copies the string value of an entry, or gives the empty string when the
/// value is no string.
pub fn string_or_default(e: &KdlEntryData) -> (r: String)
    ensures
        r@ == string_or_empty(*e),
{
    match &e.string {
        Some(s) => s.clone(),
        None => String::new(),
    }
}

/// The number of arguments (entries without a name) among the first `i`
/// entries.
pub open spec fn args_before(es: Seq<KdlEntryData>, i: int) -> int
    decreases i,
{
    if i <= 0 || i > es.len() {
        0
    } else {
        args_before(es, i - 1) + if es[i - 1].name is None {
            1int
        } else {
            0int
        }
    }
}

proof fn lemma_nth_arg_from(es: Seq<KdlEntryData>, i: int, k: int)
    requires
        0 <= i <= es.len(),
        0 <= k,
    ensures
        nth_arg_from(es, i, k) matches Some(e) ==> exists|j: int|
            i <= j < es.len() && es[j] == e && e.name is None && #[trigger] args_before(es, j)
                == args_before(es, i) + k,
        nth_arg_from(es, i, k) is None ==> args_before(es, es.len() as int) <= args_before(es, i)
            + k,
    decreases es.len() - i,
{
    if i < es.len() {
        assert(args_before(es, i + 1) == args_before(es, i) + if es[i].name is None {
            1int
        } else {
            0int
        });
        if es[i].name is None {
            if k == 0 {
                assert(args_before(es, i) == args_before(es, i) + k);
            } else {
                lemma_nth_arg_from(es, i + 1, k - 1);
            }
        } else {
            lemma_nth_arg_from(es, i + 1, k);
        }
    }
}

/// The `k`-th argument of a node's entries is the entry without a name
/// that has exactly `k` arguments before it; there is none when the node
/// has no more than `k` arguments.
pub proof fn law_nth_arg(es: Seq<KdlEntryData>, k: int)
    requires
        0 <= k,
    ensures
        nth_arg(es, k) matches Some(e) ==> exists|j: int|
            0 <= j < es.len() && es[j] == e && e.name is None && #[trigger] args_before(es, j)
                == k,
        nth_arg(es, k) is None ==> args_before(es, es.len() as int) <= k,
{
    lemma_nth_arg_from(es, 0, k);
}

/// The property named `key` is the last entry of that name; there is none
/// when no entry has that name.
pub proof fn law_last_prop(es: Seq<KdlEntryData>, key: Seq<char>, n: int)
    requires
        0 <= n <= es.len(),
    ensures
        last_prop_upto(es, key, n) matches Some(e) ==> exists|i: int|
            0 <= i < n && #[trigger] es[i] == e && is_prop(e, key) && forall|j: int|
                i < j < n ==> !is_prop(#[trigger] es[j], key),
        last_prop_upto(es, key, n) is None ==> forall|j: int|
            0 <= j < n ==> !is_prop(#[trigger] es[j], key),
    decreases n,
{
    if n > 0 && !is_prop(es[n - 1], key) {
        law_last_prop(es, key, n - 1);
    }
}

proof fn lemma_first_named_from(nodes: Seq<KdlNodeData>, key: Seq<char>, i: int)
    requires
        0 <= i <= nodes.len(),
    ensures
        first_named_from(nodes, key, i) matches Some(n) ==> exists|k: int|
            i <= k < nodes.len() && #[trigger] nodes[k] == n && n.name@ == key && forall|j: int|
                i <= j < k ==> (#[trigger] nodes[j]).name@ != key,
        first_named_from(nodes, key, i) is None ==> forall|j: int|
            i <= j < nodes.len() ==> (#[trigger] nodes[j]).name@ != key,
    decreases nodes.len() - i,
{
    if i < nodes.len() && nodes[i].name@ != key {
        lemma_first_named_from(nodes, key, i + 1);
    }
}

/// A child node's argument by name is the first argument of the first node
/// of that name; there is none when no node has that name.
pub proof fn law_get_arg(nodes: Seq<KdlNodeData>, key: Seq<char>)
    ensures
        (forall|j: int| 0 <= j < nodes.len() ==> (#[trigger] nodes[j]).name@ != key) ==> get_arg(
            nodes,
            key,
        ) is None,
        forall|k: int|
            0 <= k < nodes.len() && (#[trigger] nodes[k]).name@ == key && (forall|j: int|
                0 <= j < k ==> (#[trigger] nodes[j]).name@ != key) ==> get_arg(nodes, key)
                == nth_arg(nodes[k].entries@, 0),
{
    lemma_first_named_from(nodes, key, 0);
    assert forall|k: int|
        0 <= k < nodes.len() && (#[trigger] nodes[k]).name@ == key && (forall|j: int|
            0 <= j < k ==> (#[trigger] nodes[j]).name@ != key) implies get_arg(nodes, key)
        == nth_arg(nodes[k].entries@, 0) by {
        match first_named_from(nodes, key, 0) {
            Some(n) => {
                let k2 = choose|k2: int|
                    0 <= k2 < nodes.len() && #[trigger] nodes[k2] == n && n.name@ == key
                        && forall|j: int| 0 <= j < k2 ==> (#[trigger] nodes[j]).name@ != key;
                if k2 < k {
                    assert(nodes[k2].name@ != key);
                } else if k < k2 {
                    assert(nodes[k].name@ != key);
                }
            },
            None => {
                assert(nodes[k].name@ != key);
            },
        }
    }
}

} // verus!
