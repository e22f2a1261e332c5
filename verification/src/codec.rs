//! The metadata codec: from the TOML text of an artifact's metadata to the
//! environment that it declares, and from an environment to a document that
//! declares it.
//!
//! The text is parsed by the `toml` crate. What is verified here is the step
//! between the parsed document and the environment: which fields are read,
//! which defaults they take, which shapes are refused, and that a document
//! made of an environment decodes to it again.

use crate::document::{
    array_value, integer_value, new_table, no_entries, node_of, parse_document, table_get,
    table_insert, table_keys, table_of, table_value, text_value, toml_document, Node,
};
use crate::environment::{distinct_keys, pairs_map, texts_of, Environment, EnvironmentView};
use vstd::prelude::*;

verus! {

/// Why no environment could be read out of an artifact.
#[derive(Clone, Copy, Debug, PartialEq, Eq, Structural)]
pub enum MetadataError {
    /// The artifact is no well-formed WebAssembly binary.
    InvalidBinaryFormat,
    /// The metadata is no TOML, or one of its fields has the wrong shape.
    MalformedMetadata,
}

/// The value under `key`, if the table has the key.
pub open spec fn entry(table: Map<Seq<char>, Node>, key: Seq<char>) -> Option<Node> {
    if table.dom().contains(key) {
        Some(table[key])
    } else {
        None
    }
}

/// The text that a text node holds.
pub open spec fn text_in(node: Node) -> Seq<char> {
    match node {
        Node::Text(text) => text,
        _ => Seq::empty(),
    }
}

/// The declared exit status: 0 where the key is absent, `None` where the
/// value is no integer or does not fit in 32 bits.
pub open spec fn exit_field(table: Map<Seq<char>, Node>) -> Option<i32> {
    match entry(table, "exit"@) {
        None => Some(0i32),
        Some(Node::Integer(i)) => if i32::MIN <= i <= i32::MAX {
            Some(i as i32)
        } else {
            None
        },
        Some(_) => None,
    }
}

/// A text field: empty where the key is absent, `None` where the value is no
/// string.
pub open spec fn text_field(table: Map<Seq<char>, Node>, key: Seq<char>) -> Option<Seq<char>> {
    match entry(table, key) {
        None => Some(Seq::empty()),
        Some(Node::Text(text)) => Some(text),
        Some(_) => None,
    }
}

/// Every node of the sequence is a string.
pub open spec fn all_text(nodes: Seq<Node>) -> bool {
    forall|i: int| 0 <= i < nodes.len() ==> nodes[i] is Text
}

/// A field that lists strings: empty where the key is absent, `None` where
/// the value is no array or one of its items is no string.
pub open spec fn list_field(table: Map<Seq<char>, Node>, key: Seq<char>) -> Option<
    Seq<Seq<char>>,
> {
    match entry(table, key) {
        None => Some(Seq::empty()),
        Some(Node::Array(nodes)) => if all_text(nodes) {
            Some(Seq::new(nodes.len(), |i: int| text_in(nodes[i])))
        } else {
            None
        },
        Some(_) => None,
    }
}

/// Every value of the table is a string.
pub open spec fn all_text_values(entries: Map<Seq<char>, Node>) -> bool {
    forall|k: Seq<char>| entries.dom().contains(k) ==> entries[k] is Text
}

/// A field that maps strings to strings: empty where the key is absent,
/// `None` where the value is no table or one of its values is no string.
pub open spec fn map_field(table: Map<Seq<char>, Node>, key: Seq<char>) -> Option<
    Map<Seq<char>, Seq<char>>,
> {
    match entry(table, key) {
        None => Some(Map::empty()),
        Some(Node::Table(entries)) => if all_text_values(entries) {
            Some(
                Map::new(
                    |k: Seq<char>| entries.dom().contains(k),
                    |k: Seq<char>| text_in(entries[k]),
                ),
            )
        } else {
            None
        },
        Some(_) => None,
    }
}

/// The environment that a document declares, or `None` where a field has the
/// wrong shape. Keys that the environment does not know are passed over.
pub open spec fn decode_node(document: Node) -> Option<EnvironmentView> {
    match document {
        Node::Table(table) => match (
            exit_field(table),
            map_field(table, "vars"@),
            list_field(table, "args"@),
            list_field(table, "dirs"@),
            text_field(table, "stdin"@),
            text_field(table, "stdout"@),
            text_field(table, "stderr"@),
        ) {
            (
                Some(exit),
                Some(vars),
                Some(args),
                Some(dirs),
                Some(stdin),
                Some(stdout),
                Some(stderr),
            ) => Some(
                EnvironmentView { exit, vars, args, dirs: dirs.to_set(), stdin, stdout, stderr },
            ),
            _ => None,
        },
        _ => None,
    }
}

/// Reads the declared exit status out of the table.
fn read_exit(table: &toml::value::Table) -> (exit: Option<i32>)
    ensures
        exit == exit_field(table_of(*table)),
{
    match table_get(table, "exit") {
        None => Some(0),
        Some(value) => match value.as_integer() {
            Some(i) => if -2147483648 <= i && i <= 2147483647 {
                Some(i as i32)
            } else {
                None
            },
            None => None,
        },
    }
}

/// Reads a text field out of the table.
fn read_text(table: &toml::value::Table, key: &str) -> (text: Option<String>)
    ensures
        match text {
            Some(t) => text_field(table_of(*table), key@) == Some(t@),
            None => text_field(table_of(*table), key@) is None,
        },
{
    match table_get(table, key) {
        None => Some(String::new()),
        Some(value) => match value.as_str() {
            Some(t) => Some(t.to_owned()),
            None => None,
        },
    }
}

/// Reads the strings out of an array: `None` where an item is no string.
fn read_texts(items: &Vec<toml::Value>) -> (list: Option<Vec<String>>)
    ensures
        match list {
            Some(l) => l@.len() == items@.len() && forall|i: int|
                0 <= i < items@.len() ==> node_of(items@[i]) == Node::Text(#[trigger] l@[i]@),
            None => exists|i: int| 0 <= i < items@.len() && !(node_of(items@[i]) is Text),
        },
{
    let mut list: Vec<String> = Vec::new();
    let mut at: usize = 0;
    while at < items.len()
        invariant
            at <= items@.len(),
            list@.len() == at,
            forall|i: int| 0 <= i < at ==> node_of(items@[i]) == Node::Text(#[trigger] list@[i]@),
        decreases items@.len() - at,
    {
        match items[at].as_str() {
            Some(t) => {
                list.push(t.to_owned());
            },
            None => {
                return None;
            },
        }
        at = at + 1;
    }
    Some(list)
}

/// Reads a field that lists strings out of the table.
fn read_list(table: &toml::value::Table, key: &str) -> (list: Option<Vec<String>>)
    ensures
        match list {
            Some(l) => list_field(table_of(*table), key@) == Some(texts_of(l@)),
            None => list_field(table_of(*table), key@) is None,
        },
{
    match table_get(table, key) {
        None => {
            Some(Vec::new())
        },
        Some(value) => match value.as_array() {
            None => None,
            Some(items) => {
                let list = read_texts(items);
                proof {
                    let nodes = node_of(*value)->Array_0;
                    if list is Some {
                        assert forall|i: int| 0 <= i < nodes.len() implies nodes[i] == Node::Text(
                            list->Some_0@[i]@,
                        ) by {
                            assert(node_of(items@[i]) == nodes[i]);
                        }
                        assert(Seq::new(nodes.len(), |i: int| text_in(nodes[i])) =~= texts_of(
                            list->Some_0@,
                        ));
                    }
                }
                list
            },
        },
    }
}

/// Tells whether `item` is among the strings of `list`.
fn holds(list: &Vec<String>, item: &String) -> (found: bool)
    ensures
        found == texts_of(list@).contains(item@),
{
    let mut at: usize = 0;
    while at < list.len()
        invariant
            at <= list@.len(),
            forall|i: int| 0 <= i < at ==> list@[i]@ != item@,
        decreases list@.len() - at,
    {
        if list[at] == *item {
            assert(texts_of(list@)[at as int] == item@);
            return true;
        }
        at = at + 1;
    }
    false
}

/// Keeps the first occurrence of each string.
fn unique(list: &Vec<String>) -> (kept: Vec<String>)
    ensures
        texts_of(kept@).no_duplicates(),
        texts_of(kept@).to_set() == texts_of(list@).to_set(),
{
    let mut kept: Vec<String> = Vec::new();
    let mut at: usize = 0;
    while at < list.len()
        invariant
            at <= list@.len(),
            texts_of(kept@).no_duplicates(),
            forall|i: int| 0 <= i < at ==> texts_of(kept@).contains(#[trigger] list@[i]@),
            forall|i: int|
                0 <= i < kept@.len() ==> texts_of(list@).contains(#[trigger] texts_of(kept@)[i]),
        decreases list@.len() - at,
    {
        let ghost before = kept@;
        if !holds(&kept, &list[at]) {
            kept.push(list[at].clone());
            proof {
                let item = list@[at as int]@;
                assert(texts_of(kept@) =~= texts_of(before).push(item));
                assert(texts_of(list@)[at as int] == item);
                assert forall|i: int| 0 <= i < at + 1 implies texts_of(kept@).contains(
                    #[trigger] list@[i]@,
                ) by {
                    if i < at {
                        let j = choose|j: int|
                            0 <= j < texts_of(before).len() && texts_of(before)[j] == list@[i]@;
                        assert(texts_of(kept@)[j] == list@[i]@);
                    } else {
                        assert(texts_of(kept@)[before.len() as int] == item);
                    }
                }
            }
        }
        at = at + 1;
    }
    kept
}

/// Reads a field that maps strings to strings out of the table.
fn read_map(table: &toml::value::Table, key: &str) -> (pairs: Option<
    Vec<(String, String)>,
>)
    ensures
        match pairs {
            Some(p) => distinct_keys(p@) && map_field(table_of(*table), key@) == Some(
                pairs_map(p@),
            ),
            None => map_field(table_of(*table), key@) is None,
        },
{
    let inner = match table_get(table, key) {
        None => {
            return Some(Vec::new());
        },
        Some(value) => match value.as_table() {
            Some(inner) => inner,
            None => {
                return None;
            },
        },
    };
    let ghost entries = table_of(*inner);
    let keys = table_keys(inner);
    let mut pairs: Vec<(String, String)> = Vec::new();
    let mut at: usize = 0;
    while at < keys.len()
        invariant
            at <= keys@.len(),
            pairs@.len() == at,
            entries == table_of(*inner),
            entry(table_of(*table), key@) == Some(Node::Table(entries)),
            forall|i: int, j: int| 0 <= i < j < keys@.len() ==> keys@[i]@ != keys@[j]@,
            forall|i: int| 0 <= i < keys@.len() ==> entries.dom().contains(#[trigger] keys@[i]@),
            forall|i: int|
                0 <= i < at ==> (#[trigger] pairs@[i]).0@ == keys@[i]@ && entries[keys@[i]@]
                    == Node::Text(pairs@[i].1@),
        decreases keys@.len() - at,
    {
        let name = keys[at].clone();
        let text = match table_get(inner, name.as_str()) {
            Some(value) => match value.as_str() {
                Some(t) => t.to_owned(),
                None => {
                    return None;
                },
            },
            None => {
                return None;
            },
        };
        pairs.push((name, text));
        at = at + 1;
    }
    proof {
        assert forall|k: Seq<char>| entries.dom().contains(k) implies entries[k] is Text by {
            let i = choose|i: int| 0 <= i < keys@.len() && keys@[i]@ == k;
            assert(pairs@[i].0@ == k);
        }
        let wanted = Map::new(
            |k: Seq<char>| entries.dom().contains(k),
            |k: Seq<char>| text_in(entries[k]),
        );
        assert forall|k: Seq<char>| pairs_map(pairs@).dom().contains(k) <==> wanted.dom().contains(
            k,
        ) by {
            if entries.dom().contains(k) {
                let i = choose|i: int| 0 <= i < keys@.len() && keys@[i]@ == k;
                assert(pairs@[i].0@ == k);
            }
        }
        assert(pairs_map(pairs@) =~= wanted);
    }
    Some(pairs)
}

/// The environment that the metadata `bytes` declare.
pub open spec fn decode_bytes(bytes: Seq<u8>) -> Result<EnvironmentView, MetadataError> {
    match toml_document(bytes) {
        Some(document) => match decode_node(document) {
            Some(env) => Ok(env),
            None => Err(MetadataError::MalformedMetadata),
        },
        None => Err(MetadataError::MalformedMetadata),
    }
}

/// The view of a decoded environment.
pub open spec fn decoded(result: Result<Environment, MetadataError>) -> Result<
    EnvironmentView,
    MetadataError,
> {
    match result {
        Ok(env) => Ok(env@),
        Err(e) => Err(e),
    }
}

impl Environment {
    /// Reads the environment out of a parsed metadata document.
    ///
    /// Every field may be absent and then takes its default. `None` comes
    /// exactly where the document is no table, or a field has the wrong shape.
    pub fn from_document(document: &toml::Value) -> (env: Option<Environment>)
        ensures
            match env {
                Some(e) => e.wf() && decode_node(node_of(*document)) == Some(e@),
                None => decode_node(node_of(*document)) is None,
            },
    {
        let table = match document.as_table() {
            Some(table) => table,
            None => {
                return None;
            },
        };
        let exit = match read_exit(table) {
            Some(exit) => exit,
            None => {
                return None;
            },
        };
        let vars = match read_map(table, "vars") {
            Some(vars) => vars,
            None => {
                return None;
            },
        };
        let args = match read_list(table, "args") {
            Some(args) => args,
            None => {
                return None;
            },
        };
        let dirs = match read_list(table, "dirs") {
            Some(dirs) => unique(&dirs),
            None => {
                return None;
            },
        };
        let stdin = match read_text(table, "stdin") {
            Some(stdin) => stdin,
            None => {
                return None;
            },
        };
        let stdout = match read_text(table, "stdout") {
            Some(stdout) => stdout,
            None => {
                return None;
            },
        };
        let stderr = match read_text(table, "stderr") {
            Some(stderr) => stderr,
            None => {
                return None;
            },
        };
        Some(Environment { exit, vars, args, dirs, stdin, stdout, stderr })
    }

    /// Decodes the metadata of an artifact: TOML text whose top-level keys
    /// are the fields of the environment, each of them optional.
    pub fn decode(bytes: &[u8]) -> (result: Result<Environment, MetadataError>)
        ensures
            result matches Ok(env) ==> env.wf(),
            decoded(result) == decode_bytes(bytes@),
    {
        match parse_document(bytes) {
            Ok(document) => match Environment::from_document(&document) {
                Some(env) => Ok(env),
                None => Err(MetadataError::MalformedMetadata),
            },
            Err(_) => Err(MetadataError::MalformedMetadata),
        }
    }
}

/// The strings of a list, each as a text node.
pub open spec fn text_nodes(texts: Seq<Seq<char>>) -> Seq<Node> {
    Seq::new(texts.len(), |i: int| Node::Text(texts[i]))
}

/// The table that spells out a map of strings.
pub open spec fn text_table(texts: Map<Seq<char>, Seq<char>>) -> Map<Seq<char>, Node> {
    Map::new(|k: Seq<char>| texts.dom().contains(k), |k: Seq<char>| Node::Text(texts[k]))
}

/// The document that spells out every field of an environment, with the
/// directories in the order `dirs`.
pub open spec fn spelled(env: EnvironmentView, dirs: Seq<Seq<char>>) -> Node {
    Node::Table(
        no_entries().insert("exit"@, Node::Integer(env.exit as i64)).insert(
            "vars"@,
            Node::Table(text_table(env.vars)),
        ).insert("args"@, Node::Array(text_nodes(env.args))).insert(
            "dirs"@,
            Node::Array(text_nodes(dirs)),
        ).insert("stdin"@, Node::Text(env.stdin)).insert("stdout"@, Node::Text(env.stdout)).insert(
            "stderr"@,
            Node::Text(env.stderr),
        ),
    )
}

/// The document that spells out every field of an environment.
pub open spec fn document_of(env: EnvironmentView) -> Node {
    spelled(env, env.dirs.to_seq())
}

/// Decoding a document that spells out an environment gives that environment
/// back, field for field, whatever the fields hold and in whatever order the
/// directories are listed.
pub proof fn decode_inverts_spelling(env: EnvironmentView, dirs: Seq<Seq<char>>)
    requires
        dirs.to_set() == env.dirs,
    ensures
        decode_node(spelled(env, dirs)) == Some(env),
{
    reveal_strlit("exit");
    reveal_strlit("vars");
    reveal_strlit("args");
    reveal_strlit("dirs");
    reveal_strlit("stdin");
    reveal_strlit("stdout");
    reveal_strlit("stderr");
    let table = spelled(env, dirs)->Table_0;
    assert("exit"@ != "vars"@ && "exit"@ != "args"@ && "exit"@ != "dirs"@) by {
        assert("exit"@[0] == 'e' && "vars"@[0] == 'v' && "args"@[0] == 'a' && "dirs"@[0] == 'd');
    }
    assert("vars"@ != "args"@ && "vars"@ != "dirs"@ && "args"@ != "dirs"@) by {
        assert("vars"@[0] == 'v' && "args"@[0] == 'a' && "dirs"@[0] == 'd');
    }
    assert("stdout"@ != "stderr"@) by {
        assert("stdout"@[3] == 'o' && "stderr"@[3] == 'e');
    }
    assert("stdin"@.len() == 5 && "stdout"@.len() == 6 && "stderr"@.len() == 6 && "exit"@.len()
        == 4 && "vars"@.len() == 4 && "args"@.len() == 4 && "dirs"@.len() == 4);
    assert(map_field(table, "vars"@) == Some(env.vars));
    assert(list_field(table, "args"@) == Some(env.args));
    assert(list_field(table, "dirs"@) == Some(dirs));
}

/// Decoding the document that spells out an environment gives that
/// environment back: the codec loses nothing of what an environment holds.
pub proof fn decode_inverts_document_of(env: EnvironmentView)
    requires
        env.dirs.finite(),
    ensures
        decode_node(document_of(env)) == Some(env),
{
    env.dirs.lemma_to_seq_to_set_id();
    decode_inverts_spelling(env, env.dirs.to_seq());
}

/// The values that hold the strings of a list, in its order.
fn text_values(list: &Vec<String>) -> (items: Vec<toml::Value>)
    ensures
        items@.len() == list@.len(),
        forall|i: int|
            0 <= i < items@.len() ==> node_of(#[trigger] items@[i]) == Node::Text(list@[i]@),
{
    let mut items: Vec<toml::Value> = Vec::new();
    let mut at: usize = 0;
    while at < list.len()
        invariant
            at <= list@.len(),
            items@.len() == at,
            forall|i: int| 0 <= i < at ==> node_of(#[trigger] items@[i]) == Node::Text(list@[i]@),
        decreases list@.len() - at,
    {
        items.push(text_value(list[at].clone()));
        at = at + 1;
    }
    items
}

/// The table that holds each pair, the value as a string under the key.
fn pair_table(pairs: &Vec<(String, String)>) -> (table: toml::value::Table)
    ensures
        distinct_keys(pairs@) ==> table_of(table) == text_table(pairs_map(pairs@)),
{
    let mut table = new_table();
    let mut at: usize = 0;
    while at < pairs.len()
        invariant
            at <= pairs@.len(),
            forall|k: Seq<char>|
                table_of(table).dom().contains(k) <==> exists|i: int|
                    0 <= i < at && (#[trigger] pairs@[i]).0@ == k,
            distinct_keys(pairs@) ==> forall|i: int|
                0 <= i < at ==> table_of(table)[(#[trigger] pairs@[i]).0@] == Node::Text(
                    pairs@[i].1@,
                ),
        decreases pairs@.len() - at,
    {
        let ghost before = table_of(table);
        table_insert(&mut table, pairs[at].0.clone(), text_value(pairs[at].1.clone()));
        proof {
            let key = pairs@[at as int].0@;
            assert forall|k: Seq<char>|
                table_of(table).dom().contains(k) <==> exists|i: int|
                    0 <= i < at + 1 && (#[trigger] pairs@[i]).0@ == k by {
                if before.dom().contains(k) {
                    let i = choose|i: int| 0 <= i < at && (#[trigger] pairs@[i]).0@ == k;
                    assert(0 <= i < at + 1 && pairs@[i].0@ == k);
                }
                if k == key {
                    assert(pairs@[at as int].0@ == k);
                }
            }
        }
        at = at + 1;
    }
    proof {
        if distinct_keys(pairs@) {
            assert(table_of(table) =~= text_table(pairs_map(pairs@)));
        }
    }
    table
}

impl Environment {
    /// Spells the environment out as a metadata document, every field under
    /// its key.
    ///
    /// Where no variable is set twice, the document decodes to the same
    /// environment again: `from_document` gives back what `to_document` was
    /// given.
    pub fn to_document(&self) -> (document: toml::Value)
        ensures
            distinct_keys(self.vars@) ==> node_of(document) == spelled(
                self@,
                texts_of(self.dirs@),
            ),
            distinct_keys(self.vars@) ==> decode_node(node_of(document)) == Some(self@),
    {
        let vars = pair_table(&self.vars);
        let args = text_values(&self.args);
        let dirs = text_values(&self.dirs);
        proof {
            assert(Seq::new(args@.len(), |i: int| node_of(args@[i])) =~= text_nodes(
                texts_of(self.args@),
            ));
            assert(Seq::new(dirs@.len(), |i: int| node_of(dirs@[i])) =~= text_nodes(
                texts_of(self.dirs@),
            ));
        }
        let mut table = new_table();
        table_insert(&mut table, "exit".to_owned(), integer_value(self.exit));
        table_insert(&mut table, "vars".to_owned(), table_value(vars));
        table_insert(&mut table, "args".to_owned(), array_value(args));
        table_insert(&mut table, "dirs".to_owned(), array_value(dirs));
        table_insert(&mut table, "stdin".to_owned(), text_value(self.stdin.clone()));
        table_insert(&mut table, "stdout".to_owned(), text_value(self.stdout.clone()));
        table_insert(&mut table, "stderr".to_owned(), text_value(self.stderr.clone()));
        let document = table_value(table);
        proof {
            decode_inverts_spelling(self@, texts_of(self.dirs@));
        }
        document
    }
}

} // verus!
