//! The instance reader: each folder of the instances folder with its
//! configuration read as a JSON document.

use vstd::prelude::*;
use crate::json_doc::{is_json_document, parse_json_value, JsonDocument};

verus! {

/// An instance read by the instance reader: its folder and its
/// configuration as a JSON document.
#[derive(Debug)]
pub struct Instance {
    pub path: String,
    pub config: serde_json::Value,
}

/// `"instances/"`
pub open spec fn reader_prefix() -> Seq<char> {
    seq!['i', 'n', 's', 't', 'a', 'n', 'c', 'e', 's', '/']
}

/// `"/config.mccl.json"`
pub open spec fn config_file_suffix() -> Seq<char> {
    seq!['/', 'c', 'o', 'n', 'f', 'i', 'g', '.', 'm', 'c', 'c', 'l', '.', 'j', 's', 'o', 'n']
}

/// The folder of an instance named by a directory entry:
/// `"instances/{file_name}"`.
pub fn reader_instance_path(file_name: &str) -> (p: String)
    ensures
        p@ == reader_prefix() + file_name@,
{
    let mut p = String::from_str("instances/");
    p.append(file_name);
    proof {
        reveal_strlit("instances/");
    }
    assert("instances/"@ =~= reader_prefix());
    p
}

/// The configuration file in an instance's folder:
/// `"{folder}/config.mccl.json"`.
pub fn config_file_path(folder: &str) -> (p: String)
    ensures
        p@ == folder@ + config_file_suffix(),
{
    let mut p = folder.to_owned();
    p.append("/config.mccl.json");
    proof {
        reveal_strlit("/config.mccl.json");
    }
    assert("/config.mccl.json"@ =~= config_file_suffix());
    p
}

/// Why a configuration could not be read.
#[derive(Debug, PartialEq, Eq, Structural)]
pub enum ConfigError {
    /// "Can't parse file to JSON"
    NotJson,
}

/// Reads a configuration file's bytes as a JSON document: the document read
/// from these bytes, or `NotJson` where they hold none.
pub fn config_value(bytes: &[u8]) -> (r: Result<JsonDocument, ConfigError>)
    ensures
        r is Ok <==> is_json_document(bytes@),
        r matches Ok(d) ==> d.source() == bytes@,
        r matches Err(e) ==> e == ConfigError::NotJson,
{
    match parse_json_value(bytes) {
        Some(doc) => Ok(doc),
        None => Err(ConfigError::NotJson),
    }
}

/// The instances kept by the reader: the folders whose configuration
/// was read, in the order found.
pub open spec fn kept_documents(found: Seq<(Seq<char>, Option<serde_json::Value>)>) -> Seq<
    (Seq<char>, serde_json::Value),
>
    decreases found.len(),
{
    if found.len() == 0 {
        Seq::empty()
    } else {
        let last = found.last();
        let before = kept_documents(found.drop_last());
        match last.1 {
            Some(v) => before.push((last.0, v)),
            None => before,
        }
    }
}

/// How many of the found folders had their configuration read.
pub open spec fn read_count(found: Seq<(Seq<char>, Option<serde_json::Value>)>) -> nat
    decreases found.len(),
{
    if found.len() == 0 {
        0
    } else {
        read_count(found.drop_last()) + if found.last().1 is Some {
            1nat
        } else {
            0nat
        }
    }
}

/// Fewer folders were read among the first `j` found than among all.
proof fn lemma_read_count_prefix(found: Seq<(Seq<char>, Option<serde_json::Value>)>, j: int)
    requires
        0 <= j <= found.len(),
    ensures
        read_count(found.take(j)) <= read_count(found),
    decreases found.len(),
{
    if j == found.len() {
        assert(found.take(j) =~= found);
    } else {
        assert(found.drop_last().take(j) =~= found.take(j));
        lemma_read_count_prefix(found.drop_last(), j);
    }
}

/// The reader keeps exactly the found folders whose configuration was read,
/// in the order found: as many as were read, each read folder at the place
/// given by the reads before it, and nothing that was not read.
pub proof fn kept_documents_are_the_reads(found: Seq<(Seq<char>, Option<serde_json::Value>)>)
    ensures
        kept_documents(found).len() == read_count(found),
        forall|i: int|
            0 <= i < found.len() && (#[trigger] found[i]).1 is Some ==> kept_documents(
                found,
            )[read_count(found.take(i)) as int] == (found[i].0, found[i].1->0),
        forall|k: int|
            0 <= k < kept_documents(found).len() ==> exists|i: int|
                0 <= i < found.len() && found[i].1 == Some(
                    (#[trigger] kept_documents(found)[k]).1,
                ) && found[i].0 == kept_documents(found)[k].0,
    decreases found.len(),
{
    if found.len() > 0 {
        let before = found.drop_last();
        let n = found.len() - 1;
        kept_documents_are_the_reads(before);
        assert(found.take(n) =~= before);
        assert forall|i: int|
            0 <= i < found.len() && (#[trigger] found[i]).1 is Some implies kept_documents(
                found,
            )[read_count(found.take(i)) as int] == (found[i].0, found[i].1->0) by {
            if i < n {
                assert(before.take(i) =~= found.take(i));
                assert(before[i] == found[i]);
                assert(before.take(i + 1).drop_last() =~= before.take(i));
                assert(before.take(i + 1).last() == before[i]);
                lemma_read_count_prefix(before, i + 1);
            }
        }
        assert forall|k: int| 0 <= k < kept_documents(found).len() implies exists|i: int|
            0 <= i < found.len() && found[i].1 == Some(
                (#[trigger] kept_documents(found)[k]).1,
            ) && found[i].0 == kept_documents(found)[k].0 by {
            if k < kept_documents(before).len() {
                let i = choose|i: int|
                    0 <= i < before.len() && before[i].1 == Some(
                        (#[trigger] kept_documents(before)[k]).1,
                    ) && before[i].0 == kept_documents(before)[k].0;
                assert(found[i] == before[i]);
            } else {
                assert(found[n] == found.last());
            }
        }
    }
}

/// The document of an optional read.
pub open spec fn opt_document(d: Option<JsonDocument>) -> Option<serde_json::Value> {
    match d {
        Some(doc) => Some(doc.value()),
        None => None,
    }
}

/// The folders and documents of a found list.
pub open spec fn document_views(found: Seq<(String, Option<JsonDocument>)>) -> Seq<
    (Seq<char>, Option<serde_json::Value>),
> {
    found.map_values(|f: (String, Option<JsonDocument>)| (f.0@, opt_document(f.1)))
}

/// The folders and documents of read instances.
pub open spec fn read_views(list: Seq<Instance>) -> Seq<(Seq<char>, serde_json::Value)> {
    list.map_values(|r: Instance| (r.path@, r.config))
}

/// Keeps the folders whose configuration was read, in order.
pub fn collect_read_instances(found: Vec<(String, Option<JsonDocument>)>) -> (kept: Vec<
    Instance,
>)
    ensures
        read_views(kept@) == kept_documents(document_views(found@)),
        kept@.len() == read_count(document_views(found@)),
{
    let ghost all = found@;
    let count = found.len();
    let mut rest = found;
    let mut kept: Vec<Instance> = Vec::new();
    let mut i: usize = 0;
    while rest.len() > 0
        invariant
            i + rest@.len() == all.len(),
            all.len() == count,
            rest@ == all.skip(i as int),
            read_views(kept@) == kept_documents(document_views(all.take(i as int))),
        decreases rest@.len(),
    {
        let entry = rest.remove(0);
        proof {
            assert(entry == all[i as int]);
            assert(document_views(all.take(i + 1)).drop_last() =~= document_views(
                all.take(i as int),
            ));
            assert(document_views(all.take(i + 1)).last() == (entry.0@, opt_document(entry.1)));
            assert(all.skip(i + 1) =~= all.skip(i as int).drop_first());
        }
        let (path, config) = entry;
        match config {
            Some(doc) => {
                let ghost before = kept@;
                let value = doc.into_value();
                kept.push(Instance { path, config: value });
                assert(read_views(kept@) =~= read_views(before).push(
                    (kept@.last().path@, kept@.last().config),
                ));
            },
            None => {},
        }
        i = i + 1;
    }
    assert(all.take(all.len() as int) =~= all);
    proof {
        kept_documents_are_the_reads(document_views(all));
    }
    kept
}

} // verus!
