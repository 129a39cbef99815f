//! The local registry file as a value in memory: an ordered sequence of node
//! records, loaded from what was read of the file and merged by identity.

use vstd::prelude::*;
use crate::error::{CliError, CliErrorView, InvalidNodeError, IoFailure};
use crate::node::{
    built, checked_record, fields_of, plain_record, valid_record, NodeResponse, NodeResponseView,
    NodeView, RegistryNode,
};

verus! {

/// What was found at the path of a registry file.
#[derive(Debug)]
pub enum FileContent {
    /// Nothing exists at the path.
    Absent,
    /// Something exists but could not be opened.
    Unreadable(IoFailure),
    /// The file was read, and is not a sequence of node records.
    Malformed,
    /// The records of the file, in its order, as they were read.
    Records(Vec<NodeResponse>),
}

/// A `FileContent` over character sequences.
pub enum FileContentView {
    Absent,
    Unreadable(IoFailure),
    Malformed,
    Records(Seq<NodeResponseView>),
}

impl View for FileContent {
    type V = FileContentView;

    open spec fn view(&self) -> FileContentView {
        match self {
            FileContent::Absent => FileContentView::Absent,
            FileContent::Unreadable(failure) => FileContentView::Unreadable(*failure),
            FileContent::Malformed => FileContentView::Malformed,
            FileContent::Records(records) => FileContentView::Records(
                records@.map_values(|record: NodeResponse| record@),
            ),
        }
    }
}

/// The records that a file's content stands for. A missing file stands for
/// no records. A file that cannot be opened is an error of the environment;
/// one that holds anything but well-formed node records is malformed.
pub open spec fn loaded(path: Seq<char>, content: FileContentView) -> Result<
    Seq<NodeView>,
    CliErrorView,
> {
    match content {
        FileContentView::Absent => Ok(Seq::empty()),
        FileContentView::Unreadable(failure) => Err(
            CliErrorView::EnvironmentError("Failed to open '"@ + path + "': "@ + failure.text()),
        ),
        FileContentView::Malformed => Err(CliErrorView::MalformedRegistryFile(path)),
        FileContentView::Records(records) => if forall|i: int|
            0 <= i < records.len() ==> built(fields_of(#[trigger] records[i])) is Ok {
            Ok(Seq::new(records.len(), |i: int| built(fields_of(records[i]))->Ok_0))
        } else {
            Err(CliErrorView::MalformedRegistryFile(path))
        },
    }
}

/// Where the first record of `identity` stands, if there is one.
pub open spec fn position_of(nodes: Seq<NodeView>, identity: Seq<char>) -> Option<int> {
    nodes.map_values(|node: NodeView| node.identity).index_of_first(identity)
}

/// No two records have the same identity.
pub open spec fn distinct_identities(nodes: Seq<NodeView>) -> bool {
    forall|i: int, j: int| 0 <= i < j < nodes.len() ==> nodes[i].identity != nodes[j].identity
}

/// The sequence after a record is merged in by its identity. A record of a
/// new identity goes to the end. One whose identity is already held takes
/// the old record's place only when `force` is set: the old record leaves
/// its position and the new one goes to the end. Without `force` the merge
/// is refused.
pub open spec fn upserted(nodes: Seq<NodeView>, record: NodeView, force: bool) -> Result<
    Seq<NodeView>,
    CliErrorView,
> {
    match position_of(nodes, record.identity) {
        None => Ok(nodes.push(record)),
        Some(at) => if force {
            Ok(nodes.remove(at).push(record))
        } else {
            Err(CliErrorView::DuplicateIdentity(record.identity))
        },
    }
}

/// What `position_of` finds: the first record of the identity, or that no
/// record has it.
pub proof fn lemma_position_of(nodes: Seq<NodeView>, identity: Seq<char>)
    ensures
        match position_of(nodes, identity) {
            Some(at) => {
                &&& 0 <= at < nodes.len()
                &&& nodes[at].identity == identity
                &&& forall|j: int| 0 <= j < at ==> nodes[j].identity != identity
            },
            None => forall|j: int| 0 <= j < nodes.len() ==> nodes[j].identity != identity,
        },
{
    let identities = nodes.map_values(|node: NodeView| node.identity);
    identities.index_of_first_ensures(identity);
    match position_of(nodes, identity) {
        Some(at) => {
            assert forall|j: int| 0 <= j < at implies nodes[j].identity != identity by {
                assert(identities[j] != identity);
            }
        },
        None => {
            assert forall|j: int| 0 <= j < nodes.len() implies nodes[j].identity != identity by {
                assert(identities[j] == nodes[j].identity);
                assert(identities.contains(identities[j]));
            }
        },
    }
}

/// A refused merge needs an identity that is already held and no `force`;
/// a merge that replaces keeps the length, takes the old record out of its
/// position and puts the new one at the end; and a merge into a sequence
/// without repeated identities leaves none repeated.
pub proof fn lemma_upserted(nodes: Seq<NodeView>, record: NodeView, force: bool)
    ensures
        upserted(nodes, record, force) is Err <==> position_of(nodes, record.identity) is Some
            && !force,
        upserted(nodes, record, force) is Err ==> upserted(nodes, record, force) == Err::<
            Seq<NodeView>,
            _,
        >(CliErrorView::DuplicateIdentity(record.identity)),
        position_of(nodes, record.identity) is Some && force ==> {
            let at = position_of(nodes, record.identity)->0;
            &&& upserted(nodes, record, force) is Ok
            &&& upserted(nodes, record, force)->Ok_0.len() == nodes.len()
            &&& upserted(nodes, record, force)->Ok_0.last() == record
            &&& upserted(nodes, record, force)->Ok_0.drop_last() == nodes.remove(at)
        },
        position_of(nodes, record.identity) is None ==> upserted(nodes, record, force) == Ok::<
            _,
            CliErrorView,
        >(nodes.push(record)),
        upserted(nodes, record, force) matches Ok(merged) ==> merged.len() > 0 && merged.last()
            == record && position_of(merged, record.identity) is Some,
        distinct_identities(nodes) && upserted(nodes, record, force) is Ok ==> {
            let merged = upserted(nodes, record, force)->Ok_0;
            &&& distinct_identities(merged)
            &&& position_of(merged, record.identity) == Some(merged.len() - 1)
        },
{
    lemma_position_of(nodes, record.identity);
    if let Ok(merged) = upserted(nodes, record, force) {
        lemma_position_of(merged, record.identity);
        assert(merged[merged.len() - 1].identity == record.identity);
    }
    match position_of(nodes, record.identity) {
        Some(at) => {
            if force {
                let merged = nodes.remove(at).push(record);
                assert(merged.drop_last() =~= nodes.remove(at));
                if distinct_identities(nodes) {
                    assert forall|i: int, j: int|
                        0 <= i < j < merged.len() implies merged[i].identity
                        != merged[j].identity by {
                        let a = if i < at { i } else { i + 1 };
                        if j < merged.len() - 1 {
                            let b = if j < at { j } else { j + 1 };
                            assert(nodes[a].identity != nodes[b].identity);
                        } else {
                            assert(nodes[a].identity != nodes[at].identity);
                        }
                    }
                    lemma_position_of(merged, record.identity);
                    assert(merged[merged.len() - 1].identity == record.identity);
                }
            }
        },
        None => {
            let merged = nodes.push(record);
            if distinct_identities(nodes) {
                assert forall|i: int, j: int| 0 <= i < j < merged.len() implies merged[i].identity
                    != merged[j].identity by {
                    if j < merged.len() - 1 {
                        assert(nodes[i].identity != nodes[j].identity);
                    } else {
                        assert(nodes[i].identity != record.identity);
                    }
                }
                lemma_position_of(merged, record.identity);
                assert(merged[merged.len() - 1].identity == record.identity);
            }
        },
    }
}

/// Records that are written out in their plain form and read back load as
/// the same records, in the same order: saving and loading through a format
/// that keeps the plain form loses nothing.
pub proof fn lemma_saved_records_reload(path: Seq<char>, nodes: Seq<NodeView>)
    requires
        forall|i: int| 0 <= i < nodes.len() ==> valid_record(#[trigger] nodes[i]),
    ensures
        loaded(
            path,
            FileContentView::Records(nodes.map_values(|node: NodeView| plain_record(node))),
        ) == Ok::<_, CliErrorView>(nodes),
{
    let records = nodes.map_values(|node: NodeView| plain_record(node));
    assert forall|i: int| 0 <= i < records.len() implies built(fields_of(#[trigger] records[i]))
        == Ok::<_, crate::error::InvalidNodeError>(nodes[i]) by {
        crate::node::lemma_plain_record_rebuilds(nodes[i]);
    }
    assert(Seq::new(records.len(), |i: int| built(fields_of(records[i]))->Ok_0) =~= nodes);
}

/// The records of a local registry file, in the order of the file.
#[derive(Debug)]
pub struct LocalRegistryFile {
    nodes: Vec<RegistryNode>,
}

impl View for LocalRegistryFile {
    type V = Seq<NodeView>;

    closed spec fn view(&self) -> Seq<NodeView> {
        self.nodes@.map_values(|node: RegistryNode| node@)
    }
}

impl LocalRegistryFile {
    /// A registry without records.
    pub fn new() -> (registry: Self)
        ensures
            registry@ == Seq::<NodeView>::empty(),
    {
        let registry = LocalRegistryFile { nodes: Vec::new() };
        assert(registry@ =~= Seq::<NodeView>::empty());
        registry
    }

    /// Makes the registry that the content of the file at `path` stands for.
    pub fn load(path: &str, content: FileContent) -> (registry: Result<Self, CliError>)
        ensures
            match registry {
                Ok(registry) => loaded(path@, content@) == Ok::<_, CliErrorView>(registry@),
                Err(error) => loaded(path@, content@) == Err::<Seq<NodeView>, _>(error@),
            },
    {
        match content {
            FileContent::Absent => Ok(LocalRegistryFile::new()),
            FileContent::Unreadable(failure) => {
                let message = String::from_str("Failed to open '").concat(path).concat(
                    "': ",
                ).concat(failure.as_str());
                Err(CliError::EnvironmentError(message))
            },
            FileContent::Malformed => Err(
                CliError::MalformedRegistryFile(String::from_str(path)),
            ),
            FileContent::Records(records) => {
                let ghost all = records@.map_values(|record: NodeResponse| record@);
                let mut nodes: Vec<RegistryNode> = Vec::new();
                let mut rest = records;
                let mut taken: usize = 0;
                let total = rest.len();
                while rest.len() > 0
                    invariant
                        content@ == FileContentView::Records(all),
                        taken + rest.len() == total,
                        total == all.len(),
                        nodes@.len() == taken,
                        forall|i: int|
                            0 <= i < rest.len() ==> (#[trigger] rest@[i])@ == all[taken + i],
                        forall|i: int|
                            0 <= i < taken ==> built(fields_of(all[i])) == Ok::<
                                _,
                                InvalidNodeError,
                            >((#[trigger] nodes@[i])@),
                    decreases rest.len(),
                {
                    let record = rest.remove(0);
                    match checked_record(record) {
                        Ok(node) => {
                            nodes.push(node);
                        },
                        Err(_) => {
                            assert(built(fields_of(all[taken as int])) is Err);
                            return Err(CliError::MalformedRegistryFile(String::from_str(path)));
                        },
                    }
                    taken += 1;
                }
                let registry = LocalRegistryFile { nodes };
                assert forall|i: int| 0 <= i < all.len() implies built(
                    fields_of(#[trigger] all[i]),
                ) is Ok by {
                    assert(built(fields_of(all[i])) == Ok::<_, InvalidNodeError>(nodes@[i]@));
                }
                assert(registry@ =~= Seq::new(
                    all.len(),
                    |i: int| built(fields_of(all[i]))->Ok_0,
                ));
                Ok(registry)
            },
        }
    }

    /// How many records the registry holds.
    pub fn len(&self) -> (count: usize)
        ensures
            count == self@.len(),
    {
        self.nodes.len()
    }

    /// Whether the registry holds no record.
    pub fn is_empty(&self) -> (empty: bool)
        ensures
            empty == (self@.len() == 0),
    {
        self.nodes.len() == 0
    }

    /// The record at `index`, if there is one.
    pub fn get(&self, index: usize) -> (node: Option<&RegistryNode>)
        ensures
            match node {
                Some(node) => index < self@.len() && node@ == self@[index as int],
                None => index >= self@.len(),
            },
    {
        if index < self.nodes.len() {
            Some(&self.nodes[index])
        } else {
            None
        }
    }

    /// Where the first record of `identity` stands, if there is one.
    pub fn find(&self, identity: &str) -> (found: Option<usize>)
        ensures
            match found {
                Some(at) => position_of(self@, identity@) == Some(at as int),
                None => position_of(self@, identity@) is None,
            },
    {
        let wanted = String::from_str(identity);
        let mut i: usize = 0;
        while i < self.nodes.len()
            invariant
                i <= self.nodes.len(),
                self@.len() == self.nodes.len(),
                wanted@ == identity@,
                forall|j: int| 0 <= j < i ==> self@[j].identity != identity@,
            decreases self.nodes.len() - i,
        {
            if *self.nodes[i].identity() == wanted {
                proof {
                    lemma_position_of(self@, identity@);
                    assert(self@[i as int].identity == identity@);
                }
                return Some(i);
            }
            i += 1;
        }
        proof {
            lemma_position_of(self@, identity@);
        }
        None
    }

    /// Merges a record in by its identity. Where the identity is new the
    /// record is added at the end. Where it is already held, the old record
    /// is removed and the new one added at the end if `force` is set; if not,
    /// the merge fails with `DuplicateIdentity` and nothing changes.
    pub fn upsert(&mut self, record: RegistryNode, force: bool) -> (merged: Result<(), CliError>)
        ensures
            match merged {
                Ok(()) => upserted(old(self)@, record@, force) == Ok::<_, CliErrorView>(
                    final(self)@,
                ),
                Err(error) => upserted(old(self)@, record@, force) == Err::<Seq<NodeView>, _>(
                    error@,
                ) && final(self)@ == old(self)@,
            },
            merged is Err <==> position_of(old(self)@, record@.identity) is Some && !force,
            position_of(old(self)@, record@.identity) is Some && force ==> {
                let at = position_of(old(self)@, record@.identity)->0;
                &&& final(self)@.len() == old(self)@.len()
                &&& final(self)@.last() == record@
                &&& final(self)@.drop_last() == old(self)@.remove(at)
            },
            distinct_identities(old(self)@) ==> distinct_identities(final(self)@),
    {
        proof {
            lemma_upserted(self@, record@, force);
            lemma_position_of(self@, record@.identity);
        }
        match self.find(record.identity().as_str()) {
            Some(at) => {
                if !force {
                    return Err(CliError::DuplicateIdentity(record.identity().clone()));
                }
                let ghost before = self@;
                self.nodes.remove(at);
                assert(self@ =~= before.remove(at as int));
                self.nodes.push(record);
                assert(self@ =~= before.remove(at as int).push(record@));
            },
            None => {
                let ghost before = self@;
                self.nodes.push(record);
                assert(self@ =~= before.push(record@));
            },
        }
        Ok(())
    }

    /// Copies the records, in their order.
    pub fn to_vec(&self) -> (nodes: Vec<RegistryNode>)
        ensures
            nodes@.map_values(|node: RegistryNode| node@) == self@,
    {
        let mut nodes: Vec<RegistryNode> = Vec::new();
        let mut i: usize = 0;
        while i < self.nodes.len()
            invariant
                i <= self.nodes.len(),
                nodes@.len() == i,
                forall|j: int| 0 <= j < i ==> nodes@[j]@ == self.nodes@[j]@,
            decreases self.nodes.len() - i,
        {
            nodes.push(self.nodes[i].clone());
            i += 1;
        }
        assert(nodes@.map_values(|node: RegistryNode| node@) =~= self@);
        nodes
    }

    /// The records in the plain form in which they are written to the file,
    /// in their order.
    pub fn records(&self) -> (records: Vec<NodeResponse>)
        ensures
            records@.map_values(|record: NodeResponse| record@) == self@.map_values(
                |node: NodeView| plain_record(node),
            ),
            forall|i: int| 0 <= i < self@.len() ==> valid_record(#[trigger] self@[i]),
    {
        let mut records: Vec<NodeResponse> = Vec::new();
        let mut i: usize = 0;
        while i < self.nodes.len()
            invariant
                i <= self.nodes.len(),
                records@.len() == i,
                forall|j: int| 0 <= j < i ==> records@[j]@ == plain_record(self.nodes@[j]@),
                forall|j: int| 0 <= j < i ==> valid_record(self.nodes@[j]@),
            decreases self.nodes.len() - i,
        {
            self.nodes[i].check_valid();
            records.push(self.nodes[i].to_response());
            i += 1;
        }
        assert(records@.map_values(|record: NodeResponse| record@) =~= self@.map_values(
            |node: NodeView| plain_record(node),
        ));
        records
    }

    /// The bytes to write to the file for the serialized records: the
    /// serialized form, then a line break.
    pub fn file_bytes(serialized: Vec<u8>) -> (bytes: Vec<u8>)
        ensures
            bytes@ == serialized@.push(10u8),
    {
        let mut bytes = serialized;
        bytes.push(10u8);
        bytes
    }
}

} // verus!
