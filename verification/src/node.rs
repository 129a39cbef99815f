//! Node records: the validated record of a participant, the builder that
//! makes one, and the unvalidated forms in which records arrive.

use vstd::prelude::*;
use crate::error::InvalidNodeError;
use crate::metadata::{map_of, nothing_empty, Metadata};
use crate::text::{clone_strings, same_strings, views_of};

verus! {

/// A node record over character sequences. Endpoints and keys are ordered;
/// metadata is a mapping, so the order of its entries is no part of it.
pub struct NodeView {
    pub identity: Seq<char>,
    pub endpoints: Seq<Seq<char>>,
    pub display_name: Seq<char>,
    pub keys: Seq<Seq<char>>,
    pub metadata: Map<Seq<char>, Seq<char>>,
}

/// The rules of a well-formed record: it has an identity, at least one
/// endpoint and at least one key, and no metadata key or value is empty.
pub open spec fn valid_record(record: NodeView) -> bool {
    &&& record.identity.len() > 0
    &&& record.endpoints.len() > 0
    &&& record.keys.len() > 0
    &&& nothing_empty(record.metadata)
}

/// One line for each item: a line break, the bullet, the item.
pub open spec fn bullets(items: Seq<Seq<char>>) -> Seq<char>
    decreases items.len(),
{
    if items.len() == 0 {
        Seq::empty()
    } else {
        bullets(items.drop_last()) + "\n  - "@ + items.last()
    }
}

/// One line for each entry: a line break, the key, a colon, the value.
pub open spec fn entry_lines(entries: Seq<(Seq<char>, Seq<char>)>) -> Seq<char>
    decreases entries.len(),
{
    if entries.len() == 0 {
        Seq::empty()
    } else {
        entry_lines(entries.drop_last()) + "\n  "@ + entries.last().0 + ": "@ + entries.last().1
    }
}

/// How a record is shown to a user.
pub open spec fn record_text(record: NodeView, entries: Seq<(Seq<char>, Seq<char>)>) -> Seq<char> {
    "identity: "@ + record.identity + "\nendpoints:"@ + bullets(record.endpoints)
        + "\ndisplay name: "@ + record.display_name + "\nkeys:"@ + bullets(record.keys)
        + "\nmetadata:"@ + entry_lines(entries)
}

/// Appends one bulleted line for each item.
fn append_bullets(text: &mut String, items: &Vec<String>)
    ensures
        final(text)@ == old(text)@ + bullets(views_of(items@)),
{
    let ghost all = views_of(items@);
    let mut i: usize = 0;
    assert(all.take(0) =~= Seq::<Seq<char>>::empty());
    while i < items.len()
        invariant
            i <= items.len(),
            all == views_of(items@),
            text@ == old(text)@ + bullets(all.take(i as int)),
        decreases items.len() - i,
    {
        proof {
            assert(all.take(i + 1).drop_last() =~= all.take(i as int));
            assert(all.take(i + 1).last() == items@[i as int]@);
        }
        text.append("\n  - ");
        text.append(items[i].as_str());
        assert(text@ =~= old(text)@ + bullets(all.take(i + 1)));
        i += 1;
    }
    assert(all.take(i as int) =~= all);
}

/// Appends one line for each metadata entry.
fn append_entry_lines(text: &mut String, metadata: &Metadata)
    ensures
        final(text)@ == old(text)@ + entry_lines(metadata.entries()),
{
    let ghost all = metadata.entries();
    let count = metadata.len();
    let mut i: usize = 0;
    assert(all.take(0) =~= Seq::<(Seq<char>, Seq<char>)>::empty());
    while i < count
        invariant
            i <= count,
            count == all.len(),
            all == metadata.entries(),
            text@ == old(text)@ + entry_lines(all.take(i as int)),
        decreases count - i,
    {
        proof {
            assert(all.take(i + 1).drop_last() =~= all.take(i as int));
            assert(all.take(i + 1).last() == all[i as int]);
        }
        match metadata.entry(i) {
            Some((key, value)) => {
                text.append("\n  ");
                text.append(key.as_str());
                text.append(": ");
                text.append(value.as_str());
            },
            None => {},
        }
        assert(text@ =~= old(text)@ + entry_lines(all.take(i + 1)));
        i += 1;
    }
    assert(all.take(i as int) =~= all);
}

/// The record of one participant: its identity, where it can be reached,
/// the name it is shown under, the keys that may act for it, and free-form
/// metadata. A record is made by `RegistryNodeBuilder::build` and is
/// well-formed from then on; it is never changed, only replaced.
#[derive(Debug)]
pub struct RegistryNode {
    identity: String,
    endpoints: Vec<String>,
    display_name: String,
    keys: Vec<String>,
    metadata: Metadata,
}

impl View for RegistryNode {
    type V = NodeView;

    closed spec fn view(&self) -> NodeView {
        NodeView {
            identity: self.identity@,
            endpoints: views_of(self.endpoints@),
            display_name: self.display_name@,
            keys: views_of(self.keys@),
            metadata: self.metadata@,
        }
    }
}

impl RegistryNode {
    #[verifier::type_invariant]
    spec fn well_formed(&self) -> bool {
        valid_record(self@)
    }

    /// The metadata entries in the order in which the record holds them.
    pub closed spec fn metadata_entries(&self) -> Seq<(Seq<char>, Seq<char>)> {
        self.metadata.entries()
    }

    /// How the record is shown to a user.
    pub open spec fn text(&self) -> Seq<char> {
        record_text(self@, self.metadata_entries())
    }

    /// The identity, which is never empty.
    pub fn identity(&self) -> (identity: &String)
        ensures
            identity@ == self@.identity,
            identity@.len() > 0,
    {
        proof {
            use_type_invariant(self);
        }
        &self.identity
    }

    /// The endpoints, of which there is at least one.
    pub fn endpoints(&self) -> (endpoints: &Vec<String>)
        ensures
            views_of(endpoints@) == self@.endpoints,
            endpoints@.len() > 0,
    {
        proof {
            use_type_invariant(self);
        }
        &self.endpoints
    }

    /// The name the node is shown under.
    pub fn display_name(&self) -> (display_name: &String)
        ensures
            display_name@ == self@.display_name,
    {
        &self.display_name
    }

    /// The keys, of which there is at least one.
    pub fn keys(&self) -> (keys: &Vec<String>)
        ensures
            views_of(keys@) == self@.keys,
            keys@.len() > 0,
    {
        proof {
            use_type_invariant(self);
        }
        &self.keys
    }

    /// The metadata, in which no key and no value is empty.
    pub fn metadata(&self) -> (metadata: &Metadata)
        ensures
            metadata@ == self@.metadata,
            metadata.entries() == self.metadata_entries(),
            nothing_empty(metadata@),
    {
        proof {
            use_type_invariant(self);
        }
        &self.metadata
    }

    /// States that the record is well-formed.
    pub fn check_valid(&self)
        ensures
            valid_record(self@),
            self@.metadata == map_of(self.metadata_entries()),
    {
        proof {
            use_type_invariant(self);
        }
    }

    /// Whether both records are the same: the same identity and display
    /// name, the same endpoints and the same keys in the same order, and the
    /// same metadata whatever the order of its entries.
    pub fn same_as(&self, other: &RegistryNode) -> (same: bool)
        ensures
            same == (self@ == other@),
    {
        self.identity == other.identity && self.display_name == other.display_name && same_strings(
            &self.endpoints,
            &other.endpoints,
        ) && same_strings(&self.keys, &other.keys) && self.metadata.same_as(&other.metadata)
    }

    /// Copies the record.
    pub fn clone(&self) -> (copy: Self)
        ensures
            copy@ == self@,
            copy.metadata_entries() == self.metadata_entries(),
    {
        proof {
            use_type_invariant(self);
        }
        RegistryNode {
            identity: self.identity.clone(),
            endpoints: clone_strings(&self.endpoints),
            display_name: self.display_name.clone(),
            keys: clone_strings(&self.keys),
            metadata: self.metadata.clone(),
        }
    }

    /// The record in its plain form, as it is written out.
    pub fn to_response(&self) -> (plain: NodeResponse)
        ensures
            plain@ == plain_record(self@),
    {
        NodeResponse {
            identity: self.identity.clone(),
            endpoints: clone_strings(&self.endpoints),
            display_name: Some(self.display_name.clone()),
            keys: clone_strings(&self.keys),
            metadata: self.metadata.clone(),
        }
    }

    /// Renders the record for a user: identity, endpoints, display name,
    /// keys and metadata, each list with one line for each item.
    pub fn to_string(&self) -> (rendered: String)
        ensures
            rendered@ == self.text(),
    {
        let mut text = String::from_str("identity: ");
        text.append(self.identity.as_str());
        text.append("\nendpoints:");
        append_bullets(&mut text, &self.endpoints);
        text.append("\ndisplay name: ");
        text.append(self.display_name.as_str());
        text.append("\nkeys:");
        append_bullets(&mut text, &self.keys);
        text.append("\nmetadata:");
        append_entry_lines(&mut text, &self.metadata);
        assert(text@ =~= self.text());
        text
    }
}

/// What a `RegistryNodeBuilder` has been given so far.
pub struct BuilderView {
    pub identity: Seq<char>,
    pub endpoints: Seq<Seq<char>>,
    pub display_name: Option<Seq<char>>,
    pub keys: Seq<Seq<char>>,
    pub metadata: Map<Seq<char>, Seq<char>>,
}

/// The record that a builder makes, or the first rule that its fields
/// break. A display name that was never given is the identity.
pub open spec fn built(fields: BuilderView) -> Result<NodeView, InvalidNodeError> {
    if fields.identity.len() == 0 {
        Err(InvalidNodeError::EmptyIdentity)
    } else if fields.endpoints.len() == 0 {
        Err(InvalidNodeError::MissingEndpoints)
    } else if fields.keys.len() == 0 {
        Err(InvalidNodeError::MissingKeys)
    } else if !nothing_empty(fields.metadata) {
        Err(InvalidNodeError::EmptyMetadata)
    } else {
        Ok(
            NodeView {
                identity: fields.identity,
                endpoints: fields.endpoints,
                display_name: match fields.display_name {
                    Some(name) => name,
                    None => fields.identity,
                },
                keys: fields.keys,
                metadata: fields.metadata,
            },
        )
    }
}

/// Whatever a builder makes is well-formed.
pub proof fn lemma_built_is_valid(fields: BuilderView)
    ensures
        built(fields) matches Ok(record) ==> valid_record(record),
{
}

/// Collects the fields of a node record and makes the record once, after
/// checking them.
#[derive(Debug)]
pub struct RegistryNodeBuilder {
    identity: String,
    endpoints: Vec<String>,
    display_name: Option<String>,
    keys: Vec<String>,
    metadata: Metadata,
}

impl View for RegistryNodeBuilder {
    type V = BuilderView;

    closed spec fn view(&self) -> BuilderView {
        BuilderView {
            identity: self.identity@,
            endpoints: views_of(self.endpoints@),
            display_name: match self.display_name {
                Some(name) => Some(name@),
                None => None,
            },
            keys: views_of(self.keys@),
            metadata: self.metadata@,
        }
    }
}

impl RegistryNodeBuilder {
    /// Starts a record of this identity, with nothing else given.
    pub fn new(identity: &str) -> (builder: Self)
        ensures
            builder@ == (BuilderView {
                identity: identity@,
                endpoints: Seq::empty(),
                display_name: None,
                keys: Seq::empty(),
                metadata: Map::empty(),
            }),
    {
        let builder = RegistryNodeBuilder {
            identity: String::from_str(identity),
            endpoints: Vec::new(),
            display_name: None,
            keys: Vec::new(),
            metadata: Metadata::new(),
        };
        assert(builder@.endpoints =~= Seq::empty());
        assert(builder@.keys =~= Seq::empty());
        builder
    }

    /// Adds one endpoint after those already given.
    pub fn with_endpoint(self, endpoint: String) -> (builder: Self)
        ensures
            builder@ == (BuilderView { endpoints: self@.endpoints.push(endpoint@), ..self@ }),
    {
        let mut builder = self;
        builder.endpoints.push(endpoint);
        assert(builder@.endpoints =~= self@.endpoints.push(endpoint@));
        builder
    }

    /// Adds endpoints, in their order, after those already given.
    pub fn with_endpoints(self, endpoints: Vec<String>) -> (builder: Self)
        ensures
            builder@ == (BuilderView {
                endpoints: self@.endpoints + views_of(endpoints@),
                ..self@
            }),
    {
        let mut builder = self;
        let mut rest = endpoints;
        builder.endpoints.append(&mut rest);
        assert(builder@.endpoints =~= self@.endpoints + views_of(endpoints@)) by {
            assert(builder.endpoints@ =~= self.endpoints@ + endpoints@);
        }
        builder
    }

    /// Sets the display name, replacing one given before.
    pub fn with_display_name(self, display_name: String) -> (builder: Self)
        ensures
            builder@ == (BuilderView { display_name: Some(display_name@), ..self@ }),
    {
        let mut builder = self;
        builder.display_name = Some(display_name);
        builder
    }

    /// Adds one key after those already given.
    pub fn with_key(self, key: String) -> (builder: Self)
        ensures
            builder@ == (BuilderView { keys: self@.keys.push(key@), ..self@ }),
    {
        let mut builder = self;
        builder.keys.push(key);
        assert(builder@.keys =~= self@.keys.push(key@));
        builder
    }

    /// Adds keys, in their order, after those already given.
    pub fn with_keys(self, keys: Vec<String>) -> (builder: Self)
        ensures
            builder@ == (BuilderView { keys: self@.keys + views_of(keys@), ..self@ }),
    {
        let mut builder = self;
        let mut rest = keys;
        builder.keys.append(&mut rest);
        assert(builder@.keys =~= self@.keys + views_of(keys@)) by {
            assert(builder.keys@ =~= self.keys@ + keys@);
        }
        builder
    }

    /// Maps a metadata key to a value, replacing the value of a key given
    /// before.
    pub fn with_metadata(self, key: String, value: String) -> (builder: Self)
        ensures
            builder@ == (BuilderView { metadata: self@.metadata.insert(key@, value@), ..self@ }),
    {
        let mut builder = self;
        builder.metadata.insert(key, value);
        builder
    }

    /// Takes a whole mapping as the metadata, in place of what was given
    /// before.
    pub fn with_all_metadata(self, metadata: Metadata) -> (builder: Self)
        ensures
            builder@ == (BuilderView { metadata: metadata@, ..self@ }),
    {
        let mut builder = self;
        builder.metadata = metadata;
        builder
    }

    /// Checks the fields and makes the record. The builder is used up.
    pub fn build(self) -> (made: Result<RegistryNode, InvalidNodeError>)
        ensures
            match made {
                Ok(record) => built(self@) == Ok::<_, InvalidNodeError>(record@),
                Err(error) => built(self@) == Err::<NodeView, _>(error),
            },
    {
        if self.identity.as_str().is_empty() {
            return Err(InvalidNodeError::EmptyIdentity);
        }
        if self.endpoints.len() == 0 {
            return Err(InvalidNodeError::MissingEndpoints);
        }
        if self.keys.len() == 0 {
            return Err(InvalidNodeError::MissingKeys);
        }
        if !self.metadata.nothing_empty() {
            return Err(InvalidNodeError::EmptyMetadata);
        }
        let display_name = match self.display_name {
            Some(name) => name,
            None => self.identity.clone(),
        };
        Ok(
            RegistryNode {
                identity: self.identity,
                endpoints: self.endpoints,
                display_name,
                keys: self.keys,
                metadata: self.metadata,
            },
        )
    }
}

/// A node record as the remote registry hands it out. Nothing has been
/// checked of it, and its display name may be missing.
#[derive(Debug)]
pub struct NodeResponse {
    pub identity: String,
    pub endpoints: Vec<String>,
    pub display_name: Option<String>,
    pub keys: Vec<String>,
    pub metadata: Metadata,
}

/// A `NodeResponse` over character sequences.
pub struct NodeResponseView {
    pub identity: Seq<char>,
    pub endpoints: Seq<Seq<char>>,
    pub display_name: Option<Seq<char>>,
    pub keys: Seq<Seq<char>>,
    pub metadata: Map<Seq<char>, Seq<char>>,
}

impl View for NodeResponse {
    type V = NodeResponseView;

    open spec fn view(&self) -> NodeResponseView {
        NodeResponseView {
            identity: self.identity@,
            endpoints: views_of(self.endpoints@),
            display_name: match self.display_name {
                Some(name) => Some(name@),
                None => None,
            },
            keys: views_of(self.keys@),
            metadata: self.metadata@,
        }
    }
}

/// The fields that an arriving record gives to a builder.
pub open spec fn fields_of(record: NodeResponseView) -> BuilderView {
    BuilderView {
        identity: record.identity,
        endpoints: record.endpoints,
        display_name: record.display_name,
        keys: record.keys,
        metadata: record.metadata,
    }
}

/// Checks a record that arrived from outside and makes a node record of it.
pub fn checked_record(record: NodeResponse) -> (made: Result<RegistryNode, InvalidNodeError>)
    ensures
        match made {
            Ok(node) => built(fields_of(record@)) == Ok::<_, InvalidNodeError>(node@),
            Err(error) => built(fields_of(record@)) == Err::<NodeView, _>(error),
        },
{
    let builder = RegistryNodeBuilder::new(record.identity.as_str()).with_endpoints(
        record.endpoints,
    ).with_keys(record.keys).with_all_metadata(record.metadata);
    let builder = match record.display_name {
        Some(name) => builder.with_display_name(name),
        None => builder,
    };
    assert(builder@.endpoints =~= record@.endpoints);
    assert(builder@.keys =~= record@.keys);
    assert(builder@ == fields_of(record@));
    builder.build()
}

/// The plain form of a record, as it is written out: every field as it is,
/// the display name always present.
pub open spec fn plain_record(record: NodeView) -> NodeResponseView {
    NodeResponseView {
        identity: record.identity,
        endpoints: record.endpoints,
        display_name: Some(record.display_name),
        keys: record.keys,
        metadata: record.metadata,
    }
}

/// A well-formed record is made again from its plain form.
pub proof fn lemma_plain_record_rebuilds(record: NodeView)
    requires
        valid_record(record),
    ensures
        built(fields_of(plain_record(record))) == Ok::<_, InvalidNodeError>(record),
{
}

/// What a running node reports of itself.
#[derive(Debug, PartialEq, Eq)]
pub struct LocalNodeStatus {
    pub node_id: String,
    pub display_name: String,
    pub advertised_endpoints: Vec<String>,
}

/// A `LocalNodeStatus` over character sequences.
pub struct LocalNodeStatusView {
    pub node_id: Seq<char>,
    pub display_name: Seq<char>,
    pub advertised_endpoints: Seq<Seq<char>>,
}

impl View for LocalNodeStatus {
    type V = LocalNodeStatusView;

    open spec fn view(&self) -> LocalNodeStatusView {
        LocalNodeStatusView {
            node_id: self.node_id@,
            display_name: self.display_name@,
            advertised_endpoints: views_of(self.advertised_endpoints@),
        }
    }
}

} // verus!
