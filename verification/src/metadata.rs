//! Free-form metadata of a node record: parsing `key=value` tokens, and the
//! mapping they are collected into.

use vstd::prelude::*;
use crate::error::{CliError, CliErrorView, MetadataError, MetadataErrorView};

verus! {

/// What a token stands for. The token is split at its first `=`: the key is
/// what stands before it and the value is everything after it, further `=`
/// included. A token without `=`, or with nothing on either side of the
/// first `=`, is refused.
pub open spec fn parsed_token(token: Seq<char>) -> Result<(Seq<char>, Seq<char>), CliErrorView> {
    match token.index_of_first('=') {
        None => if token.len() == 0 {
            Err(CliErrorView::InvalidMetadata(MetadataErrorView::EmptyKey))
        } else {
            Err(CliErrorView::InvalidMetadata(MetadataErrorView::MissingValue(token)))
        },
        Some(at) => {
            let key = token.subrange(0, at);
            let value = token.subrange(at + 1, token.len() as int);
            if key.len() == 0 {
                Err(CliErrorView::InvalidMetadata(MetadataErrorView::EmptyKey))
            } else if value.len() == 0 {
                Err(CliErrorView::InvalidMetadata(MetadataErrorView::EmptyValue(key)))
            } else {
                Ok((key, value))
            }
        },
    }
}

/// Parses one `key=value` token into its key and its value.
pub fn parse_metadata(metadata: &str) -> (parsed: Result<(String, String), CliError>)
    ensures
        match parsed {
            Ok((key, value)) => parsed_token(metadata@) == Ok::<_, CliErrorView>((key@, value@)),
            Err(error) => parsed_token(metadata@) == Err::<(Seq<char>, Seq<char>), _>(error@),
        },
{
    let length = metadata.unicode_len();
    match crate::text::find_char(metadata, '=') {
        None => {
            if length == 0 {
                Err(CliError::InvalidMetadata(MetadataError::EmptyKey))
            } else {
                Err(
                    CliError::InvalidMetadata(
                        MetadataError::MissingValue(String::from_str(metadata)),
                    ),
                )
            }
        },
        Some(at) => {
            proof {
                metadata@.index_of_first_ensures('=');
            }
            let key = String::from_str(metadata.substring_char(0, at));
            let value = String::from_str(metadata.substring_char(at + 1, length));
            if at == 0 {
                Err(CliError::InvalidMetadata(MetadataError::EmptyKey))
            } else if at + 1 == length {
                Err(CliError::InvalidMetadata(MetadataError::EmptyValue(key)))
            } else {
                Ok((key, value))
            }
        },
    }
}

/// A token parses to a key and a value exactly when it is the key, one `=`
/// and the value, where neither is empty and the key holds no `=`.
pub proof fn lemma_parsed_token_is_split(token: Seq<char>, key: Seq<char>, value: Seq<char>)
    ensures
        parsed_token(token) == Ok::<_, CliErrorView>((key, value)) <==> {
            &&& token == key + seq!['='] + value
            &&& key.len() > 0
            &&& value.len() > 0
            &&& !key.contains('=')
        },
{
    token.index_of_first_ensures('=');
    if parsed_token(token) == Ok::<_, CliErrorView>((key, value)) {
        assert(token =~= key + seq!['='] + value);
        if key.contains('=') {
            let j = choose|j: int| 0 <= j < key.len() && key[j] == '=';
            assert(token[j] == '=');
        }
    }
    if token == key + seq!['='] + value && key.len() > 0 && value.len() > 0 && !key.contains('=') {
        let at = key.len() as int;
        assert(token[at] == '=');
        assert(token.contains('='));
        let first = token.index_of_first('=')->0;
        if first < at {
            assert(key[first] == '=');
            assert(key.contains('='));
        }
        assert(first == at);
        assert(token.subrange(0, at) =~= key);
        assert(token.subrange(at + 1, token.len() as int) =~= value);
    }
}

/// The mapping that a sequence of entries stands for: of two entries with
/// one key, the later one counts.
pub open spec fn map_of(entries: Seq<(Seq<char>, Seq<char>)>) -> Map<Seq<char>, Seq<char>>
    decreases entries.len(),
{
    if entries.len() == 0 {
        Map::empty()
    } else {
        map_of(entries.drop_last()).insert(entries.last().0, entries.last().1)
    }
}

/// No two entries have the same key.
pub open spec fn distinct_keys(entries: Seq<(Seq<char>, Seq<char>)>) -> bool {
    forall|i: int, j: int| 0 <= i < j < entries.len() ==> entries[i].0 != entries[j].0
}

/// Where the entry of `key` stands, if there is one.
pub open spec fn key_index(entries: Seq<(Seq<char>, Seq<char>)>, key: Seq<char>) -> Option<int> {
    entries.map_values(|entry: (Seq<char>, Seq<char>)| entry.0).index_of_first(key)
}

/// Every key and every value of the mapping holds at least one character.
pub open spec fn nothing_empty(mapping: Map<Seq<char>, Seq<char>>) -> bool {
    forall|key: Seq<char>| #[trigger]
        mapping.contains_key(key) ==> key.len() > 0 && mapping[key].len() > 0
}

/// The keys of `map_of(entries)` are the keys of the entries.
pub proof fn lemma_map_of_keys(entries: Seq<(Seq<char>, Seq<char>)>)
    ensures
        forall|key: Seq<char>| #[trigger]
            map_of(entries).contains_key(key) <==> exists|i: int|
                0 <= i < entries.len() && (#[trigger] entries[i]).0 == key,
    decreases entries.len(),
{
    if entries.len() > 0 {
        let front = entries.drop_last();
        lemma_map_of_keys(front);
        assert forall|key: Seq<char>| #[trigger]
            map_of(entries).contains_key(key) <==> exists|i: int|
                0 <= i < entries.len() && (#[trigger] entries[i]).0 == key by {
            if map_of(entries).contains_key(key) {
                if key == entries.last().0 {
                    assert(entries[entries.len() - 1].0 == key);
                } else {
                    assert(map_of(front).contains_key(key));
                    let i = choose|i: int| 0 <= i < front.len() && (#[trigger] front[i]).0 == key;
                    assert(entries[i].0 == key);
                }
            }
            if exists|i: int| 0 <= i < entries.len() && (#[trigger] entries[i]).0 == key {
                let i = choose|i: int| 0 <= i < entries.len() && (#[trigger] entries[i]).0 == key;
                if i < entries.len() - 1 {
                    assert(front[i].0 == key);
                    assert(map_of(front).contains_key(key));
                }
            }
        }
    }
}

/// Where keys are distinct, each entry's key is mapped to that entry's value.
pub proof fn lemma_map_of_value(entries: Seq<(Seq<char>, Seq<char>)>, i: int)
    requires
        distinct_keys(entries),
        0 <= i < entries.len(),
    ensures
        map_of(entries).contains_key(entries[i].0),
        map_of(entries)[entries[i].0] == entries[i].1,
    decreases entries.len(),
{
    let front = entries.drop_last();
    if i < entries.len() - 1 {
        assert(distinct_keys(front)) by {
            assert forall|a: int, b: int| 0 <= a < b < front.len() implies front[a].0
                != front[b].0 by {
                assert(entries[a].0 != entries[b].0);
            }
        }
        lemma_map_of_value(front, i);
        assert(front[i] == entries[i]);
        assert(entries[i].0 != entries[entries.len() - 1].0);
    }
}

/// Adding an entry at the end maps its key to its value.
pub proof fn lemma_map_of_push(
    entries: Seq<(Seq<char>, Seq<char>)>,
    key: Seq<char>,
    value: Seq<char>,
)
    ensures
        map_of(entries.push((key, value))) == map_of(entries).insert(key, value),
{
    assert(entries.push((key, value)).drop_last() =~= entries);
}

/// Where keys are distinct, giving an entry a new value maps its key to the
/// new value and leaves the other keys as they were.
pub proof fn lemma_map_of_update(entries: Seq<(Seq<char>, Seq<char>)>, i: int, value: Seq<char>)
    requires
        distinct_keys(entries),
        0 <= i < entries.len(),
    ensures
        distinct_keys(entries.update(i, (entries[i].0, value))),
        map_of(entries.update(i, (entries[i].0, value))) == map_of(entries).insert(
            entries[i].0,
            value,
        ),
{
    let key = entries[i].0;
    let after = entries.update(i, (key, value));
    assert(distinct_keys(after)) by {
        assert forall|a: int, b: int| 0 <= a < b < after.len() implies after[a].0
            != after[b].0 by {
            assert(entries[a].0 != entries[b].0);
        }
    }
    lemma_map_of_keys(entries);
    lemma_map_of_keys(after);
    let left = map_of(after);
    let right = map_of(entries).insert(key, value);
    assert forall|k: Seq<char>| left.contains_key(k) <==> right.contains_key(k) by {
        if left.contains_key(k) {
            let j = choose|j: int| 0 <= j < after.len() && (#[trigger] after[j]).0 == k;
            assert(entries[j].0 == k);
        }
        if right.contains_key(k) {
            if k != key {
                let j = choose|j: int| 0 <= j < entries.len() && (#[trigger] entries[j]).0 == k;
                assert(after[j].0 == k);
            } else {
                assert(after[i].0 == k);
            }
        }
    }
    assert forall|k: Seq<char>| left.contains_key(k) implies left[k] == right[k] by {
        let j = choose|j: int| 0 <= j < after.len() && (#[trigger] after[j]).0 == k;
        lemma_map_of_value(after, j);
        if j != i {
            lemma_map_of_value(entries, j);
            assert(entries[j].0 != entries[i].0);
        }
    }
    assert(left =~= right);
}

/// What a list of tokens stands for: the entries of its tokens in order, or
/// the error of the first token that is refused.
pub open spec fn parsed_tokens(tokens: Seq<Seq<char>>) -> Result<
    Seq<(Seq<char>, Seq<char>)>,
    CliErrorView,
>
    decreases tokens.len(),
{
    if tokens.len() == 0 {
        Ok(Seq::empty())
    } else {
        match parsed_tokens(tokens.drop_last()) {
            Err(error) => Err(error),
            Ok(front) => match parsed_token(tokens.last()) {
                Err(error) => Err(error),
                Ok(entry) => Ok(front.push(entry)),
            },
        }
    }
}

/// A list of tokens is accepted exactly when each of its tokens is; the
/// entries then stand in the order of the tokens.
pub proof fn lemma_parsed_tokens_strict(tokens: Seq<Seq<char>>)
    ensures
        parsed_tokens(tokens) is Ok <==> forall|i: int|
            0 <= i < tokens.len() ==> parsed_token(#[trigger] tokens[i]) is Ok,
        parsed_tokens(tokens) matches Ok(entries) ==> entries.len() == tokens.len() && forall|
            i: int,
        |
            0 <= i < tokens.len() ==> parsed_token(tokens[i]) == Ok::<_, CliErrorView>(
                #[trigger] entries[i],
            ),
    decreases tokens.len(),
{
    if tokens.len() > 0 {
        let front = tokens.drop_last();
        lemma_parsed_tokens_strict(front);
        if parsed_tokens(tokens) is Ok {
            assert forall|i: int| 0 <= i < tokens.len() implies parsed_token(
                #[trigger] tokens[i],
            ) is Ok by {
                if i < front.len() {
                    assert(front[i] == tokens[i]);
                }
            }
        }
        if forall|i: int| 0 <= i < tokens.len() ==> parsed_token(#[trigger] tokens[i]) is Ok {
            assert forall|i: int| 0 <= i < front.len() implies parsed_token(
                #[trigger] front[i],
            ) is Ok by {
                assert(front[i] == tokens[i]);
            }
            assert(parsed_token(tokens[tokens.len() - 1]) is Ok);
        }
        if let Ok(entries) = parsed_tokens(tokens) {
            let before = parsed_tokens(front)->Ok_0;
            assert forall|i: int| 0 <= i < tokens.len() implies parsed_token(tokens[i]) == Ok::<
                _,
                CliErrorView,
            >(#[trigger] entries[i]) by {
                if i < front.len() {
                    assert(front[i] == tokens[i]);
                    assert(entries[i] == before[i]);
                }
            }
        }
    }
}

/// Once a token of a list is refused, so is every longer list, with the
/// same error.
pub proof fn lemma_parsed_tokens_first_error(tokens: Seq<Seq<char>>, upto: int)
    requires
        0 <= upto <= tokens.len(),
        parsed_tokens(tokens.take(upto)) is Err,
    ensures
        parsed_tokens(tokens) == parsed_tokens(tokens.take(upto)),
    decreases tokens.len() - upto,
{
    if upto < tokens.len() {
        let front = tokens.drop_last();
        assert(front.take(upto) =~= tokens.take(upto));
        lemma_parsed_tokens_first_error(front, upto);
    } else {
        assert(tokens.take(upto) =~= tokens);
    }
}

/// A mapping from keys to values, both strings, with each key held once.
/// Its entries keep the order in which their keys first came.
#[derive(Debug)]
pub struct Metadata {
    entries: Vec<(String, String)>,
}

impl View for Metadata {
    type V = Map<Seq<char>, Seq<char>>;

    open spec fn view(&self) -> Map<Seq<char>, Seq<char>> {
        map_of(self.entries())
    }
}

impl Metadata {
    /// The entries in the order in which their keys first came.
    pub closed spec fn entries(&self) -> Seq<(Seq<char>, Seq<char>)> {
        self.entries@.map_values(|entry: (String, String)| (entry.0@, entry.1@))
    }

    #[verifier::type_invariant]
    spec fn keys_are_distinct(&self) -> bool {
        distinct_keys(self.entries())
    }

    /// The mapping without entries.
    pub fn new() -> (metadata: Self)
        ensures
            metadata@ == Map::<Seq<char>, Seq<char>>::empty(),
            metadata.entries() == Seq::<(Seq<char>, Seq<char>)>::empty(),
    {
        let metadata = Metadata { entries: Vec::new() };
        assert(metadata.entries() =~= Seq::<(Seq<char>, Seq<char>)>::empty());
        metadata
    }

    /// How many entries the mapping holds.
    pub fn len(&self) -> (count: usize)
        ensures
            count == self.entries().len(),
            distinct_keys(self.entries()),
    {
        proof {
            use_type_invariant(self);
        }
        self.entries.len()
    }

    /// Whether the mapping holds no entry.
    pub fn is_empty(&self) -> (empty: bool)
        ensures
            empty == (self.entries().len() == 0),
            empty == (self@ == Map::<Seq<char>, Seq<char>>::empty()),
    {
        proof {
            lemma_map_of_keys(self.entries());
            if self.entries().len() > 0 {
                assert(self@.contains_key(self.entries()[0].0));
            }
        }
        self.entries.len() == 0
    }

    /// The key and the value of the entry at `index`, if there is one.
    pub fn entry(&self, index: usize) -> (entry: Option<(&String, &String)>)
        ensures
            match entry {
                Some((key, value)) => index < self.entries().len() && (key@, value@)
                    == self.entries()[index as int],
                None => index >= self.entries().len(),
            },
    {
        if index < self.entries.len() {
            Some((&self.entries[index].0, &self.entries[index].1))
        } else {
            None
        }
    }

    /// Where the entry of `key` stands, if there is one.
    fn position(&self, key: &String) -> (found: Option<usize>)
        ensures
            match found {
                Some(i) => i < self.entries().len() && self.entries()[i as int].0 == key@,
                None => forall|j: int|
                    0 <= j < self.entries().len() ==> self.entries()[j].0 != key@,
            },
    {
        let mut i: usize = 0;
        while i < self.entries.len()
            invariant
                i <= self.entries.len(),
                self.entries().len() == self.entries.len(),
                forall|j: int| 0 <= j < i ==> self.entries()[j].0 != key@,
            decreases self.entries.len() - i,
        {
            if self.entries[i].0 == *key {
                return Some(i);
            }
            i += 1;
        }
        None
    }

    /// The value that `key` is mapped to, if it is mapped.
    pub fn get(&self, key: &str) -> (value: Option<&String>)
        ensures
            match value {
                Some(held) => self@.contains_key(key@) && self@[key@] == held@,
                None => !self@.contains_key(key@),
            },
    {
        proof {
            use_type_invariant(self);
            lemma_map_of_keys(self.entries());
        }
        let wanted = String::from_str(key);
        match self.position(&wanted) {
            Some(i) => {
                proof {
                    lemma_map_of_value(self.entries(), i as int);
                }
                Some(&self.entries[i].1)
            },
            None => None,
        }
    }

    /// A copy of the entries, in their order.
    pub fn to_vec(&self) -> (entries: Vec<(String, String)>)
        ensures
            entries@.map_values(|entry: (String, String)| (entry.0@, entry.1@)) == self.entries(),
    {
        let mut entries: Vec<(String, String)> = Vec::new();
        let mut i: usize = 0;
        while i < self.entries.len()
            invariant
                i <= self.entries.len(),
                entries@.len() == i,
                forall|j: int|
                    0 <= j < i ==> entries@[j].0@ == self.entries@[j].0@ && entries@[j].1@
                        == self.entries@[j].1@,
            decreases self.entries.len() - i,
        {
            entries.push((self.entries[i].0.clone(), self.entries[i].1.clone()));
            i += 1;
        }
        assert(entries@.map_values(|entry: (String, String)| (entry.0@, entry.1@))
            =~= self.entries());
        entries
    }

    /// Maps `key` to `value`. A key that is already mapped keeps its place
    /// among the entries and gets the new value; a new key goes to the end.
    pub fn insert(&mut self, key: String, value: String)
        ensures
            final(self)@ == old(self)@.insert(key@, value@),
            final(self).entries() == match key_index(old(self).entries(), key@) {
                Some(i) => old(self).entries().update(i, (key@, value@)),
                None => old(self).entries().push((key@, value@)),
            },
    {
        proof {
            use_type_invariant(&*self);
        }
        let ghost before = self.entries();
        let ghost keys = before.map_values(|entry: (Seq<char>, Seq<char>)| entry.0);
        proof {
            keys.index_of_first_ensures(key@);
        }
        let mut entries = self.to_vec();
        let ghost copied = entries@;
        match self.position(&key) {
            Some(i) => {
                proof {
                    assert(keys[i as int] == key@);
                    let first = keys.index_of_first(key@)->0;
                    assert(before[first].0 == key@);
                    assert(first == i);
                    lemma_map_of_update(before, i as int, value@);
                    assert(before.update(i as int, (key@, value@)) =~= copied.update(
                        i as int,
                        (key, value),
                    ).map_values(|entry: (String, String)| (entry.0@, entry.1@)));
                }
                entries.set(i, (key, value));
            },
            None => {
                proof {
                    if keys.contains(key@) {
                        let j = choose|j: int| 0 <= j < keys.len() && keys[j] == key@;
                        assert(before[j].0 == key@);
                    }
                    lemma_map_of_push(before, key@, value@);
                    assert(before.push((key@, value@)) =~= copied.push(
                        (key, value),
                    ).map_values(|entry: (String, String)| (entry.0@, entry.1@)));
                    assert(distinct_keys(before.push((key@, value@))));
                }
                entries.push((key, value));
            },
        }
        self.entries = entries;
    }

    /// Whether every key and every value holds at least one character.
    pub fn nothing_empty(&self) -> (answer: bool)
        ensures
            answer == nothing_empty(self@),
    {
        proof {
            use_type_invariant(self);
            lemma_map_of_keys(self.entries());
        }
        let mut i: usize = 0;
        while i < self.entries.len()
            invariant
                i <= self.entries.len(),
                self.entries().len() == self.entries.len(),
                distinct_keys(self.entries()),
                forall|j: int|
                    0 <= j < i ==> self.entries()[j].0.len() > 0 && self.entries()[j].1.len() > 0,
            decreases self.entries.len() - i,
        {
            if self.entries[i].0.as_str().is_empty() || self.entries[i].1.as_str().is_empty() {
                proof {
                    lemma_map_of_value(self.entries(), i as int);
                }
                return false;
            }
            i += 1;
        }
        proof {
            assert forall|key: Seq<char>| #[trigger] self@.contains_key(key) implies key.len() > 0
                && self@[key].len() > 0 by {
                let j = choose|j: int|
                    0 <= j < self.entries().len() && (#[trigger] self.entries()[j]).0 == key;
                lemma_map_of_value(self.entries(), j);
            }
        }
        true
    }

    /// Whether every entry of this mapping is an entry of `other`.
    fn within(&self, other: &Metadata) -> (answer: bool)
        ensures
            answer == self@.submap_of(other@),
    {
        proof {
            use_type_invariant(self);
            lemma_map_of_keys(self.entries());
        }
        let mut i: usize = 0;
        while i < self.entries.len()
            invariant
                i <= self.entries.len(),
                self.entries().len() == self.entries.len(),
                distinct_keys(self.entries()),
                forall|j: int|
                    0 <= j < i ==> other@.contains_key(self.entries()[j].0)
                        && other@[self.entries()[j].0] == self.entries()[j].1,
            decreases self.entries.len() - i,
        {
            proof {
                lemma_map_of_value(self.entries(), i as int);
            }
            match other.get(self.entries[i].0.as_str()) {
                Some(value) => {
                    if *value != self.entries[i].1 {
                        return false;
                    }
                },
                None => {
                    return false;
                },
            }
            i += 1;
        }
        proof {
            assert forall|key: Seq<char>| #[trigger] self@.contains_key(key) implies
                other@.contains_key(key) && self@[key] == other@[key] by {
                let j = choose|j: int|
                    0 <= j < self.entries().len() && (#[trigger] self.entries()[j]).0 == key;
                lemma_map_of_value(self.entries(), j);
            }
        }
        true
    }

    /// Whether both mappings map the same keys to the same values, whatever
    /// the order of their entries.
    pub fn same_as(&self, other: &Metadata) -> (same: bool)
        ensures
            same == (self@ == other@),
    {
        let same = self.within(other) && other.within(self);
        proof {
            if same {
                assert forall|key: Seq<char>| self@.contains_key(key) <==> other@.contains_key(
                    key,
                ) by {
                    if self@.contains_key(key) {
                        assert(self@.dom().contains(key));
                    }
                    if other@.contains_key(key) {
                        assert(other@.dom().contains(key));
                    }
                }
                assert forall|key: Seq<char>| self@.contains_key(key) implies self@[key]
                    == other@[key] by {
                    assert(self@.dom().contains(key));
                }
                assert(self@ =~= other@);
            }
        }
        same
    }

    /// Copies the mapping.
    pub fn clone(&self) -> (copy: Self)
        ensures
            copy@ == self@,
            copy.entries() == self.entries(),
    {
        proof {
            use_type_invariant(self);
        }
        Metadata { entries: self.to_vec() }
    }
}

/// Parses a list of `key=value` tokens into a mapping. Every token must
/// parse: the first one that does not fails the whole list. Of two tokens
/// with one key the later one counts.
pub fn parse_metadata_list(tokens: &Vec<String>) -> (parsed: Result<Metadata, CliError>)
    ensures
        match parsed {
            Ok(metadata) => parsed_tokens(crate::text::views_of(tokens@)) matches Ok(entries)
                && metadata@ == map_of(entries),
            Err(error) => parsed_tokens(crate::text::views_of(tokens@)) == Err::<
                Seq<(Seq<char>, Seq<char>)>,
                _,
            >(error@),
        },
{
    let ghost all = crate::text::views_of(tokens@);
    let mut metadata = Metadata::new();
    let ghost mut entries: Seq<(Seq<char>, Seq<char>)> = Seq::empty();
    let mut i: usize = 0;
    assert(all.take(0) =~= Seq::<Seq<char>>::empty());
    while i < tokens.len()
        invariant
            i <= tokens.len(),
            all == crate::text::views_of(tokens@),
            parsed_tokens(all.take(i as int)) == Ok::<_, CliErrorView>(entries),
            metadata@ == map_of(entries),
        decreases tokens.len() - i,
    {
        proof {
            assert(all.take(i + 1).drop_last() =~= all.take(i as int));
            assert(all.take(i + 1).last() == tokens@[i as int]@);
        }
        match parse_metadata(tokens[i].as_str()) {
            Ok((key, value)) => {
                proof {
                    lemma_map_of_push(entries, key@, value@);
                    entries = entries.push((key@, value@));
                }
                metadata.insert(key, value);
            },
            Err(error) => {
                proof {
                    lemma_parsed_tokens_first_error(all, i + 1);
                }
                return Err(error);
            },
        }
        i += 1;
    }
    assert(all.take(i as int) =~= all);
    Ok(metadata)
}

} // verus!
