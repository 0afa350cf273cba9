//! The correlation context that travels with a business transaction: a map
//! from names to values, which also carries trace context across a channel.
use vstd::prelude::*;
use vstd::string::*;

verus! {

/// The name under which a transaction records where it came from.
pub open spec fn source_key() -> Seq<char> {
    "transaction.source"@
}

/// The name under which a transaction records what it is for.
pub open spec fn intent_key() -> Seq<char> {
    "transaction.intent"@
}

/// The pair of texts that an entry holds.
pub open spec fn entry_view(entry: (String, String)) -> (Seq<char>, Seq<char>) {
    (entry.0@, entry.1@)
}

/// A list of entries as pairs of texts.
pub open spec fn entries_view(entries: Seq<(String, String)>) -> Seq<(Seq<char>, Seq<char>)> {
    entries.map_values(|entry: (String, String)| entry_view(entry))
}

/// Whether no name occurs twice among `entries`.
pub open spec fn distinct_names(entries: Seq<(Seq<char>, Seq<char>)>) -> bool {
    forall|i: int, j: int|
        0 <= i < entries.len() && 0 <= j < entries.len() && i != j ==> (#[trigger] entries[i]).0
            != (#[trigger] entries[j]).0
}

/// The map that results from setting `entries` one after the other on top
/// of `base`: of two entries with one name the later one stays.
pub open spec fn set_all(
    base: Map<Seq<char>, Seq<char>>,
    entries: Seq<(Seq<char>, Seq<char>)>,
) -> Map<Seq<char>, Seq<char>>
    decreases entries.len(),
{
    if entries.len() == 0 {
        base
    } else {
        set_all(base, entries.drop_last()).insert(entries.last().0, entries.last().1)
    }
}

/// A name that does not occur among `entries` is in the map they make only
/// if the base has it.
proof fn lemma_set_all_absent(
    base: Map<Seq<char>, Seq<char>>,
    entries: Seq<(Seq<char>, Seq<char>)>,
    name: Seq<char>,
)
    requires
        forall|i: int| 0 <= i < entries.len() ==> (#[trigger] entries[i]).0 != name,
    ensures
        set_all(base, entries).contains_key(name) == base.contains_key(name),
        base.contains_key(name) ==> set_all(base, entries)[name] == base[name],
    decreases entries.len(),
{
    if entries.len() > 0 {
        lemma_set_all_absent(base, entries.drop_last(), name);
        assert(entries.last() == entries[entries.len() - 1]);
    }
}

/// Among entries with distinct names, each is found in the map they make.
proof fn lemma_set_all_present(entries: Seq<(Seq<char>, Seq<char>)>, at: int)
    requires
        distinct_names(entries),
        0 <= at < entries.len(),
    ensures
        set_all(Map::empty(), entries).contains_key(entries[at].0),
        set_all(Map::empty(), entries)[entries[at].0] == entries[at].1,
    decreases entries.len(),
{
    let front = entries.drop_last();
    if at == entries.len() - 1 {
    } else {
        assert(distinct_names(front)) by {
            assert forall|i: int, j: int|
                0 <= i < front.len() && 0 <= j < front.len() && i != j implies (
            #[trigger] front[i]).0 != (#[trigger] front[j]).0 by {
                assert(entries[i].0 != entries[j].0);
            }
        }
        lemma_set_all_present(front, at);
        assert(front[at] == entries[at]);
        assert(entries.last() == entries[entries.len() - 1]);
        assert(entries[at].0 != entries[entries.len() - 1].0);
    }
}

/// Replacing the value of one of several entries with distinct names sets
/// that name in the map they make.
proof fn lemma_set_all_update(
    entries: Seq<(Seq<char>, Seq<char>)>,
    at: int,
    value: Seq<char>,
)
    requires
        distinct_names(entries),
        0 <= at < entries.len(),
    ensures
        set_all(Map::empty(), entries.update(at, (entries[at].0, value))) == set_all(
            Map::empty(),
            entries,
        ).insert(entries[at].0, value),
    decreases entries.len(),
{
    let name = entries[at].0;
    let updated = entries.update(at, (name, value));
    let front = entries.drop_last();
    assert(entries.last() == entries[entries.len() - 1]);
    assert(updated.last() == updated[entries.len() - 1]);
    if at == entries.len() - 1 {
        assert(updated.drop_last() =~= front);
        assert(set_all(Map::empty(), front).insert(name, value) =~= set_all(
            Map::empty(),
            front,
        ).insert(name, entries.last().1).insert(name, value));
    } else {
        assert(distinct_names(front)) by {
            assert forall|i: int, j: int|
                0 <= i < front.len() && 0 <= j < front.len() && i != j implies (
            #[trigger] front[i]).0 != (#[trigger] front[j]).0 by {
                assert(entries[i].0 != entries[j].0);
            }
        }
        lemma_set_all_update(front, at, value);
        assert(front[at] == entries[at]);
        assert(updated.drop_last() =~= front.update(at, (name, value)));
        assert(entries[at].0 != entries[entries.len() - 1].0);
        let last = entries.last();
        assert(set_all(Map::empty(), front).insert(name, value).insert(last.0, last.1)
            =~= set_all(Map::empty(), front).insert(last.0, last.1).insert(name, value));
    }
}

/// A correlation context: values under names, each name at most once.
#[derive(Debug)]
pub struct Transaction {
    cx: Vec<(String, String)>,
}

impl View for Transaction {
    type V = Map<Seq<char>, Seq<char>>;

    closed spec fn view(&self) -> Map<Seq<char>, Seq<char>> {
        set_all(Map::empty(), entries_view(self.cx@))
    }
}

impl Clone for Transaction {
    fn clone(&self) -> (copy: Transaction)
        ensures
            copy@ == self@,
    {
        Transaction { cx: self.extract() }
    }
}

impl Default for Transaction {
    /// The context that holds nothing.
    fn default() -> (transaction: Transaction)
        ensures
            transaction@ == Map::<Seq<char>, Seq<char>>::empty(),
    {
        let transaction = Transaction { cx: Vec::new() };
        assert(entries_view(transaction.cx@) =~= Seq::empty());
        transaction
    }
}

impl Transaction {
    #[verifier::type_invariant]
    spec fn names_occur_once(self) -> bool {
        distinct_names(entries_view(self.cx@))
    }

    fn position(&self, key: &String) -> (found: Option<usize>)
        ensures
            match found {
                Some(at) => at < self.cx@.len() && self.cx@[at as int].0@ == key@,
                None => forall|i: int| 0 <= i < self.cx@.len() ==> (#[trigger] entries_view(
                    self.cx@,
                )[i]).0 != key@,
            },
    {
        let mut at: usize = 0;
        while at < self.cx.len()
            invariant
                at <= self.cx@.len(),
                forall|i: int| 0 <= i < at ==> (#[trigger] entries_view(self.cx@)[i]).0 != key@,
            decreases self.cx@.len() - at,
        {
            if self.cx[at].0 == *key {
                return Some(at);
            }
            at = at + 1;
        }
        None
    }

    /// This context with `key` set to `value`.
    fn with(self, key: String, value: String) -> (transaction: Transaction)
        ensures
            transaction@ == self@.insert(key@, value@),
    {
        proof {
            use_type_invariant(&self);
        }
        let found = self.position(&key);
        let mut cx = self.cx;
        let ghost before = entries_view(cx@);
        match found {
            Some(at) => {
                proof {
                    lemma_set_all_update(before, at as int, value@);
                }
                cx[at] = (key, value);
                proof {
                    let after = entries_view(cx@);
                    assert(after =~= before.update(at as int, (before[at as int].0, value@)));
                    assert(distinct_names(after)) by {
                        assert forall|i: int, j: int|
                            0 <= i < after.len() && 0 <= j < after.len() && i != j implies (
                        #[trigger] after[i]).0 != (#[trigger] after[j]).0 by {
                            assert(before[i].0 != before[j].0);
                        }
                    }
                }
            },
            None => {
                cx.push((key, value));
                proof {
                    let after = entries_view(cx@);
                    assert(after =~= before.push((key@, value@)));
                    assert(after.drop_last() =~= before);
                    assert(distinct_names(after)) by {
                        assert forall|i: int, j: int|
                            0 <= i < after.len() && 0 <= j < after.len() && i != j implies (
                        #[trigger] after[i]).0 != (#[trigger] after[j]).0 by {
                            if i < before.len() && j < before.len() {
                                assert(before[i].0 != before[j].0);
                            } else if i < before.len() {
                                assert(before[i].0 != key@);
                            } else {
                                assert(before[j].0 != key@);
                            }
                        }
                    }
                }
            },
        }
        Transaction { cx }
    }

    /// Sets `key` to `value`, whether or not the context had the name.
    pub fn set(&mut self, key: &str, value: String)
        ensures
            final(self)@ == old(self)@.insert(key@, value@),
    {
        let mut taken = Transaction::default();
        core::mem::swap(self, &mut taken);
        *self = taken.with(String::from_str(key), value);
    }

    /// The value under `key`, if the context has the name.
    pub fn get(&self, key: &str) -> (value: Option<&str>)
        ensures
            match value {
                Some(text) => self@.contains_key(key@) && text@ == self@[key@],
                None => !self@.contains_key(key@),
            },
    {
        proof {
            use_type_invariant(self);
        }
        let key = String::from_str(key);
        match self.position(&key) {
            Some(at) => {
                proof {
                    lemma_set_all_present(entries_view(self.cx@), at as int);
                }
                Some(self.cx[at].1.as_str())
            },
            None => {
                proof {
                    lemma_set_all_absent(Map::empty(), entries_view(self.cx@), key@);
                }
                None
            },
        }
    }

    /// The names that the context holds, each once.
    pub fn keys(&self) -> (names: Vec<&str>)
        ensures
            forall|i: int| 0 <= i < names@.len() ==> self@.contains_key(#[trigger] names@[i]@),
            forall|i: int, j: int|
                0 <= i < names@.len() && 0 <= j < names@.len() && i != j ==> (
                #[trigger] names@[i])@ != (#[trigger] names@[j])@,
            forall|name: Seq<char>| #[trigger]
                self@.contains_key(name) ==> exists|i: int|
                    0 <= i < names@.len() && (#[trigger] names@[i])@ == name,
    {
        proof {
            use_type_invariant(self);
        }
        let ghost entries = entries_view(self.cx@);
        let mut names: Vec<&str> = Vec::new();
        let mut at: usize = 0;
        while at < self.cx.len()
            invariant
                at <= self.cx@.len(),
                names@.len() == at,
                entries == entries_view(self.cx@),
                forall|i: int| 0 <= i < at ==> (#[trigger] names@[i])@ == entries[i].0,
            decreases self.cx@.len() - at,
        {
            names.push(self.cx[at].0.as_str());
            at = at + 1;
        }
        proof {
            assert forall|i: int| 0 <= i < names@.len() implies self@.contains_key(
                #[trigger] names@[i]@,
            ) by {
                lemma_set_all_present(entries, i);
            }
            assert forall|i: int, j: int|
                0 <= i < names@.len() && 0 <= j < names@.len() && i != j implies (
            #[trigger] names@[i])@ != (#[trigger] names@[j])@ by {
                assert(entries[i].0 != entries[j].0);
            }
            assert forall|name: Seq<char>| #[trigger] self@.contains_key(name) implies exists|
                i: int,
            |
                0 <= i < names@.len() && (#[trigger] names@[i])@ == name by {
                if forall|i: int| 0 <= i < entries.len() ==> (#[trigger] entries[i]).0 != name {
                    lemma_set_all_absent(Map::empty(), entries, name);
                } else {
                    let i = choose|i: int| 0 <= i < entries.len() && (#[trigger] entries[i]).0
                        == name;
                    assert(names@[i]@ == name);
                }
            }
        }
        names
    }

    /// This context with the place that the transaction came from.
    pub fn with_source(self, source: &str) -> (transaction: Transaction)
        ensures
            transaction@ == self@.insert(source_key(), source@),
    {
        self.with(String::from_str("transaction.source"), String::from_str(source))
    }

    /// This context with what the transaction is for.
    pub fn with_intent(self, intent: &str) -> (transaction: Transaction)
        ensures
            transaction@ == self@.insert(intent_key(), intent@),
    {
        self.with(String::from_str("transaction.intent"), String::from_str(intent))
    }

    /// Takes the fields of a trace context into this context, in their
    /// order: each is set under its name.
    pub fn inject(&mut self, fields: Vec<(String, String)>)
        ensures
            final(self)@ == set_all(old(self)@, entries_view(fields@)),
    {
        let ghost entries = entries_view(fields@);
        let mut at: usize = 0;
        assert(entries.take(0) =~= Seq::empty());
        while at < fields.len()
            invariant
                at <= fields@.len(),
                entries == entries_view(fields@),
                self@ == set_all(old(self)@, entries.take(at as int)),
            decreases fields@.len() - at,
        {
            proof {
                assert(entries.take(at + 1).drop_last() =~= entries.take(at as int));
                assert(entries.take(at + 1).last() == entries[at as int]);
            }
            self.set(fields[at].0.as_str(), fields[at].1.clone());
            at = at + 1;
        }
        assert(entries.take(at as int) =~= entries);
    }

    /// Hands out what the context holds, each name once, for a trace
    /// context to be read from.
    pub fn extract(&self) -> (fields: Vec<(String, String)>)
        ensures
            distinct_names(entries_view(fields@)),
            set_all(Map::empty(), entries_view(fields@)) == self@,
    {
        proof {
            use_type_invariant(self);
        }
        let mut fields: Vec<(String, String)> = Vec::new();
        let mut at: usize = 0;
        while at < self.cx.len()
            invariant
                at <= self.cx@.len(),
                entries_view(fields@) =~= entries_view(self.cx@).take(at as int),
            decreases self.cx@.len() - at,
        {
            let ghost before = entries_view(fields@);
            fields.push((self.cx[at].0.clone(), self.cx[at].1.clone()));
            proof {
                let source = entries_view(self.cx@);
                assert(entries_view(fields@) =~= before.push(source[at as int]));
                assert(source.take(at + 1) =~= source.take(at as int).push(source[at as int]));
            }
            at = at + 1;
        }
        assert(entries_view(self.cx@).take(at as int) =~= entries_view(self.cx@));
        fields
    }
}

} // verus!
