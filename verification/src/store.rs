//! The topic store: the last value seen on each topic.
//!
//! The store only ever grows or overwrites: a topic, once seen, stays until a
//! newer value replaces the one it holds.

use crate::text::same_text;
use crate::value::{TopicValue, TopicValueModel};
use vstd::prelude::*;

verus! {

/// One topic with the value last seen on it.
pub struct Entry {
    pub topic: String,
    pub value: TopicValue,
}

/// What a store holds: each topic with its value.
pub type StoreModel = Map<Seq<char>, TopicValueModel>;

/// The mapping after `value` was written under `topic`: the topic holds the
/// new value, whatever it held before, and every other topic is as it was.
pub open spec fn upserted(store: StoreModel, topic: Seq<char>, value: TopicValueModel) -> StoreModel {
    store.insert(topic, value)
}

/// Whether no topic occurs twice among `entries`.
pub open spec fn distinct_topics(entries: Seq<Entry>) -> bool {
    forall|i: int, j: int|
        0 <= i < j < entries.len() ==> (#[trigger] entries[i]).topic@ != (
        #[trigger] entries[j]).topic@
}

/// The mapping that `entries` stand for; of two entries with one topic the
/// later one counts.
pub open spec fn entries_model(entries: Seq<Entry>) -> StoreModel
    decreases entries.len(),
{
    if entries.len() == 0 {
        Map::empty()
    } else {
        entries_model(entries.drop_last()).insert(entries.last().topic@, entries.last().value@)
    }
}

/// The topics of the mapping are the topics of the entries, and they are
/// finitely many.
pub proof fn lemma_model_topics(entries: Seq<Entry>)
    ensures
        entries_model(entries).dom().finite(),
        forall|topic: Seq<char>| #[trigger]
            entries_model(entries).dom().contains(topic) <==> exists|i: int|
                0 <= i < entries.len() && (#[trigger] entries[i]).topic@ == topic,
    decreases entries.len(),
{
    if entries.len() > 0 {
        let front = entries.drop_last();
        lemma_model_topics(front);
        assert forall|topic: Seq<char>| #[trigger]
            entries_model(entries).dom().contains(topic) implies exists|i: int|
            0 <= i < entries.len() && (#[trigger] entries[i]).topic@ == topic by {
            if topic == entries.last().topic@ {
                assert(entries[entries.len() - 1].topic@ == topic);
            } else {
                assert(entries_model(front).dom().contains(topic));
                let i = choose|i: int| 0 <= i < front.len() && (#[trigger] front[i]).topic@ == topic;
                assert(entries[i].topic@ == topic);
            }
        }
        assert forall|topic: Seq<char>|
            (exists|i: int|
                0 <= i < entries.len() && (#[trigger] entries[i]).topic@
                    == topic) implies #[trigger] entries_model(entries).dom().contains(topic) by {
            let i = choose|i: int| 0 <= i < entries.len() && (#[trigger] entries[i]).topic@ == topic;
            if i < entries.len() - 1 {
                assert(front[i].topic@ == topic);
            }
        }
    }
}

/// Where no topic occurs twice, each entry's value is the one the mapping
/// gives for its topic.
pub proof fn lemma_model_value(entries: Seq<Entry>, i: int)
    requires
        distinct_topics(entries),
        0 <= i < entries.len(),
    ensures
        entries_model(entries).dom().contains(entries[i].topic@),
        entries_model(entries)[entries[i].topic@] == entries[i].value@,
    decreases entries.len(),
{
    let front = entries.drop_last();
    if i < entries.len() - 1 {
        assert(distinct_topics(front)) by {
            assert forall|a: int, b: int| 0 <= a < b < front.len() implies (#[trigger] front[a]).topic@
                != (#[trigger] front[b]).topic@ by {
                assert(entries[a].topic@ != entries[b].topic@);
            }
        }
        lemma_model_value(front, i);
        assert(front[i] == entries[i]);
        assert(entries[i].topic@ != entries[entries.len() - 1].topic@);
    }
}

/// Where no topic occurs twice, the mapping has as many topics as there are
/// entries.
pub proof fn lemma_model_len(entries: Seq<Entry>)
    requires
        distinct_topics(entries),
    ensures
        entries_model(entries).dom().finite(),
        entries_model(entries).dom().len() == entries.len(),
    decreases entries.len(),
{
    lemma_model_topics(entries);
    if entries.len() > 0 {
        let front = entries.drop_last();
        assert(distinct_topics(front)) by {
            assert forall|a: int, b: int| 0 <= a < b < front.len() implies (#[trigger] front[a]).topic@
                != (#[trigger] front[b]).topic@ by {
                assert(entries[a].topic@ != entries[b].topic@);
            }
        }
        lemma_model_len(front);
        lemma_model_topics(front);
        let last = entries.last().topic@;
        if entries_model(front).dom().contains(last) {
            let i = choose|i: int| 0 <= i < front.len() && (#[trigger] front[i]).topic@ == last;
            assert(entries[i].topic@ == entries[entries.len() - 1].topic@);
            assert(false);
        }
        assert(entries_model(entries).dom() =~= entries_model(front).dom().insert(last));
    }
}

/// Replacing the value of an entry is an insertion under its topic, and keeps
/// the topics distinct.
pub proof fn lemma_model_replace(entries: Seq<Entry>, i: int, entry: Entry)
    requires
        distinct_topics(entries),
        0 <= i < entries.len(),
        entry.topic@ == entries[i].topic@,
    ensures
        distinct_topics(entries.update(i, entry)),
        entries_model(entries.update(i, entry)) == entries_model(entries).insert(
            entry.topic@,
            entry.value@,
        ),
    decreases entries.len(),
{
    let changed = entries.update(i, entry);
    assert(distinct_topics(changed)) by {
        assert forall|a: int, b: int| 0 <= a < b < changed.len() implies (
        #[trigger] changed[a]).topic@ != (#[trigger] changed[b]).topic@ by {
            assert(entries[a].topic@ != entries[b].topic@);
        }
    }
    let front = entries.drop_last();
    if i == entries.len() - 1 {
        assert(changed.drop_last() =~= front);
        assert(entries_model(changed) =~= entries_model(entries).insert(
            entry.topic@,
            entry.value@,
        ));
    } else {
        assert(distinct_topics(front)) by {
            assert forall|a: int, b: int| 0 <= a < b < front.len() implies (#[trigger] front[a]).topic@
                != (#[trigger] front[b]).topic@ by {
                assert(entries[a].topic@ != entries[b].topic@);
            }
        }
        lemma_model_replace(front, i, entry);
        assert(changed.drop_last() =~= front.update(i, entry));
        assert(changed.last() == entries.last());
        assert(entries[i].topic@ != entries[entries.len() - 1].topic@);
        assert(entries_model(changed) =~= entries_model(entries).insert(
            entry.topic@,
            entry.value@,
        ));
    }
}

/// The last value seen on each topic.
pub struct TopicStore {
    entries: Vec<Entry>,
}

impl View for TopicStore {
    type V = StoreModel;

    closed spec fn view(&self) -> StoreModel {
        entries_model(self.entries@)
    }
}

impl TopicStore {
    #[verifier::type_invariant]
    spec fn well_formed(self) -> bool {
        distinct_topics(self.entries@)
    }

    /// A store that holds nothing.
    pub fn new() -> (store: TopicStore)
        ensures
            store@ == StoreModel::empty(),
    {
        TopicStore { entries: Vec::new() }
    }

    /// The place of `topic` among the entries, if the store holds it.
    fn position(&self, topic: &str) -> (place: Option<usize>)
        ensures
            match place {
                Some(i) => i < self.entries.len() && self.entries[i as int].topic@ == topic@,
                None => forall|j: int|
                    0 <= j < self.entries.len() ==> (#[trigger] self.entries[j]).topic@ != topic@,
            },
    {
        let mut i: usize = 0;
        while i < self.entries.len()
            invariant
                i <= self.entries.len(),
                forall|j: int| 0 <= j < i ==> (#[trigger] self.entries[j]).topic@ != topic@,
            decreases self.entries.len() - i,
        {
            if same_text(self.entries[i].topic.as_str(), topic) {
                return Some(i);
            }
            i += 1;
        }
        None
    }

    /// Sets the value of `topic`, whether or not the store held one for it.
    /// Every other topic keeps its value.
    pub fn upsert(&mut self, topic: String, value: TopicValue)
        ensures
            final(self)@ == upserted(old(self)@, topic@, value@),
    {
        proof {
            use_type_invariant(&*self);
        }
        let place = self.position(topic.as_str());
        let entry = Entry { topic, value };
        let mut entries: Vec<Entry> = Vec::new();
        std::mem::swap(&mut self.entries, &mut entries);
        match place {
            Some(i) => {
                proof {
                    lemma_model_replace(entries@, i as int, entry);
                }
                entries.set(i, entry);
            },
            None => {
                entries.push(entry);
                proof {
                    assert(entries@.drop_last() =~= old(self).entries@);
                    assert(distinct_topics(entries@));
                }
            },
        }
        self.entries = entries;
    }

    /// The store's entries: each topic once, with its value.
    pub fn entries(&self) -> (entries: &Vec<Entry>)
        ensures
            distinct_topics(entries@),
            entries_model(entries@) == self@,
    {
        proof {
            use_type_invariant(self);
        }
        &self.entries
    }

    /// The value that the store holds for `topic`, if any.
    pub fn get(&self, topic: &str) -> (found: Option<&TopicValue>)
        ensures
            match found {
                Some(value) => self@.dom().contains(topic@) && self@[topic@] == value@,
                None => !self@.dom().contains(topic@),
            },
    {
        proof {
            use_type_invariant(self);
            lemma_model_topics(self.entries@);
        }
        match self.position(topic) {
            Some(i) => {
                proof {
                    lemma_model_value(self.entries@, i as int);
                }
                Some(&self.entries[i].value)
            },
            None => None,
        }
    }

    /// Whether the store holds a value for `topic`.
    pub fn contains(&self, topic: &str) -> (held: bool)
        ensures
            held == self@.dom().contains(topic@),
    {
        self.get(topic).is_some()
    }

    /// The number of topics that the store holds.
    pub fn len(&self) -> (count: usize)
        ensures
            self@.dom().finite(),
            count == self@.dom().len(),
    {
        proof {
            use_type_invariant(self);
            lemma_model_len(self.entries@);
        }
        self.entries.len()
    }

    /// Whether the store holds nothing.
    pub fn is_empty(&self) -> (empty: bool)
        ensures
            empty == (self@ == StoreModel::empty()),
    {
        proof {
            use_type_invariant(self);
            lemma_model_len(self.entries@);
            if self.entries@.len() == 0 {
            } else {
                assert(self@.dom().len() > 0);
                assert(self@ != StoreModel::empty());
            }
        }
        self.entries.len() == 0
    }

    /// A full copy of the store as it stands: every topic with its value.
    pub fn snapshot(&self) -> (copy: TopicStore)
        ensures
            copy@ == self@,
    {
        proof {
            use_type_invariant(self);
        }
        let mut entries: Vec<Entry> = Vec::new();
        let mut i: usize = 0;
        while i < self.entries.len()
            invariant
                i <= self.entries.len(),
                entries.len() == i,
                distinct_topics(self.entries@),
                forall|j: int|
                    0 <= j < i ==> (#[trigger] entries[j]).topic@ == self.entries[j].topic@
                        && entries[j].value@ == self.entries[j].value@,
            decreases self.entries.len() - i,
        {
            let entry = &self.entries[i];
            entries.push(Entry { topic: entry.topic.clone(), value: entry.value.clone() });
            i += 1;
        }
        proof {
            lemma_same_content_same_model(entries@, self.entries@);
            assert(distinct_topics(entries@)) by {
                assert forall|a: int, b: int| 0 <= a < b < entries.len() implies (
                #[trigger] entries[a]).topic@ != (#[trigger] entries[b]).topic@ by {
                    assert(self.entries[a].topic@ != self.entries[b].topic@);
                }
            }
        }
        TopicStore { entries }
    }
}

/// Entries that agree place by place in topic and value stand for the same
/// mapping.
pub proof fn lemma_same_content_same_model(first: Seq<Entry>, second: Seq<Entry>)
    requires
        first.len() == second.len(),
        forall|j: int|
            0 <= j < first.len() ==> (#[trigger] first[j]).topic@ == second[j].topic@
                && first[j].value@ == second[j].value@,
    ensures
        entries_model(first) == entries_model(second),
    decreases first.len(),
{
    if first.len() > 0 {
        let a = first.drop_last();
        let b = second.drop_last();
        assert forall|j: int| 0 <= j < a.len() implies (#[trigger] a[j]).topic@ == b[j].topic@
            && a[j].value@ == b[j].value@ by {
            assert(first[j].topic@ == second[j].topic@);
        }
        lemma_same_content_same_model(a, b);
        assert(first[first.len() - 1].topic@ == second[first.len() - 1].topic@);
    }
}

/// A value written under a topic is the value read back for it, and a second
/// write under the same topic leaves the second value alone: the mapping is
/// the one that the second write would have given by itself, with one entry
/// for the topic.
pub proof fn lemma_last_write_wins(
    store: StoreModel,
    topic: Seq<char>,
    first: TopicValueModel,
    second: TopicValueModel,
)
    requires
        store.dom().finite(),
    ensures
        upserted(store, topic, first).dom().contains(topic),
        upserted(store, topic, first)[topic] == first,
        upserted(upserted(store, topic, first), topic, second)[topic] == second,
        upserted(upserted(store, topic, first), topic, second) == upserted(store, topic, second),
        upserted(upserted(store, topic, first), topic, second).dom().len() == upserted(
            store,
            topic,
            first,
        ).dom().len(),
{
    assert(upserted(upserted(store, topic, first), topic, second) =~= upserted(
        store,
        topic,
        second,
    ));
    assert(upserted(store, topic, second).dom() =~= upserted(store, topic, first).dom());
}

/// A write touches its own topic only: any other topic is held after the
/// write exactly if it was held before, with the value it had. So a reader
/// finds under each topic a value that was written there whole, the one
/// before the write or the one after it.
pub proof fn lemma_upsert_touches_one_topic(
    store: StoreModel,
    topic: Seq<char>,
    value: TopicValueModel,
    other: Seq<char>,
)
    ensures
        other != topic ==> (upserted(store, topic, value).dom().contains(other)
            <==> store.dom().contains(other)),
        other != topic && store.dom().contains(other) ==> upserted(store, topic, value)[other]
            == store[other],
        upserted(store, topic, value)[topic] == value,
{
}

} // verus!
