//! Contextual metadata: a mapping from text keys to structured values in
//! which a later write to a key replaces the earlier one.

use vstd::prelude::*;
use vstd::string::*;

verus! {

/// One member of a record value: a name and a text.
#[derive(Clone, Debug)]
pub struct Field {
    pub name: String,
    pub text: String,
}

/// A value attached to a context key.
#[derive(Clone, Debug)]
pub enum ContextValue {
    /// The null value.
    Null,
    /// A truth value.
    Bool(bool),
    /// A whole number.
    Integer(i64),
    /// A text.
    Text(String),
    /// An object whose members are texts, in the order given.
    Record(Vec<Field>),
    /// Any other structured value, held as its JSON text.
    Json(String),
}

/// What a context value says, as plain values.
pub enum ContextValueView {
    Null,
    Bool(bool),
    Integer(i64),
    Text(Seq<char>),
    Record(Seq<(Seq<char>, Seq<char>)>),
    Json(Seq<char>),
}

/// The members of a record, each as a pair of name and text.
pub open spec fn field_views(fields: Seq<Field>) -> Seq<(Seq<char>, Seq<char>)> {
    fields.map_values(|f: Field| (f.name@, f.text@))
}

impl View for ContextValue {
    type V = ContextValueView;

    open spec fn view(&self) -> ContextValueView {
        match self {
            ContextValue::Null => ContextValueView::Null,
            ContextValue::Bool(b) => ContextValueView::Bool(*b),
            ContextValue::Integer(n) => ContextValueView::Integer(*n),
            ContextValue::Text(s) => ContextValueView::Text(s@),
            ContextValue::Record(fields) => ContextValueView::Record(field_views(fields@)),
            ContextValue::Json(s) => ContextValueView::Json(s@),
        }
    }
}

impl ContextValue {
    /// A copy of this value.
    pub fn duplicate(&self) -> (copy: ContextValue)
        ensures
            copy@ == self@,
    {
        match self {
            ContextValue::Null => ContextValue::Null,
            ContextValue::Bool(b) => ContextValue::Bool(*b),
            ContextValue::Integer(n) => ContextValue::Integer(*n),
            ContextValue::Text(s) => ContextValue::Text(s.clone()),
            ContextValue::Record(fields) => {
                let mut copy: Vec<Field> = Vec::new();
                let mut i: usize = 0;
                while i < fields.len()
                    invariant
                        i <= fields.len(),
                        field_views(copy@) == field_views(fields@).take(i as int),
                    decreases fields.len() - i,
                {
                    let ghost before = field_views(copy@);
                    let field = Field {
                        name: fields[i].name.clone(),
                        text: fields[i].text.clone(),
                    };
                    copy.push(field);
                    assert(field_views(copy@) =~= before.push((field.name@, field.text@)));
                    i += 1;
                }
                assert(field_views(fields@).take(i as int) =~= field_views(fields@));
                ContextValue::Record(copy)
            },
            ContextValue::Json(s) => ContextValue::Json(s.clone()),
        }
    }
}

/// One entry of a context: a key and the value attached to it.
#[derive(Clone, Debug)]
pub struct Entry {
    pub key: String,
    pub value: ContextValue,
}

/// Whether some entry carries the key.
pub open spec fn has_key(entries: Seq<Entry>, key: Seq<char>) -> bool {
    exists|i: int| 0 <= i < entries.len() && #[trigger] entries[i].key@ == key
}

/// Position of an entry that carries the key.
pub open spec fn position_of(entries: Seq<Entry>, key: Seq<char>) -> int {
    choose|i: int| 0 <= i < entries.len() && #[trigger] entries[i].key@ == key
}

/// No two entries carry the same key.
pub open spec fn keys_distinct(entries: Seq<Entry>) -> bool {
    forall|i: int, j: int|
        0 <= i < j < entries.len() ==> #[trigger] entries[i].key@ != #[trigger] entries[j].key@
}

/// The mapping that a list of entries stands for.
pub open spec fn entries_map(entries: Seq<Entry>) -> Map<Seq<char>, ContextValueView> {
    Map::new(
        |key: Seq<char>| has_key(entries, key),
        |key: Seq<char>| entries[position_of(entries, key)].value@,
    )
}

/// With distinct keys, the entry at a position is the one its key maps to.
pub proof fn lemma_entry_at(entries: Seq<Entry>, i: int)
    requires
        keys_distinct(entries),
        0 <= i < entries.len(),
    ensures
        has_key(entries, entries[i].key@),
        position_of(entries, entries[i].key@) == i,
        entries_map(entries)[entries[i].key@] == entries[i].value@,
{
}

/// Appending an entry under a new key adds it to the mapping.
pub proof fn lemma_push_entry(entries: Seq<Entry>, entry: Entry)
    requires
        keys_distinct(entries),
        !has_key(entries, entry.key@),
    ensures
        keys_distinct(entries.push(entry)),
        entries_map(entries.push(entry)) == entries_map(entries).insert(entry.key@, entry.value@),
{
    let after = entries.push(entry);
    assert(keys_distinct(after));
    assert forall|key: Seq<char>| has_key(after, key) == (has_key(entries, key) || key
        == entry.key@) by {
        if has_key(entries, key) {
            assert(after[position_of(entries, key)].key@ == key);
        }
        if key == entry.key@ {
            assert(after[entries.len() as int].key@ == key);
        }
    }
    assert forall|key: Seq<char>| has_key(after, key) implies #[trigger] entries_map(after)[key]
        == entries_map(entries).insert(entry.key@, entry.value@)[key] by {
        let p = position_of(after, key);
        lemma_entry_at(after, p);
        if p < entries.len() {
            lemma_entry_at(entries, p);
        }
    }
}

/// Replacing the value of an entry rewrites its key in the mapping.
pub proof fn lemma_replace_entry(entries: Seq<Entry>, i: int, entry: Entry)
    requires
        keys_distinct(entries),
        0 <= i < entries.len(),
        entries[i].key@ == entry.key@,
    ensures
        keys_distinct(entries.update(i, entry)),
        entries_map(entries.update(i, entry)) == entries_map(entries).insert(
            entry.key@,
            entry.value@,
        ),
{
    let after = entries.update(i, entry);
    assert(keys_distinct(after));
    assert forall|key: Seq<char>| has_key(after, key) == has_key(entries, key) by {
        if has_key(entries, key) {
            assert(after[position_of(entries, key)].key@ == key);
        }
        if has_key(after, key) {
            assert(entries[position_of(after, key)].key@ == key);
        }
    }
    assert forall|key: Seq<char>| has_key(after, key) implies #[trigger] entries_map(after)[key]
        == entries_map(entries).insert(entry.key@, entry.value@)[key] by {
        let p = position_of(after, key);
        lemma_entry_at(after, p);
        lemma_entry_at(entries, p);
    }
}

/// The mapping of a list grows entry by entry, each write replacing what
/// its key held before.
pub proof fn lemma_entries_map_next(entries: Seq<Entry>, i: int)
    requires
        keys_distinct(entries),
        0 <= i < entries.len(),
    ensures
        keys_distinct(entries.take(i)),
        entries_map(entries.take(i + 1)) == entries_map(entries.take(i)).insert(
            entries[i].key@,
            entries[i].value@,
        ),
{
    let head = entries.take(i);
    assert(keys_distinct(head));
    lemma_push_entry(head, entries[i]);
    assert(entries.take(i + 1) =~= head.push(entries[i]));
}

/// Contextual metadata attached to a record.
#[derive(Debug)]
pub struct Context {
    entries: Vec<Entry>,
}

impl View for Context {
    type V = Map<Seq<char>, ContextValueView>;

    closed spec fn view(&self) -> Map<Seq<char>, ContextValueView> {
        entries_map(self.entries@)
    }
}

impl Clone for Context {
    fn clone(&self) -> (copy: Context)
        ensures
            copy@ == self@,
    {
        self.duplicate()
    }
}

impl Context {
    #[verifier::type_invariant]
    spec fn distinct(&self) -> bool {
        keys_distinct(self.entries@)
    }

    /// An empty context.
    pub fn new() -> (context: Context)
        ensures
            context@ == Map::<Seq<char>, ContextValueView>::empty(),
    {
        let context = Context { entries: Vec::new() };
        context
    }

    /// The entries, one for each key, in the order in which the keys were
    /// first written.
    pub fn entries(&self) -> (list: &Vec<Entry>)
        ensures
            keys_distinct(list@),
            entries_map(list@) == self@,
    {
        proof {
            use_type_invariant(self);
        }
        &self.entries
    }

    /// Number of keys.
    pub fn len(&self) -> (count: usize)
        ensures
            count == self@.len(),
            self@.dom().finite(),
    {
        proof {
            use_type_invariant(self);
            lemma_entries_count(self.entries@);
        }
        self.entries.len()
    }

    /// Whether the context holds no key.
    pub fn is_empty(&self) -> (empty: bool)
        ensures
            empty == (self@ == Map::<Seq<char>, ContextValueView>::empty()),
    {
        proof {
            use_type_invariant(self);
            if self.entries@.len() == 0 {
                assert(self@ =~= Map::<Seq<char>, ContextValueView>::empty());
            } else {
                lemma_entry_at(self.entries@, 0);
                assert(self@.contains_key(self.entries@[0].key@));
            }
        }
        self.entries.len() == 0
    }

    /// Position of the entry for `key`, if there is one.
    fn find(&self, key: &str) -> (found: Option<usize>)
        ensures
            match found {
                Some(i) => i < self.entries@.len() && self.entries@[i as int].key@ == key@,
                None => !has_key(self.entries@, key@),
            },
    {
        let wanted = String::from_str(key);
        let mut i: usize = 0;
        while i < self.entries.len()
            invariant
                i <= self.entries.len(),
                wanted@ == key@,
                forall|j: int| 0 <= j < i ==> self.entries@[j].key@ != key@,
            decreases self.entries.len() - i,
        {
            if self.entries[i].key == wanted {
                return Some(i);
            }
            i += 1;
        }
        None
    }

    /// Whether `key` is present.
    pub fn contains_key(&self, key: &str) -> (present: bool)
        ensures
            present == self@.contains_key(key@),
    {
        self.find(key).is_some()
    }

    /// The value attached to `key`, if any.
    pub fn get(&self, key: &str) -> (value: Option<&ContextValue>)
        ensures
            match value {
                Some(v) => self@.contains_key(key@) && self@[key@] == v@,
                None => !self@.contains_key(key@),
            },
    {
        match self.find(key) {
            Some(i) => {
                proof {
                    use_type_invariant(self);
                    lemma_entry_at(self.entries@, i as int);
                }
                Some(&self.entries[i].value)
            },
            None => None,
        }
    }

    /// Attaches `value` to `key`, replacing what the key held before.
    pub fn insert(&mut self, key: String, value: ContextValue)
        ensures
            final(self)@ == old(self)@.insert(key@, value@),
    {
        let found = self.find(key.as_str());
        let mut taken = Context::new();
        std::mem::swap(self, &mut taken);
        proof {
            use_type_invariant(&taken);
        }
        let mut entries = taken.entries;
        let entry = Entry { key, value };
        match found {
            Some(i) => {
                proof {
                    lemma_replace_entry(entries@, i as int, entry);
                }
                entries.set(i, entry);
            },
            None => {
                proof {
                    lemma_push_entry(entries@, entry);
                }
                entries.push(entry);
            },
        }
        *self = Context { entries };
    }

    /// Writes every entry of `other` into this context; where both hold a
    /// key, the value of `other` stays.
    pub fn extend(&mut self, other: &Context)
        ensures
            final(self)@ == old(self)@.union_prefer_right(other@),
    {
        proof {
            use_type_invariant(other);
        }
        let mut i: usize = 0;
        while i < other.entries.len()
            invariant
                i <= other.entries.len(),
                keys_distinct(other.entries@),
                self@ == old(self)@.union_prefer_right(entries_map(other.entries@.take(i as int))),
            decreases other.entries.len() - i,
        {
            let entry = &other.entries[i];
            proof {
                lemma_entries_map_next(other.entries@, i as int);
            }
            self.insert(entry.key.clone(), entry.value.duplicate());
            i += 1;
        }
        proof {
            assert(other.entries@.take(i as int) =~= other.entries@);
        }
    }

    /// A copy of this context.
    pub fn duplicate(&self) -> (copy: Context)
        ensures
            copy@ == self@,
    {
        let mut copy = Context::new();
        copy.extend(self);
        copy
    }
}

/// The mapping of an optional context.
pub open spec fn context_view(context: Option<Context>) -> Option<
    Map<Seq<char>, ContextValueView>,
> {
    match context {
        Some(given) => Some(given@),
        None => None,
    }
}

/// The characters of an optional text slice.
pub open spec fn str_view(text: Option<&str>) -> Option<Seq<char>> {
    match text {
        Some(t) => Some(t@),
        None => None,
    }
}

/// A list with distinct keys stands for a mapping of as many keys.
pub proof fn lemma_entries_count(entries: Seq<Entry>)
    requires
        keys_distinct(entries),
    ensures
        entries_map(entries).dom().finite(),
        entries_map(entries).len() == entries.len(),
    decreases entries.len(),
{
    if entries.len() == 0 {
        assert(entries_map(entries) =~= Map::<Seq<char>, ContextValueView>::empty());
    } else {
        let i = entries.len() - 1;
        lemma_entries_map_next(entries, i);
        lemma_entries_count(entries.take(i));
        assert(entries.take(i + 1) =~= entries);
    }
}

} // verus!
