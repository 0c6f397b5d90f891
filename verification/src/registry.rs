//! The method registry: which handler stands behind which method name.

use vstd::prelude::*;
use crate::text::same_text;

verus! {

/// A mapping from method names to handlers. A name has at most one handler;
/// registering under a name that is taken replaces the handler. Nothing is
/// ever removed.
pub struct MethodRegistry<H> {
    entries: Vec<(String, H)>,
}

/// Whether some entry of `entries` is called `name`.
spec fn has_name<H>(entries: Seq<(String, H)>, name: Seq<char>) -> bool {
    exists|i: int| 0 <= i < entries.len() && #[trigger] entries[i].0@ == name
}

/// A place in `entries` where `name` stands.
spec fn place_of<H>(entries: Seq<(String, H)>, name: Seq<char>) -> int {
    choose|i: int| 0 <= i < entries.len() && #[trigger] entries[i].0@ == name
}

/// Whether no name stands twice in `entries`.
spec fn distinct_names<H>(entries: Seq<(String, H)>) -> bool {
    forall|i: int, j: int|
        0 <= i < j < entries.len() ==> #[trigger] entries[i].0@ != #[trigger] entries[j].0@
}

/// The mapping that `entries` spell out.
spec fn mapping_of<H>(entries: Seq<(String, H)>) -> Map<Seq<char>, H> {
    Map::new(
        |name: Seq<char>| has_name(entries, name),
        |name: Seq<char>| entries[place_of(entries, name)].1,
    )
}

proof fn lemma_entry_is_mapped<H>(entries: Seq<(String, H)>, i: int)
    requires
        distinct_names(entries),
        0 <= i < entries.len(),
    ensures
        mapping_of(entries).contains_key(entries[i].0@),
        mapping_of(entries)[entries[i].0@] == entries[i].1,
{
    let name = entries[i].0@;
    assert(has_name(entries, name));
    let k = place_of(entries, name);
    assert(0 <= k < entries.len() && entries[k].0@ == name);
    if k < i {
        assert(entries[k].0@ != entries[i].0@);
    } else if i < k {
        assert(entries[i].0@ != entries[k].0@);
    }
}

proof fn lemma_push_inserts<H>(entries: Seq<(String, H)>, name: String, handler: H)
    requires
        distinct_names(entries),
        !has_name(entries, name@),
    ensures
        distinct_names(entries.push((name, handler))),
        mapping_of(entries.push((name, handler))) == mapping_of(entries).insert(name@, handler),
{
    let grown = entries.push((name, handler));
    assert forall|i: int, j: int| 0 <= i < j < grown.len() implies #[trigger] grown[i].0@
        != #[trigger] grown[j].0@ by {
        if j == entries.len() {
            assert(entries[i].0@ != name@);
        } else {
            assert(entries[i].0@ != entries[j].0@);
        }
    }
    assert forall|key: Seq<char>| #[trigger]
        mapping_of(grown).contains_key(key) == mapping_of(entries).insert(
            name@,
            handler,
        ).contains_key(key) by {
        if has_name(grown, key) {
            let k = place_of(grown, key);
            if k < entries.len() {
                assert(entries[k].0@ == key);
            }
        }
        if has_name(entries, key) {
            let k = place_of(entries, key);
            assert(grown[k].0@ == key);
        }
        if key == name@ {
            assert(grown[entries.len() as int].0@ == key);
        }
    }
    assert forall|key: Seq<char>| #[trigger] mapping_of(grown).contains_key(key) implies mapping_of(
        grown,
    )[key] == mapping_of(entries).insert(name@, handler)[key] by {
        let k = place_of(grown, key);
        lemma_entry_is_mapped(grown, k);
        if k < entries.len() {
            lemma_entry_is_mapped(entries, k);
        }
    }
}

proof fn lemma_update_inserts<H>(entries: Seq<(String, H)>, i: int, name: String, handler: H)
    requires
        distinct_names(entries),
        0 <= i < entries.len(),
        entries[i].0@ == name@,
    ensures
        distinct_names(entries.update(i, (name, handler))),
        mapping_of(entries.update(i, (name, handler))) == mapping_of(entries).insert(
            name@,
            handler,
        ),
{
    let changed = entries.update(i, (name, handler));
    assert forall|a: int, b: int| 0 <= a < b < changed.len() implies #[trigger] changed[a].0@
        != #[trigger] changed[b].0@ by {
        assert(entries[a].0@ != entries[b].0@);
    }
    assert forall|key: Seq<char>| #[trigger]
        mapping_of(changed).contains_key(key) == mapping_of(entries).insert(
            name@,
            handler,
        ).contains_key(key) by {
        if has_name(changed, key) {
            let k = place_of(changed, key);
            assert(entries[k].0@ == key);
        }
        if has_name(entries, key) {
            let k = place_of(entries, key);
            assert(changed[k].0@ == key);
        }
        if key == name@ {
            assert(changed[i].0@ == key);
        }
    }
    assert forall|key: Seq<char>| #[trigger] mapping_of(changed).contains_key(key) implies mapping_of(
        changed,
    )[key] == mapping_of(entries).insert(name@, handler)[key] by {
        let k = place_of(changed, key);
        lemma_entry_is_mapped(changed, k);
        if k != i {
            lemma_entry_is_mapped(entries, k);
        }
    }
}

impl<H> View for MethodRegistry<H> {
    type V = Map<Seq<char>, H>;

    closed spec fn view(&self) -> Map<Seq<char>, H> {
        mapping_of(self.entries@)
    }
}

impl<H> MethodRegistry<H> {
    #[verifier::type_invariant]
    spec fn well_formed(self) -> bool {
        distinct_names(self.entries@)
    }

    /// A registry without methods.
    pub fn new() -> (registry: Self)
        ensures
            registry@ == Map::<Seq<char>, H>::empty(),
    {
        MethodRegistry { entries: Vec::new() }
    }

    /// Puts `handler` behind `name`, in place of any handler that stood there.
    pub fn register(&mut self, name: String, handler: H)
        ensures
            final(self)@ == old(self)@.insert(name@, handler),
    {
        proof {
            use_type_invariant(&*self);
        }
        let mut entries: Vec<(String, H)> = Vec::new();
        core::mem::swap(&mut self.entries, &mut entries);
        let mut i: usize = 0;
        let mut place: Option<usize> = None;
        while i < entries.len()
            invariant_except_break
                i <= entries.len(),
                place is None,
                forall|j: int| 0 <= j < i ==> entries@[j].0@ != name@,
            invariant
                distinct_names(entries@),
                mapping_of(entries@) == old(self)@,
            ensures
                match place {
                    Some(k) => k < entries.len() && entries@[k as int].0@ == name@,
                    None => forall|j: int| 0 <= j < entries.len() ==> entries@[j].0@ != name@,
                },
            decreases entries.len() - i,
        {
            if same_text(entries[i].0.as_str(), name.as_str()) {
                place = Some(i);
                break ;
            }
            i += 1;
        }
        match place {
            Some(k) => {
                proof {
                    lemma_update_inserts(entries@, k as int, name, handler);
                }
                entries.set(k, (name, handler));
            },
            None => {
                proof {
                    lemma_push_inserts(entries@, name, handler);
                }
                entries.push((name, handler));
            },
        }
        self.entries = entries;
    }

    /// The handler behind `name`, if there is one. Names are compared
    /// character by character.
    pub fn lookup(&self, name: &str) -> (found: Option<&H>)
        ensures
            match found {
                Some(handler) => self@.contains_key(name@) && self@[name@] == *handler,
                None => !self@.contains_key(name@),
            },
    {
        proof {
            use_type_invariant(self);
        }
        let mut i: usize = 0;
        while i < self.entries.len()
            invariant
                i <= self.entries.len(),
                distinct_names(self.entries@),
                forall|j: int| 0 <= j < i ==> self.entries@[j].0@ != name@,
            decreases self.entries.len() - i,
        {
            if same_text(self.entries[i].0.as_str(), name) {
                proof {
                    lemma_entry_is_mapped(self.entries@, i as int);
                }
                return Some(&self.entries[i].1);
            }
            i += 1;
        }
        None
    }

    /// How many methods are registered.
    pub fn len(&self) -> (count: usize)
        ensures
            self@.dom().finite(),
            count == self@.dom().len(),
    {
        proof {
            use_type_invariant(self);
            lemma_names_counted(self.entries@);
        }
        self.entries.len()
    }

    /// The names that are registered, each once, in no particular order.
    pub fn list_methods(&self) -> (names: Vec<String>)
        ensures
            forall|name: Seq<char>|
                self@.contains_key(name) <==> exists|i: int|
                    0 <= i < names@.len() && #[trigger] names@[i]@ == name,
            forall|i: int, j: int|
                0 <= i < j < names@.len() ==> #[trigger] names@[i]@ != #[trigger] names@[j]@,
    {
        proof {
            use_type_invariant(self);
        }
        let mut names: Vec<String> = Vec::new();
        let mut i: usize = 0;
        while i < self.entries.len()
            invariant
                i <= self.entries.len(),
                names@.len() == i,
                forall|j: int| 0 <= j < i ==> #[trigger] names@[j]@ == self.entries@[j].0@,
            decreases self.entries.len() - i,
        {
            names.push(self.entries[i].0.clone());
            i += 1;
        }
        proof {
            let entries = self.entries@;
            assert forall|name: Seq<char>| self@.contains_key(name) <==> exists|i: int|
                0 <= i < names@.len() && #[trigger] names@[i]@ == name by {
                if has_name(entries, name) {
                    let k = place_of(entries, name);
                    assert(names@[k]@ == name);
                }
                if exists|i: int| 0 <= i < names@.len() && #[trigger] names@[i]@ == name {
                    let k = choose|i: int| 0 <= i < names@.len() && #[trigger] names@[i]@ == name;
                    assert(entries[k].0@ == name);
                }
            }
            assert forall|i: int, j: int| 0 <= i < j < names@.len() implies #[trigger] names@[i]@
                != #[trigger] names@[j]@ by {
                assert(entries[i].0@ != entries[j].0@);
            }
        }
        names
    }
}

/// A run of entries with distinct names spells out a mapping of as many names.
proof fn lemma_names_counted<H>(entries: Seq<(String, H)>)
    requires
        distinct_names(entries),
    ensures
        mapping_of(entries).dom().finite(),
        mapping_of(entries).dom().len() == entries.len(),
    decreases entries.len(),
{
    if entries.len() == 0 {
        assert(mapping_of(entries).dom() =~= Set::<Seq<char>>::empty());
    } else {
        let shorter = entries.drop_last();
        let last = entries.last();
        assert forall|i: int, j: int| 0 <= i < j < shorter.len() implies #[trigger] shorter[i].0@
            != #[trigger] shorter[j].0@ by {
            assert(entries[i].0@ != entries[j].0@);
        }
        lemma_names_counted(shorter);
        assert(!has_name(shorter, last.0@)) by {
            if has_name(shorter, last.0@) {
                let k = place_of(shorter, last.0@);
                assert(entries[k].0@ != entries[entries.len() - 1].0@);
            }
        }
        lemma_push_inserts(shorter, last.0, last.1);
        assert(shorter.push((last.0, last.1)) =~= entries);
        assert(mapping_of(entries).dom() =~= mapping_of(shorter).dom().insert(last.0@));
    }
}

/// Registering twice under one name leaves what the second registration
/// alone would have left.
pub proof fn lemma_register_twice<H>(methods: Map<Seq<char>, H>, name: Seq<char>, first: H, second: H)
    ensures
        methods.insert(name, first).insert(name, second) == methods.insert(name, second),
{
}

} // verus!
