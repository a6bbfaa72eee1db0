//! The command catalog: a table from command identifiers to handlers, filled
//! once when a process starts and only read afterwards.

use crate::wire::check_command_id;
use crate::wire::decode_spec;
use crate::wire::encode_spec;
use crate::wire::first_line_spec;
use crate::wire::is_command_id;
use crate::wire::law_round_trip;
use crate::wire::same_text;
use vstd::prelude::*;
use vstd::string::StringExecFns;

verus! {

/// Why a registration was refused.
#[derive(Clone, Copy, Debug, PartialEq, Eq, Structural)]
pub enum CatalogError {
    /// The identifier is empty or holds a line terminator.
    InvalidId,
    /// The identifier is registered already.
    DuplicateId,
}

/// A command identifier with its human-readable label, for diagnostics and
/// help texts.
#[derive(Clone, Debug, PartialEq, Eq)]
pub struct CommandDescriptor {
    pub id: String,
    pub label: String,
}

/// One registration: an identifier, its label, and the handler that answers
/// it.
struct Entry<H> {
    id: String,
    label: String,
    handler: H,
}

/// A table from command identifiers to handlers of type `H`. A requester,
/// which only needs to know which identifiers exist, may use `()` for `H`.
pub struct Catalog<H> {
    entries: Vec<Entry<H>>,
}

impl<H> View for Catalog<H> {
    type V = Map<Seq<char>, H>;

    /// The catalog as a mapping from identifier to handler.
    closed spec fn view(&self) -> Map<Seq<char>, H> {
        Map::new(
            |id: Seq<char>| self.holds(id),
            |id: Seq<char>| self.entries@[self.position(id)].handler,
        )
    }
}

impl<H> Catalog<H> {
    /// Whether some entry carries `id`.
    spec fn holds(&self, id: Seq<char>) -> bool {
        exists|i: int| 0 <= i < self.entries@.len() && #[trigger] self.entries@[i].id@ == id
    }

    /// The place of the entry that carries `id`.
    spec fn position(&self, id: Seq<char>) -> int {
        choose|i: int| 0 <= i < self.entries@.len() && #[trigger] self.entries@[i].id@ == id
    }

    /// The labels of the catalog, by identifier.
    pub closed spec fn labels(&self) -> Map<Seq<char>, Seq<char>> {
        Map::new(
            |id: Seq<char>| self.holds(id),
            |id: Seq<char>| self.entries@[self.position(id)].label@,
        )
    }

    /// The identifiers in the order in which they were registered.
    pub closed spec fn ids_in_order(&self) -> Seq<Seq<char>> {
        Seq::new(self.entries@.len(), |i: int| self.entries@[i].id@)
    }

    /// The invariant of a catalog: every identifier is a command identifier
    /// and none occurs twice.
    pub closed spec fn wf(&self) -> bool {
        &&& forall|i: int|
            0 <= i < self.entries@.len() ==> is_command_id(#[trigger] self.entries@[i].id@)
        &&& forall|i: int, j: int|
            0 <= i < j < self.entries@.len() ==> self.entries@[i].id@ != self.entries@[j].id@
        &&& self@.dom().finite()
        &&& self@.dom().len() == self.entries@.len()
    }

    /// What the invariant means for the mapping: it is finite, its keys are
    /// command identifiers, each registered once, and the labels cover the
    /// same keys.
    pub proof fn lemma_wf(&self)
        requires
            self.wf(),
        ensures
            self@.dom().finite(),
            self@.dom() == self.labels().dom(),
            self@.dom().len() == self.ids_in_order().len(),
            self.ids_in_order().no_duplicates(),
            forall|id: Seq<char>| self@.contains_key(id) <==> self.ids_in_order().contains(id),
            forall|id: Seq<char>| self@.contains_key(id) ==> is_command_id(id),
    {
        assert(self@.dom() =~= self.labels().dom());
        let ids = self.ids_in_order();
        assert forall|id: Seq<char>| self@.contains_key(id) <==> ids.contains(id) by {
            if self@.contains_key(id) {
                let i = self.position(id);
                assert(ids[i] == id);
            }
            if ids.contains(id) {
                let i = choose|i: int| 0 <= i < ids.len() && ids[i] == id;
                assert(self.entries@[i].id@ == id);
            }
        }
        assert forall|id: Seq<char>| self@.contains_key(id) implies is_command_id(id) by {
            let i = self.position(id);
            assert(is_command_id(self.entries@[i].id@));
        }
    }

    /// The order of registration does not matter: two registrations under
    /// different identifiers give the same mapping whichever comes first.
    pub proof fn law_registration_order_is_irrelevant(
        handlers: Map<Seq<char>, H>,
        first: Seq<char>,
        first_handler: H,
        second: Seq<char>,
        second_handler: H,
    )
        requires
            first != second,
        ensures
            handlers.insert(first, first_handler).insert(second, second_handler)
                == handlers.insert(second, second_handler).insert(first, first_handler),
    {
        assert(handlers.insert(first, first_handler).insert(second, second_handler)
            =~= handlers.insert(second, second_handler).insert(first, first_handler));
    }

    /// A registered identifier survives the wire: the line read out of its
    /// encoded form is the identifier, and names the same handler.
    pub proof fn law_registered_id_round_trips(&self, id: Seq<char>)
        requires
            self.wf(),
            self@.contains_key(id),
        ensures
            first_line_spec(encode_spec(id)) == Some(id),
            self@.contains_key(decode_spec(first_line_spec(encode_spec(id))->0)),
    {
        self.lemma_wf();
        law_round_trip(id);
    }

    /// An empty catalog.
    pub fn new() -> (catalog: Catalog<H>)
        ensures
            catalog.wf(),
            catalog@ == Map::<Seq<char>, H>::empty(),
            catalog.labels() == Map::<Seq<char>, Seq<char>>::empty(),
            catalog.ids_in_order() == Seq::<Seq<char>>::empty(),
    {
        let catalog = Catalog { entries: Vec::new() };
        assert(catalog@ =~= Map::<Seq<char>, H>::empty());
        assert(catalog.labels() =~= Map::<Seq<char>, Seq<char>>::empty());
        assert(catalog.ids_in_order() =~= Seq::<Seq<char>>::empty());
        catalog
    }

    /// The number of registered commands.
    pub fn len(&self) -> (n: usize)
        requires
            self.wf(),
        ensures
            n == self@.dom().len(),
    {
        self.entries.len()
    }

    /// The place of `id` among the entries, if it is registered.
    fn find(&self, id: &str) -> (found: Option<usize>)
        requires
            self.wf(),
        ensures
            match found {
                Some(i) => i < self.entries@.len() && self.entries@[i as int].id@ == id@
                    && self.holds(id@) && self.position(id@) == i,
                None => !self.holds(id@),
            },
    {
        let mut i: usize = 0;
        while i < self.entries.len()
            invariant
                self.wf(),
                i <= self.entries@.len(),
                forall|j: int| 0 <= j < i ==> self.entries@[j].id@ != id@,
            decreases self.entries@.len() - i,
        {
            if same_text(self.entries[i].id.as_str(), id) {
                proof {
                    assert(self.entries@[i as int].id@ == id@);
                    let j = self.position(id@);
                    assert(self.entries@[j].id@ == id@);
                    if j < i {
                        assert(self.entries@[j].id@ != self.entries@[i as int].id@);
                    } else if i < j {
                        assert(self.entries@[i as int].id@ != self.entries@[j].id@);
                    }
                }
                return Some(i);
            }
            i = i + 1;
        }
        None
    }

    /// Registers `handler` under `id`, with `label` for diagnostics.
    ///
    /// An identifier that cannot travel as a line, or that is registered
    /// already, is refused and the catalog stays as it was.
    pub fn register(&mut self, id: &str, label: &str, handler: H) -> (result: Result<
        (),
        CatalogError,
    >)
        requires
            old(self).wf(),
        ensures
            final(self).wf(),
            match result {
                Ok(()) => {
                    &&& is_command_id(id@)
                    &&& !old(self)@.contains_key(id@)
                    &&& final(self)@ == old(self)@.insert(id@, handler)
                    &&& final(self).labels() == old(self).labels().insert(id@, label@)
                    &&& final(self).ids_in_order() == old(self).ids_in_order().push(id@)
                },
                Err(CatalogError::InvalidId) => {
                    &&& !is_command_id(id@)
                    &&& *final(self) == *old(self)
                },
                Err(CatalogError::DuplicateId) => {
                    &&& is_command_id(id@)
                    &&& old(self)@.contains_key(id@)
                    &&& *final(self) == *old(self)
                },
            },
    {
        if !check_command_id(id) {
            return Err(CatalogError::InvalidId);
        }
        if self.find(id).is_some() {
            return Err(CatalogError::DuplicateId);
        }
        let ghost before = *self;
        let entry = Entry { id: String::from_str(id), label: String::from_str(label), handler };
        self.entries.push(entry);
        proof {
            let after = *self;
            let n = before.entries@.len() as int;
            assert(after.entries@[n].id@ == id@);
            assert forall|key: Seq<char>| after.holds(key) <==> (key == id@ || before.holds(
                key,
            )) by {
                if before.holds(key) {
                    let i = before.position(key);
                    assert(after.entries@[i].id@ == key);
                }
                if after.holds(key) && key != id@ {
                    let i = after.position(key);
                    assert(before.entries@[i].id@ == key);
                }
            }
            assert forall|key: Seq<char>| before.holds(key) implies after.position(key)
                == before.position(key) by {
                let i = before.position(key);
                assert(after.entries@[i].id@ == key);
                let j = after.position(key);
                assert(j < n);
                assert(before.entries@[j].id@ == key);
            }
            assert(after.position(id@) == n);
            assert(after@ =~= before@.insert(id@, handler));
            assert(after.labels() =~= before.labels().insert(id@, label@));
            assert(after.ids_in_order() =~= before.ids_in_order().push(id@));
        }
        Ok(())
    }

    /// Looks `id` up: the handler registered under it, or `None` when the
    /// catalog does not know it.
    pub fn lookup(&self, id: &str) -> (handler: Option<&H>)
        requires
            self.wf(),
        ensures
            match handler {
                Some(h) => self@.contains_key(id@) && *h == self@[id@],
                None => !self@.contains_key(id@),
            },
    {
        match self.find(id) {
            Some(i) => Some(&self.entries[i].handler),
            None => None,
        }
    }

    /// The label registered under `id`, or `None` when the catalog does not
    /// know it.
    pub fn label(&self, id: &str) -> (label: Option<&str>)
        requires
            self.wf(),
        ensures
            match label {
                Some(text) => self.labels().contains_key(id@) && text@ == self.labels()[id@],
                None => !self.labels().contains_key(id@),
            },
    {
        match self.find(id) {
            Some(i) => Some(self.entries[i].label.as_str()),
            None => None,
        }
    }

    /// The descriptors of the registered commands, in the order of their
    /// registration.
    pub fn descriptors(&self) -> (descriptors: Vec<CommandDescriptor>)
        requires
            self.wf(),
        ensures
            descriptors@.len() == self.ids_in_order().len(),
            forall|i: int|
                0 <= i < descriptors@.len() ==> {
                    &&& (#[trigger] descriptors@[i]).id@ == self.ids_in_order()[i]
                    &&& descriptors@[i].label@ == self.labels()[self.ids_in_order()[i]]
                },
    {
        let mut descriptors: Vec<CommandDescriptor> = Vec::new();
        let mut i: usize = 0;
        while i < self.entries.len()
            invariant
                self.wf(),
                i <= self.entries@.len(),
                descriptors@.len() == i,
                forall|j: int|
                    0 <= j < i ==> {
                        &&& (#[trigger] descriptors@[j]).id@ == self.entries@[j].id@
                        &&& descriptors@[j].label@ == self.entries@[j].label@
                    },
            decreases self.entries@.len() - i,
        {
            let descriptor = CommandDescriptor {
                id: self.entries[i].id.clone(),
                label: self.entries[i].label.clone(),
            };
            descriptors.push(descriptor);
            i = i + 1;
        }
        proof {
            assert forall|j: int| 0 <= j < descriptors@.len() implies {
                &&& (#[trigger] descriptors@[j]).id@ == self.ids_in_order()[j]
                &&& descriptors@[j].label@ == self.labels()[self.ids_in_order()[j]]
            } by {
                let id = self.entries@[j].id@;
                assert(self.holds(id));
                let k = self.position(id);
                if k < j {
                    assert(self.entries@[k].id@ != self.entries@[j].id@);
                } else if j < k {
                    assert(self.entries@[j].id@ != self.entries@[k].id@);
                }
            }
        }
        descriptors
    }
}

} // verus!
