//! The catalogs of the three roles, built from the vocabulary.

use crate::catalog::Catalog;
use crate::vocabulary::all_commands;
use crate::vocabulary::lemma_ids_are_command_ids;
use crate::vocabulary::lemma_ids_distinct;
use crate::vocabulary::lemma_vocabulary_complete;
use crate::vocabulary::lemma_vocabulary_no_duplicates;
use crate::vocabulary::vocabulary;
use crate::vocabulary::Command;
use crate::vocabulary::Role;
use vstd::prelude::*;

verus! {

/// The command that `id` names.
pub open spec fn command_named(id: Seq<char>) -> Command {
    choose|command: Command| command.id_spec() == id
}

/// Whether `command` belongs to the selection `of`: to the commands that
/// the role answers, or to the whole vocabulary where no role is given.
pub open spec fn selected(of: Option<Role>, command: Command) -> bool {
    match of {
        Some(role) => command.role_spec() == role,
        None => true,
    }
}

/// Whether `id` names a command of the selection.
pub open spec fn names_selected(of: Option<Role>, id: Seq<char>) -> bool {
    exists|command: Command| selected(of, command) && #[trigger] command.id_spec() == id
}

/// The identifiers of the selection, each with the command it names.
pub open spec fn handlers_of(of: Option<Role>) -> Map<Seq<char>, Command> {
    Map::new(|id: Seq<char>| names_selected(of, id), |id: Seq<char>| command_named(id))
}

/// The identifiers of the selection, each with the label of its command.
pub open spec fn labels_of(of: Option<Role>) -> Map<Seq<char>, Seq<char>> {
    Map::new(
        |id: Seq<char>| names_selected(of, id),
        |id: Seq<char>| command_named(id).label_spec(),
    )
}

/// The identifiers of the selection in the order of the vocabulary.
pub open spec fn ids_of(of: Option<Role>) -> Seq<Seq<char>> {
    vocabulary().filter(|command: Command| selected(of, command)).map_values(
        |command: Command| command.id_spec(),
    )
}

/// An identifier names the one command that carries it.
pub proof fn lemma_command_named(command: Command)
    ensures
        command_named(command.id_spec()) == command,
{
    let named = command_named(command.id_spec());
    assert(named.id_spec() == command.id_spec());
    lemma_ids_distinct(named, command);
}

/// Builds the catalog of a selection of the vocabulary. No registration is
/// refused: the identifiers of the vocabulary are valid and differ from one
/// another.
fn catalog_of(of: Option<Role>) -> (catalog: Catalog<Command>)
    ensures
        catalog.wf(),
        catalog@ == handlers_of(of),
        catalog.labels() == labels_of(of),
        catalog.ids_in_order() == ids_of(of),
{
    let commands = all_commands();
    let ghost wanted = |command: Command| selected(of, command);
    let ghost id_of = |command: Command| command.id_spec();
    let mut catalog: Catalog<Command> = Catalog::new();
    let mut i: usize = 0;
    proof {
        reveal(Seq::filter);
        assert(vocabulary().take(0).filter(wanted) =~= Seq::<Command>::empty());
        assert(Seq::<Command>::empty().map_values(id_of) =~= Seq::<Seq<char>>::empty());
    }
    while i < commands.len()
        invariant
            commands@ == vocabulary(),
            i <= commands@.len(),
            wanted == (|command: Command| selected(of, command)),
            id_of == (|command: Command| command.id_spec()),
            catalog.wf(),
            catalog@.dom() == catalog.labels().dom(),
            catalog.ids_in_order() == vocabulary().take(i as int).filter(wanted).map_values(id_of),
            forall|id: Seq<char>|
                catalog@.contains_key(id) <==> exists|j: int|
                    0 <= j < i && selected(of, vocabulary()[j]) && #[trigger] vocabulary()[j].id_spec()
                        == id,
            forall|id: Seq<char>|
                catalog@.contains_key(id) ==> #[trigger] catalog@[id] == command_named(id),
            forall|id: Seq<char>|
                catalog@.contains_key(id) ==> #[trigger] catalog.labels()[id] == command_named(
                    id,
                ).label_spec(),
        decreases commands@.len() - i,
    {
        let command = commands[i];
        let is_wanted = match of {
            Some(role) => command.role() == role,
            None => true,
        };
        proof {
            reveal(Seq::filter);
            let next = vocabulary().take(i + 1);
            assert(next.drop_last() =~= vocabulary().take(i as int));
            assert(next.last() == command);
        }
        if is_wanted {
            let ghost before = catalog;
            proof {
                lemma_ids_are_command_ids(command);
                lemma_command_named(command);
                catalog.lemma_wf();
                if catalog@.contains_key(command.id_spec()) {
                    let j = choose|j: int|
                        0 <= j < i && selected(of, vocabulary()[j])
                            && #[trigger] vocabulary()[j].id_spec() == command.id_spec();
                    lemma_ids_distinct(vocabulary()[j], command);
                    lemma_vocabulary_no_duplicates();
                    assert(vocabulary()[j] != vocabulary()[i as int]);
                }
            }
            let registered = catalog.register(command.id(), command.label(), command);
            assert(registered is Ok);
            proof {
                catalog.lemma_wf();
                assert forall|id: Seq<char>| catalog@.contains_key(id) implies exists|j: int|
                    0 <= j < i + 1 && selected(of, vocabulary()[j]) && #[trigger] vocabulary()[j].id_spec()
                        == id by {
                    if before@.contains_key(id) {
                        let j = choose|j: int|
                            0 <= j < i && selected(of, vocabulary()[j])
                                && #[trigger] vocabulary()[j].id_spec() == id;
                        assert(vocabulary()[j].id_spec() == id);
                    } else {
                        assert(vocabulary()[i as int].id_spec() == id);
                    }
                }
                let chosen = vocabulary().take(i as int).filter(wanted);
                assert(chosen.push(command).map_values(id_of) =~= chosen.map_values(id_of).push(
                    command.id_spec(),
                ));
            }
        }
        i = i + 1;
    }
    proof {
        assert(vocabulary().take(i as int) =~= vocabulary());
        assert forall|id: Seq<char>| catalog@.contains_key(id) <==> names_selected(of, id) by {
            if names_selected(of, id) {
                let command = choose|command: Command|
                    selected(of, command) && #[trigger] command.id_spec() == id;
                lemma_vocabulary_complete(command);
                let j = choose|j: int| 0 <= j < vocabulary().len() && vocabulary()[j] == command;
                assert(vocabulary()[j].id_spec() == id);
            }
            if catalog@.contains_key(id) {
                let j = choose|j: int|
                    0 <= j < i && selected(of, vocabulary()[j]) && #[trigger] vocabulary()[j].id_spec()
                        == id;
                assert(selected(of, vocabulary()[j]) && vocabulary()[j].id_spec() == id);
            }
        }
        assert(catalog@ =~= handlers_of(of));
        assert(catalog.labels() =~= labels_of(of));
    }
    catalog
}

/// The catalog of a responder in the given role: each command that the role
/// answers, under its identifier and with itself as the handler.
pub fn responder_catalog(role: Role) -> (catalog: Catalog<Command>)
    ensures
        catalog.wf(),
        catalog@ == handlers_of(Some(role)),
        catalog.labels() == labels_of(Some(role)),
        catalog.ids_in_order() == ids_of(Some(role)),
{
    catalog_of(Some(role))
}

/// The catalog of a requester: every identifier that it may send.
pub fn requester_catalog() -> (catalog: Catalog<Command>)
    ensures
        catalog.wf(),
        catalog@ == handlers_of(None),
        catalog.labels() == labels_of(None),
        catalog.ids_in_order() == ids_of(None),
{
    catalog_of(None)
}

/// Every command of the vocabulary is in the catalog of the role that
/// answers it and in the catalog of the requester, under its identifier.
pub proof fn law_catalogs_cover_the_vocabulary(command: Command)
    ensures
        handlers_of(Some(command.role_spec())).contains_key(command.id_spec()),
        handlers_of(Some(command.role_spec()))[command.id_spec()] == command,
        handlers_of(None).contains_key(command.id_spec()),
        handlers_of(None)[command.id_spec()] == command,
{
    lemma_command_named(command);
    assert(names_selected(Some(command.role_spec()), command.id_spec()));
    assert(names_selected(None, command.id_spec()));
}

/// A responder's catalog holds the commands of its role only.
pub proof fn law_catalogs_keep_to_their_role(role: Role, command: Command)
    ensures
        handlers_of(Some(role)).contains_key(command.id_spec()) <==> command.role_spec() == role,
{
    if handlers_of(Some(role)).contains_key(command.id_spec()) {
        let other = choose|other: Command|
            selected(Some(role), other) && #[trigger] other.id_spec() == command.id_spec();
        lemma_ids_distinct(other, command);
    }
    if command.role_spec() == role {
        assert(names_selected(Some(role), command.id_spec()));
    }
}

} // verus!
