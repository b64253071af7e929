//! Names of the entry definitions of a DNA's zomes, and the registry that
//! keeps them for rendering source chains.

use vstd::prelude::*;
use vstd::string::*;

verus! {

/// The identifier of an entry definition, as a zome's `entry_defs`
/// callback reports it.
pub enum EntryDefId {
    /// An entry type that the zome defines, with its name.
    App(String),
    CapClaim,
    CapGrant,
}

/// The name under which an entry definition is shown.
pub open spec fn entry_def_name(id: EntryDefId) -> Seq<char> {
    match id {
        EntryDefId::App(name) => name@,
        EntryDefId::CapClaim => "CapClaim"@,
        EntryDefId::CapGrant => "CapGrant"@,
    }
}

/// The names of a zome's entry definitions, in the order of its callback.
pub open spec fn zome_names(defs: Seq<EntryDefId>) -> Seq<Seq<char>> {
    defs.map_values(|d: EntryDefId| entry_def_name(d))
}

/// The names of the entry definitions of every zome of a DNA, zome by zome.
pub open spec fn dna_names(zomes: Seq<Vec<EntryDefId>>) -> Seq<Seq<Seq<char>>> {
    zomes.map_values(|defs: Vec<EntryDefId>| zome_names(defs@))
}

/// The name under which an entry definition is shown.
pub fn entry_def_name_string(id: &EntryDefId) -> (res: String)
    ensures
        res@ == entry_def_name(*id),
        *id matches EntryDefId::App(name) ==> res@ == name@,
{
    match id {
        EntryDefId::App(name) => name.clone(),
        EntryDefId::CapClaim => String::from_str("CapClaim"),
        EntryDefId::CapGrant => String::from_str("CapGrant"),
    }
}

/// The names of a zome's entry definitions, given what its `entry_defs`
/// callback returned.
pub fn zome_entry_names(defs: &Vec<EntryDefId>) -> (res: Vec<String>)
    ensures
        res.deep_view() == zome_names(defs@),
        res.len() == defs.len(),
        forall|i: int| 0 <= i < defs.len() ==> (#[trigger] res@[i])@ == entry_def_name(defs@[i]),
        forall|i: int| 0 <= i < defs.len() ==> (defs@[i] matches EntryDefId::App(name) ==> (#[trigger] res@[i])@ == name@),
{
    let mut res: Vec<String> = Vec::new();
    let mut i: usize = 0;
    while i < defs.len()
        invariant
            i <= defs.len(),
            res.deep_view() == zome_names(defs@.take(i as int)),
        decreases defs.len() - i,
    {
        let name = entry_def_name_string(&defs[i]);
        let ghost before = res.deep_view();
        res.push(name);
        assert(res.deep_view() =~= before.push(entry_def_name(defs@[i as int])));
        assert(defs@.take(i + 1) =~= defs@.take(i as int).push(defs@[i as int]));
        i = i + 1;
        assert(res.deep_view() =~= zome_names(defs@.take(i as int)));
    }
    assert(defs@.take(i as int) =~= defs@);
    proof {
        law_zome_names_one_per_definition(defs@);
        assert forall|k: int| 0 <= k < defs.len() implies (#[trigger] res@[k])@ == entry_def_name(defs@[k]) by {
            assert(res.deep_view()[k] == res@[k]@);
        }
    }
    res
}

/// The names of the entry definitions of every zome of a DNA, given what
/// each zome's `entry_defs` callback returned, in the order of the zomes.
pub fn dna_entry_names(zomes: &Vec<Vec<EntryDefId>>) -> (res: Vec<Vec<String>>)
    ensures
        res.deep_view() == dna_names(zomes@),
        res.len() == zomes.len(),
        forall|z: int| 0 <= z < zomes.len() ==> (#[trigger] res@[z]).len() == zomes@[z].len(),
        forall|z: int, e: int|
            0 <= z < zomes.len() && 0 <= e < zomes@[z].len() ==> (#[trigger] res@[z]@[e])@ == entry_def_name(
                zomes@[z]@[e],
            ),
{
    let mut res: Vec<Vec<String>> = Vec::new();
    let mut i: usize = 0;
    while i < zomes.len()
        invariant
            i <= zomes.len(),
            res.deep_view() == dna_names(zomes@.take(i as int)),
        decreases zomes.len() - i,
    {
        let names = zome_entry_names(&zomes[i]);
        let ghost before = res.deep_view();
        res.push(names);
        assert(res.deep_view() =~= before.push(zome_names(zomes@[i as int]@)));
        assert(zomes@.take(i + 1) =~= zomes@.take(i as int).push(zomes@[i as int]));
        i = i + 1;
        assert(res.deep_view() =~= dna_names(zomes@.take(i as int)));
    }
    assert(zomes@.take(i as int) =~= zomes@);
    proof {
        law_dna_names_one_list_per_zome(zomes@);
        assert forall|z: int| 0 <= z < zomes.len() implies (#[trigger] res@[z]).len() == zomes@[z].len() by {
            assert(res.deep_view()[z] == res@[z].deep_view());
        }
        assert forall|z: int, e: int|
            0 <= z < zomes.len() && 0 <= e < zomes@[z].len() implies (#[trigger] res@[z]@[e])@ == entry_def_name(
                zomes@[z]@[e],
            ) by {
            assert(res.deep_view()[z] == res@[z].deep_view());
            assert(res@[z].deep_view()[e] == res@[z]@[e]@);
        }
    }
    res
}

/// An entry definition of the app is shown under its own name, unchanged
/// and whole; the two system definitions under `CapClaim` and `CapGrant`.
pub proof fn law_entry_def_shown_by_own_name(name: String)
    ensures
        entry_def_name(EntryDefId::App(name)) == name@,
        entry_def_name(EntryDefId::App(name)).len() == name@.len(),
        entry_def_name(EntryDefId::CapClaim) == "CapClaim"@,
        entry_def_name(EntryDefId::CapGrant) == "CapGrant"@,
{
}

/// A zome's name list has one name per definition its callback returned,
/// in the callback's order: name `i` is the name of definition `i`, and an
/// app definition's name is its own.
pub proof fn law_zome_names_one_per_definition(defs: Seq<EntryDefId>)
    ensures
        zome_names(defs).len() == defs.len(),
        forall|i: int| 0 <= i < defs.len() ==> #[trigger] zome_names(defs)[i] == entry_def_name(defs[i]),
        forall|i: int|
            0 <= i < defs.len() ==> (defs[i] matches EntryDefId::App(name) ==> #[trigger] zome_names(defs)[i] == name@),
{
}

/// A DNA's name list has one list per zome, in zome order: list `z` is the
/// name list of zome `z`, as long as that zome's definitions, and name `e`
/// in it is the name of definition `e` of zome `z`.
pub proof fn law_dna_names_one_list_per_zome(zomes: Seq<Vec<EntryDefId>>)
    ensures
        dna_names(zomes).len() == zomes.len(),
        forall|z: int| 0 <= z < zomes.len() ==> #[trigger] dna_names(zomes)[z] == zome_names(zomes[z]@),
        forall|z: int| 0 <= z < zomes.len() ==> (#[trigger] dna_names(zomes)[z]).len() == zomes[z]@.len(),
        forall|z: int, e: int|
            0 <= z < zomes.len() && 0 <= e < zomes[z]@.len() ==> #[trigger] dna_names(zomes)[z][e] == entry_def_name(
                zomes[z]@[e],
            ),
{
    assert forall|z: int| 0 <= z < zomes.len() implies (#[trigger] dna_names(zomes)[z]).len() == zomes[z]@.len() by {
        law_zome_names_one_per_definition(zomes[z]@);
    }
    assert forall|z: int, e: int|
        0 <= z < zomes.len() && 0 <= e < zomes[z]@.len() implies #[trigger] dna_names(zomes)[z][e] == entry_def_name(
            zomes[z]@[e],
        ) by {
        law_zome_names_one_per_definition(zomes[z]@);
    }
}

/// A copy of `names` with the same contents.
fn copy_names(names: &Vec<Vec<String>>) -> (res: Vec<Vec<String>>)
    ensures
        res.deep_view() == names.deep_view(),
{
    let mut res: Vec<Vec<String>> = Vec::new();
    let mut i: usize = 0;
    while i < names.len()
        invariant
            i <= names.len(),
            res.deep_view() == names.deep_view().take(i as int),
        decreases names.len() - i,
    {
        let zome = &names[i];
        let mut copy: Vec<String> = Vec::new();
        let mut j: usize = 0;
        while j < zome.len()
            invariant
                j <= zome.len(),
                copy.deep_view() == zome.deep_view().take(j as int),
            decreases zome.len() - j,
        {
            let ghost before = copy.deep_view();
            copy.push(zome[j].clone());
            assert(copy.deep_view() =~= before.push(zome.deep_view()[j as int]));
            j = j + 1;
            assert(copy.deep_view() =~= zome.deep_view().take(j as int));
        }
        assert(copy.deep_view() =~= zome.deep_view());
        let ghost before = res.deep_view();
        res.push(copy);
        assert(res.deep_view() =~= before.push(names.deep_view()[i as int]));
        i = i + 1;
        assert(res.deep_view() =~= names.deep_view().take(i as int));
    }
    assert(res.deep_view() =~= names.deep_view());
    res
}

/// The entry-definition names of the DNA under test, zome by zome, kept so
/// that source chains can be rendered with the names of their entries.
pub struct EntryNameRegistry {
    names: Vec<Vec<String>>,
}

impl View for EntryNameRegistry {
    type V = Seq<Seq<Seq<char>>>;

    closed spec fn view(&self) -> Seq<Seq<Seq<char>>> {
        self.names.deep_view()
    }
}

impl EntryNameRegistry {
    /// A registry that holds no names yet.
    pub fn new() -> (res: EntryNameRegistry)
        ensures
            res@ == Seq::<Seq<Seq<char>>>::empty(),
    {
        let res = EntryNameRegistry { names: Vec::new() };
        assert(res@ =~= Seq::<Seq<Seq<char>>>::empty());
        res
    }

    /// A copy of the names that the registry holds.
    pub fn get_entry_names(&self) -> (res: Vec<Vec<String>>)
        ensures
            res.deep_view() == names_read(self@),
    {
        copy_names(&self.names)
    }

    /// Replaces the names that the registry holds.
    pub fn set_entry_names(&mut self, entry_names: Vec<Vec<String>>)
        ensures
            final(self)@ == held_after_write(old(self)@, entry_names.deep_view()),
    {
        self.names = entry_names;
    }
}

/// What a registry holds after `written` was stored in one that held
/// `held`: a write replaces the names, whatever they were.
pub open spec fn held_after_write(held: Seq<Seq<Seq<char>>>, written: Seq<Seq<Seq<char>>>) -> Seq<Seq<Seq<char>>> {
    written
}

/// What a read of a registry that holds `held` gives back.
pub open spec fn names_read(held: Seq<Seq<Seq<char>>>) -> Seq<Seq<Seq<char>>> {
    held
}

/// What a registry that held `held` holds after each of `writes` was
/// stored in turn.
pub open spec fn held_after_writes(held: Seq<Seq<Seq<char>>>, writes: Seq<Seq<Seq<Seq<char>>>>) -> Seq<Seq<Seq<char>>>
    decreases writes.len(),
{
    if writes.len() == 0 {
        held
    } else {
        held_after_writes(held_after_write(held, writes[0]), writes.skip(1))
    }
}

/// Reading the registry gives back what the last write stored, whatever it
/// held before and whatever was written earlier; with no write, a read gives
/// back what it held.
pub proof fn law_read_gives_back_last_write(held: Seq<Seq<Seq<char>>>, writes: Seq<Seq<Seq<Seq<char>>>>)
    ensures
        writes.len() > 0 ==> names_read(held_after_writes(held, writes)) == writes.last(),
        writes.len() == 0 ==> names_read(held_after_writes(held, writes)) == held,
    decreases writes.len(),
{
    if writes.len() > 1 {
        law_read_gives_back_last_write(held_after_write(held, writes[0]), writes.skip(1));
        assert(writes.skip(1).last() == writes.last());
    } else if writes.len() == 1 {
        assert(writes.skip(1).len() == 0);
        assert(held_after_writes(held_after_write(held, writes[0]), writes.skip(1)) == writes[0]);
    }
}

} // verus!
