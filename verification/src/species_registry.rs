//! The read-only species catalog consulted by id.
//!
//! [`SpeciesRegistry`] is the interface the engine sees: a stable map from
//! numeric species id to species template. [`SpeciesTable`] is the crate's
//! own registry, a vector of species with pairwise distinct ids.

use vstd::prelude::*;

verus! {

use crate::experience::GrowthRate;
use crate::species::{LearnableMove, Species, SpeciesId};
use crate::stats::BaseStats;

/// A read-only catalog of species, looked up by id.
pub trait SpeciesRegistry {
    /// The catalog's contents as a map from numeric id to species template.
    spec fn catalog(&self) -> Map<u64, Species>;

    /// Looks the species up by id.
    fn get_species(&self, species_id: SpeciesId) -> (r: Option<&Species>)
        ensures
            match r {
                Some(s) => self.catalog().contains_key(species_id.0) && *s == self.catalog()[species_id.0],
                None => !self.catalog().contains_key(species_id.0),
            },
    ;

    /// The base stats of the species, if the id resolves.
    fn get_base_stats(&self, species_id: SpeciesId) -> (r: Option<&BaseStats>)
        ensures
            match r {
                Some(b) => self.catalog().contains_key(species_id.0) && *b == self.catalog()[species_id.0].base_stats,
                None => !self.catalog().contains_key(species_id.0),
            },
    {
        match self.get_species(species_id) {
            Some(s) => Some(&s.base_stats),
            None => None,
        }
    }

    /// The growth rate of the species, if the id resolves.
    fn get_growth_rate(&self, species_id: SpeciesId) -> (r: Option<&GrowthRate>)
        ensures
            match r {
                Some(g) => self.catalog().contains_key(species_id.0) && *g == self.catalog()[species_id.0].growth_rate,
                None => !self.catalog().contains_key(species_id.0),
            },
    {
        match self.get_species(species_id) {
            Some(s) => Some(&s.growth_rate),
            None => None,
        }
    }

    /// The learnset of the species, if the id resolves.
    fn get_learnset(&self, species_id: SpeciesId) -> (r: Option<&[LearnableMove]>)
        ensures
            match r {
                Some(ls) => self.catalog().contains_key(species_id.0) && ls@ == self.catalog()[species_id.0].learnset@,
                None => !self.catalog().contains_key(species_id.0),
            },
    {
        match self.get_species(species_id) {
            Some(s) => Some(s.learnset.as_slice()),
            None => None,
        }
    }
}

/// The species a sequence of templates stands for, later entries shadowing
/// earlier ones with the same id.
pub open spec fn catalog_of(s: Seq<Species>) -> Map<u64, Species>
    decreases s.len(),
{
    if s.len() == 0 {
        Map::empty()
    } else {
        catalog_of(s.drop_last()).insert(s.last().id.0, s.last())
    }
}

/// An id is in the catalog of a sequence exactly when some entry carries it.
pub proof fn lemma_catalog_of_contains(s: Seq<Species>, id: u64)
    ensures
        catalog_of(s).contains_key(id) <==> exists|i: int| 0 <= i < s.len() && s[i].id.0 == id,
    decreases s.len(),
{
    if s.len() > 0 {
        lemma_catalog_of_contains(s.drop_last(), id);
        if catalog_of(s).contains_key(id) {
            if s.last().id.0 == id {
                assert(s[s.len() - 1].id.0 == id);
            } else {
                let i = choose|i: int| 0 <= i < s.drop_last().len() && s.drop_last()[i].id.0 == id;
                assert(s[i].id.0 == id);
            }
        }
        if exists|i: int| 0 <= i < s.len() && s[i].id.0 == id {
            let i = choose|i: int| 0 <= i < s.len() && s[i].id.0 == id;
            if i < s.len() - 1 {
                assert(s.drop_last()[i].id.0 == id);
            }
        }
    }
}

/// An entry with no later entry of the same id is what its id maps to.
pub proof fn lemma_catalog_of_index(s: Seq<Species>, i: int)
    requires
        0 <= i < s.len(),
        forall|j: int| i < j < s.len() ==> s[j].id.0 != s[i].id.0,
    ensures
        catalog_of(s).contains_key(s[i].id.0),
        catalog_of(s)[s[i].id.0] == s[i],
    decreases s.len(),
{
    if i == s.len() - 1 {
    } else {
        assert(s.drop_last()[i] == s[i]);
        lemma_catalog_of_index(s.drop_last(), i);
    }
}

/// A species catalog held as a vector of templates with distinct ids.
#[derive(Debug)]
pub struct SpeciesTable {
    species: Vec<Species>,
}

impl SpeciesTable {
    #[verifier::type_invariant]
    spec fn ids_distinct(self) -> bool {
        forall|i: int, j: int|
            0 <= i < j < self.species@.len() ==> self.species@[i].id.0 != self.species@[j].id.0
    }

    /// An empty catalog.
    pub fn new() -> (r: Self)
        ensures
            r.catalog() == Map::<u64, Species>::empty(),
    {
        SpeciesTable { species: Vec::new() }
    }

    /// Adds a species template; refused when the id is already taken.
    pub fn add(&mut self, species: Species) -> (r: bool)
        ensures
            r <==> !old(self).catalog().contains_key(species.id.0),
            r ==> final(self).catalog() == old(self).catalog().insert(species.id.0, species),
            !r ==> final(self).catalog() == old(self).catalog(),
    {
        proof {
            use_type_invariant(&*self);
        }
        let taken = self.get_species(species.id).is_some();
        proof {
            lemma_catalog_of_contains(self.species@, species.id.0);
        }
        if taken {
            false
        } else {
            let ghost prev = self.species@;
            let mut entries: Vec<Species> = Vec::new();
            core::mem::swap(&mut self.species, &mut entries);
            entries.push(species);
            core::mem::swap(&mut self.species, &mut entries);
            proof {
                assert(self.species@.drop_last() =~= prev);
            }
            true
        }
    }
}

impl SpeciesRegistry for SpeciesTable {
    closed spec fn catalog(&self) -> Map<u64, Species> {
        catalog_of(self.species@)
    }

    fn get_species(&self, species_id: SpeciesId) -> (r: Option<&Species>) {
        proof {
            use_type_invariant(self);
        }
        let n = self.species.len();
        for i in 0..n
            invariant
                n == self.species@.len(),
                self.ids_distinct(),
                forall|j: int| 0 <= j < i ==> self.species@[j].id.0 != species_id.0,
        {
            if self.species[i].id.0 == species_id.0 {
                proof {
                    lemma_catalog_of_index(self.species@, i as int);
                }
                return Some(&self.species[i]);
            }
        }
        proof {
            lemma_catalog_of_contains(self.species@, species_id.0);
        }
        None
    }
}

} // verus!
