//! The archetype catalog and the rule that turns a label into the bundle of
//! reference schemas for the generation stage.

use vstd::prelude::*;
use vstd::string::*;
use crate::text::option_text;

verus! {

/// One archetype of the catalog: the components it is made of, in the
/// order the catalog declares them, and what it is for.
#[derive(Clone, Debug, PartialEq, Eq)]
pub struct Archetype {
    pub label: String,
    pub classes: Vec<String>,
    pub descr: Option<String>,
}

/// The schema document of one component.
#[derive(Clone, Debug, PartialEq, Eq)]
pub struct ComponentDocument {
    pub name: String,
    pub text: String,
}

/// The reference data: archetypes by label, schema documents by name.
/// Where a label or a name stands twice, the first entry counts.
#[derive(Clone, Debug, PartialEq, Eq)]
pub struct Catalog {
    pub archetypes: Vec<Archetype>,
    pub documents: Vec<ComponentDocument>,
}

/// The reference material handed to the generation stage.
#[derive(Clone, Debug, PartialEq, Eq)]
pub struct GenerationContext {
    pub components: Vec<String>,
    pub description: Option<String>,
}

/// The catalog names a component whose document it does not hold.
#[derive(Clone, Debug, PartialEq, Eq)]
pub struct CatalogIntegrityError {
    pub component: String,
}

/// A generation context as mathematics.
pub struct ContextView {
    pub components: Seq<Seq<char>>,
    pub description: Option<Seq<char>>,
}

impl View for GenerationContext {
    type V = ContextView;

    open spec fn view(&self) -> ContextView {
        ContextView {
            components: crate::text::views(self.components@),
            description: option_text(self.description),
        }
    }
}

/// The first archetype of `entries` whose label is `label`.
pub open spec fn find_archetype(entries: Seq<Archetype>, label: Seq<char>) -> Option<Archetype>
    decreases entries.len(),
{
    if entries.len() == 0 {
        None
    } else if entries.first().label@ == label {
        Some(entries.first())
    } else {
        find_archetype(entries.drop_first(), label)
    }
}

/// The text of the first document of `docs` whose name is `name`.
pub open spec fn find_document(docs: Seq<ComponentDocument>, name: Seq<char>) -> Option<
    Seq<char>,
>
    decreases docs.len(),
{
    if docs.len() == 0 {
        None
    } else if docs.first().name@ == name {
        Some(docs.first().text@)
    } else {
        find_document(docs.drop_first(), name)
    }
}

/// Whether `names[k]` is the first name without a document in `docs`.
pub open spec fn first_missing(docs: Seq<ComponentDocument>, names: Seq<String>, k: int) -> bool {
    &&& 0 <= k < names.len()
    &&& find_document(docs, names[k]@) is None
    &&& forall|j: int| 0 <= j < k ==> (#[trigger] find_document(docs, names[j]@)) is Some
}

/// The documents of `names`, name for name, where each name has one.
pub open spec fn component_texts(docs: Seq<ComponentDocument>, names: Seq<String>) -> Seq<
    Seq<char>,
> {
    Seq::new(names.len(), |i: int| find_document(docs, names[i]@).unwrap())
}

/// Whether every one of `names` has a document in `docs`.
pub open spec fn all_present(docs: Seq<ComponentDocument>, names: Seq<String>) -> bool {
    forall|i: int| 0 <= i < names.len() ==> (#[trigger] find_document(docs, names[i]@)) is Some
}

impl Catalog {
    /// The archetype filed under `label`, if there is one.
    pub open spec fn archetype(&self, label: Seq<char>) -> Option<Archetype> {
        find_archetype(self.archetypes@, label)
    }

    /// The schema document filed under `name`, if there is one.
    pub open spec fn document(&self, name: Seq<char>) -> Option<Seq<char>> {
        find_document(self.documents@, name)
    }

    /// Whether the catalog holds a document for every component of the
    /// archetype filed under `label`. It does where there is no such
    /// archetype.
    pub open spec fn complete_for(&self, label: Seq<char>) -> bool {
        match self.archetype(label) {
            None => true,
            Some(entry) => all_present(self.documents@, entry.classes@),
        }
    }

    /// The generation context that belongs to `label`.
    pub open spec fn context_for(&self, label: Seq<char>) -> ContextView {
        match self.archetype(label) {
            None => ContextView { components: Seq::empty(), description: None },
            Some(entry) => ContextView {
                components: component_texts(self.documents@, entry.classes@),
                description: option_text(entry.descr),
            },
        }
    }

    /// Looks an archetype up by its label.
    pub fn lookup(&self, label: &str) -> (r: Option<&Archetype>)
        ensures
            r matches Some(a) ==> self.archetype(label@) == Some(*a),
            r is None ==> self.archetype(label@) is None,
    {
        let wanted: String = String::from_str(label);
        let mut i: usize = 0;
        proof {
            assert(self.archetypes@.skip(0) =~= self.archetypes@);
        }
        while i < self.archetypes.len()
            invariant
                i <= self.archetypes@.len(),
                wanted@ == label@,
                find_archetype(self.archetypes@, label@) == find_archetype(
                    self.archetypes@.skip(i as int),
                    label@,
                ),
            decreases self.archetypes@.len() - i,
        {
            proof {
                assert(self.archetypes@.skip(i as int).drop_first() =~= self.archetypes@.skip(
                    i as int + 1,
                ));
            }
            if self.archetypes[i].label == wanted {
                return Some(&self.archetypes[i]);
            }
            i = i + 1;
        }
        None
    }

    /// Fetches the schema document of a component by its name.
    pub fn fetch_component_schema(&self, name: &String) -> (r: Option<String>)
        ensures
            option_text(r) == self.document(name@),
    {
        let mut i: usize = 0;
        proof {
            assert(self.documents@.skip(0) =~= self.documents@);
        }
        while i < self.documents.len()
            invariant
                i <= self.documents@.len(),
                find_document(self.documents@, name@) == find_document(
                    self.documents@.skip(i as int),
                    name@,
                ),
            decreases self.documents@.len() - i,
        {
            proof {
                assert(self.documents@.skip(i as int).drop_first() =~= self.documents@.skip(
                    i as int + 1,
                ));
            }
            if self.documents[i].name == *name {
                return Some(self.documents[i].text.clone());
            }
            i = i + 1;
        }
        None
    }

    /// Assembles the generation context for a classification label.
    ///
    /// A label that the catalog does not know gives the empty context: no
    /// components, no description. A known one gives the documents of its
    /// components in the order the catalog declares them, with its
    /// description where it has one. A component without a document is an
    /// error that names the first such component; none is skipped.
    pub fn assemble(&self, label: &str) -> (r: Result<GenerationContext, CatalogIntegrityError>)
        ensures
            match r {
                Ok(ctx) => self.complete_for(label@) && ctx@ == self.context_for(label@),
                Err(e) => self.archetype(label@) matches Some(entry) && exists|k: int|
                    #[trigger] first_missing(self.documents@, entry.classes@, k)
                        && e.component@ == entry.classes@[k]@,
            },
    {
        match self.lookup(label) {
            None => {
                let ctx = GenerationContext { components: Vec::new(), description: None };
                assert(ctx@.components =~= Seq::empty());
                Ok(ctx)
            },
            Some(entry) => {
                let mut components: Vec<String> = Vec::new();
                let mut i: usize = 0;
                while i < entry.classes.len()
                    invariant
                        i <= entry.classes@.len(),
                        components@.len() == i,
                        self.archetype(label@) == Some(*entry),
                        forall|j: int|
                            0 <= j < i ==> (#[trigger] find_document(
                                self.documents@,
                                entry.classes@[j]@,
                            )) == Some(components@[j]@),
                    decreases entry.classes@.len() - i,
                {
                    match self.fetch_component_schema(&entry.classes[i]) {
                        None => {
                            proof {
                                assert(first_missing(self.documents@, entry.classes@, i as int));
                            }
                            return Err(
                                CatalogIntegrityError { component: entry.classes[i].clone() },
                            );
                        },
                        Some(text) => {
                            components.push(text);
                        },
                    }
                    i = i + 1;
                }
                let description: Option<String> = match &entry.descr {
                    Some(d) => Some(d.clone()),
                    None => None,
                };
                let ctx = GenerationContext { components, description };
                assert(ctx@.components =~= component_texts(self.documents@, entry.classes@));
                Ok(ctx)
            },
        }
    }
}

/// A label that the catalog does not know has the empty context, and
/// nothing can be missing for it.
pub proof fn lemma_unknown_label_is_empty(catalog: Catalog, label: Seq<char>)
    requires
        catalog.archetype(label) is None,
    ensures
        catalog.complete_for(label),
        catalog.context_for(label).components.len() == 0,
        catalog.context_for(label).description is None,
{
}

/// A label that the catalog knows has one component text for each name the
/// archetype declares, at the same position, and lacks a description only
/// where the archetype has none.
pub proof fn lemma_known_label_keeps_order(catalog: Catalog, label: Seq<char>, i: int)
    requires
        catalog.archetype(label) is Some,
        catalog.complete_for(label),
        0 <= i < catalog.archetype(label).unwrap().classes@.len(),
    ensures
        catalog.context_for(label).components.len() == catalog.archetype(
            label,
        ).unwrap().classes@.len(),
        Some(catalog.context_for(label).components[i]) == catalog.document(
            catalog.archetype(label).unwrap().classes@[i]@,
        ),
        catalog.context_for(label).description is None <==> catalog.archetype(
            label,
        ).unwrap().descr is None,
{
}

} // verus!
