//! The registry: the outcome of converting each declaration of a batch, by
//! the identity of the declaration.
use vstd::prelude::*;
use std::collections::HashMap;
use crate::complete_type::{complete_type, CompleteType, CompleteTypeView};
use crate::cpp_type::{CppType, CppTypeView};
use crate::errors::BridgeError;

verus! {

/// A declaration of a batch: a native type under the identity of what
/// declares it.
#[derive(Debug, PartialEq, Eq, Hash)]
pub struct Declaration {
    /// The identity of the declaration.
    pub id: u64,
    /// The declared type.
    pub cpp_type: CppType,
}

/// The mathematical value of a [`Declaration`].
pub struct DeclarationView {
    pub id: u64,
    pub cpp_type: CppTypeView,
}

impl View for Declaration {
    type V = DeclarationView;

    open spec fn view(&self) -> DeclarationView {
        DeclarationView { id: self.id, cpp_type: self.cpp_type@ }
    }
}

/// The values of the declarations of `declarations`, in order.
pub open spec fn declaration_views(declarations: Seq<Declaration>) -> Seq<DeclarationView> {
    declarations.map_values(|d: Declaration| d@)
}

/// The mathematical value of the outcome of one conversion.
pub open spec fn outcome_view(outcome: Result<CompleteType, BridgeError>) -> Result<
    CompleteTypeView,
    BridgeError,
> {
    match outcome {
        Ok(record) => Ok(record@),
        Err(e) => Err(e),
    }
}

/// The registry that holds, for each declaration of `declarations`, the
/// outcome of converting its type. The outcomes are entered in the order of
/// the declarations.
pub open spec fn registry_of(declarations: Seq<DeclarationView>) -> Map<
    u64,
    Result<CompleteTypeView, BridgeError>,
>
    decreases declarations.len(),
{
    if declarations.len() == 0 {
        Map::empty()
    } else {
        registry_of(declarations.drop_last()).insert(
            declarations.last().id,
            complete_type(declarations.last().cpp_type),
        )
    }
}

/// Whether no two declarations of `declarations` have the same identity.
pub open spec fn has_unique_ids(declarations: Seq<DeclarationView>) -> bool {
    forall|i: int, j: int|
        0 <= i < j < declarations.len() ==> (#[trigger] declarations[i]).id != (
        #[trigger] declarations[j]).id
}

/// The registry of a batch holds an entry for each declaration and for
/// nothing else, and the entry of a declaration with an identity of its own
/// is the outcome of converting that declaration's type: it depends on no
/// other declaration.
pub proof fn lemma_registry_entries(declarations: Seq<DeclarationView>)
    ensures
        forall|id: u64|
            registry_of(declarations).contains_key(id) <==> exists|i: int|
                0 <= i < declarations.len() && (#[trigger] declarations[i]).id == id,
        has_unique_ids(declarations) ==> forall|i: int|
            0 <= i < declarations.len() ==> registry_of(declarations)[(
            #[trigger] declarations[i]).id] == complete_type(declarations[i].cpp_type),
    decreases declarations.len(),
{
    if declarations.len() > 0 {
        let front = declarations.drop_last();
        let last = declarations.last();
        lemma_registry_entries(front);
        assert forall|id: u64|
            registry_of(declarations).contains_key(id) <==> exists|i: int|
                0 <= i < declarations.len() && (#[trigger] declarations[i]).id == id by {
            if registry_of(declarations).contains_key(id) {
                if id == last.id {
                    assert(declarations[declarations.len() - 1].id == id);
                } else {
                    let i = choose|i: int| 0 <= i < front.len() && (#[trigger] front[i]).id == id;
                    assert(declarations[i].id == id);
                }
            }
            if exists|i: int| 0 <= i < declarations.len() && (#[trigger] declarations[i]).id == id {
                let i = choose|i: int|
                    0 <= i < declarations.len() && (#[trigger] declarations[i]).id == id;
                if i < front.len() {
                    assert(front[i].id == id);
                }
            }
        }
        if has_unique_ids(declarations) {
            assert(has_unique_ids(front)) by {
                assert forall|i: int, j: int| 0 <= i < j < front.len() implies (
                #[trigger] front[i]).id != (#[trigger] front[j]).id by {
                    assert(declarations[i].id != declarations[j].id);
                }
            }
            assert forall|i: int| 0 <= i < declarations.len() implies registry_of(declarations)[(
            #[trigger] declarations[i]).id] == complete_type(declarations[i].cpp_type) by {
                if i < front.len() {
                    assert(declarations[i].id != declarations[declarations.len() - 1].id);
                    assert(front[i] == declarations[i]);
                }
            }
        }
    }
}

/// The order in which the outcomes arrive does not matter: two batches that
/// hold the same declarations, each identity once, in any two orders, give
/// the same registry.
pub proof fn lemma_registry_order_independent(a: Seq<DeclarationView>, b: Seq<DeclarationView>)
    requires
        has_unique_ids(a),
        a.to_multiset() == b.to_multiset(),
    ensures
        has_unique_ids(b),
        registry_of(a) == registry_of(b),
{
    a.to_multiset_ensures();
    b.to_multiset_ensures();
    assert forall|x: DeclarationView| a.contains(x) <==> b.contains(x) by {
        assert(a.contains(x) <==> a.to_multiset().count(x) > 0);
        assert(b.contains(x) <==> b.to_multiset().count(x) > 0);
    }
    assert(a.no_duplicates());
    a.lemma_multiset_has_no_duplicates();
    b.lemma_multiset_has_no_duplicates_conv();
    assert forall|i: int, j: int| 0 <= i < j < b.len() implies (#[trigger] b[i]).id != (
    #[trigger] b[j]).id by {
        assert(b.contains(b[i]));
        assert(b.contains(b[j]));
        assert(a.contains(b[i]));
        assert(a.contains(b[j]));
        let p = choose|p: int| 0 <= p < a.len() && a[p] == b[i];
        let q = choose|q: int| 0 <= q < a.len() && a[q] == b[j];
        assert(b[i] != b[j]);
        if p < q {
            assert(a[p].id != a[q].id);
        } else {
            assert(a[q].id != a[p].id);
        }
    }
    lemma_registry_entries(a);
    lemma_registry_entries(b);
    assert forall|id: u64| registry_of(a).contains_key(id) implies registry_of(b).contains_key(id)
        && registry_of(a)[id] == registry_of(b)[id] by {
        let i = choose|i: int| 0 <= i < a.len() && (#[trigger] a[i]).id == id;
        assert(a.contains(a[i]));
        assert(b.contains(a[i]));
        let j = choose|j: int| 0 <= j < b.len() && b[j] == a[i];
        assert(b[j].id == id);
    }
    assert forall|id: u64| registry_of(b).contains_key(id) implies registry_of(a).contains_key(
        id,
    ) by {
        let j = choose|j: int| 0 <= j < b.len() && (#[trigger] b[j]).id == id;
        assert(b.contains(b[j]));
        assert(a.contains(b[j]));
        let i = choose|i: int| 0 <= i < a.len() && a[i] == b[j];
        assert(a[i].id == id);
    }
    assert(registry_of(a) =~= registry_of(b));
}

/// The outcomes of a batch of conversions, by the identity of the
/// declaration. A failed conversion is an entry like any other: it does not
/// stand in the way of the other declarations.
#[derive(Debug)]
pub struct Registry {
    entries: HashMap<u64, Result<CompleteType, BridgeError>>,
}

impl View for Registry {
    type V = Map<u64, Result<CompleteTypeView, BridgeError>>;

    closed spec fn view(&self) -> Map<u64, Result<CompleteTypeView, BridgeError>> {
        self.entries@.map_values(|outcome: Result<CompleteType, BridgeError>| outcome_view(outcome))
    }
}

impl Registry {
    /// A registry without entries.
    pub fn new() -> (registry: Registry)
        ensures
            registry@ == Map::<u64, Result<CompleteTypeView, BridgeError>>::empty(),
    {
        Registry { entries: HashMap::new() }
    }

    /// Enters `outcome` for the declaration `id`, in place of an earlier
    /// outcome for it if there is one.
    pub fn record(&mut self, id: u64, outcome: Result<CompleteType, BridgeError>)
        ensures
            final(self)@ == old(self)@.insert(id, outcome_view(outcome)),
    {
        self.entries.insert(id, outcome);
    }

    /// The outcome for the declaration `id`, if one was entered.
    pub fn get(&self, id: u64) -> (outcome: Option<&Result<CompleteType, BridgeError>>)
        ensures
            match outcome {
                Some(found) => self@.contains_key(id) && self@[id] == outcome_view(*found),
                None => !self@.contains_key(id),
            },
    {
        self.entries.get(&id)
    }

    /// The number of entries.
    pub fn len(&self) -> (n: usize)
        ensures
            n == self@.len(),
    {
        proof {
            assert(self@.dom() =~= self.entries@.dom());
        }
        self.entries.len()
    }
}

/// Converts the type of each declaration of `declarations` and enters the
/// outcome under the declaration's identity, in the order of the batch.
pub fn convert_all(declarations: &Vec<Declaration>) -> (registry: Registry)
    ensures
        registry@ == registry_of(declaration_views(declarations@)),
{
    let ghost batch = declaration_views(declarations@);
    let mut registry = Registry::new();
    let mut i: usize = 0;
    while i < declarations.len()
        invariant
            i <= declarations@.len(),
            batch == declaration_views(declarations@),
            registry@ == registry_of(batch.take(i as int)),
        decreases declarations@.len() - i,
    {
        let outcome = CompleteType::new(declarations[i].cpp_type.clone());
        proof {
            assert(batch.take(i as int + 1).drop_last() =~= batch.take(i as int));
        }
        registry.record(declarations[i].id, outcome);
        i = i + 1;
    }
    proof {
        assert(batch.take(declarations@.len() as int) =~= batch);
    }
    registry
}

} // verus!
