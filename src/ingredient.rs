use vstd::prelude::*;

verus! {

/// The mathematical value of an [`Ingredient`].
pub ghost struct IngredientView {
    pub id: u128,
    pub name: Seq<char>,
    pub unit: Seq<char>,
    pub measurement: Seq<char>,
}

/// An ingredient of a recipe. Its identity is its `id` alone: two ingredients
/// with the same id are the same ingredient, whatever their other fields say.
#[derive(Clone, Debug)]
pub struct Ingredient {
    id: u128,
    name: String,
    unit: String,
    measurement: String,
}

impl View for Ingredient {
    type V = IngredientView;

    closed spec fn view(&self) -> IngredientView {
        IngredientView {
            id: self.id,
            name: self.name@,
            unit: self.unit@,
            measurement: self.measurement@,
        }
    }
}

impl Ingredient {
    pub fn new(id: u128, name: String, unit: String, measurement: String) -> (r: Ingredient)
        ensures
            r@ == (IngredientView { id, name: name@, unit: unit@, measurement: measurement@ }),
    {
        Ingredient { id, name, unit, measurement }
    }

    pub fn id(&self) -> (r: u128)
        ensures
            r == self@.id,
    {
        self.id
    }

    pub fn name(&self) -> (r: &str)
        ensures
            r@ == self@.name,
    {
        self.name.as_str()
    }

    pub fn unit(&self) -> (r: &str)
        ensures
            r@ == self@.unit,
    {
        self.unit.as_str()
    }

    pub fn measurement(&self) -> (r: &str)
        ensures
            r@ == self@.measurement,
    {
        self.measurement.as_str()
    }
}

impl PartialEq for Ingredient {
    fn eq(&self, other: &Ingredient) -> (r: bool)
        ensures
            r == (self@.id == other@.id),
    {
        self.id == other.id
    }
}

impl vstd::std_specs::cmp::PartialEqSpecImpl for Ingredient {
    open spec fn obeys_eq_spec() -> bool {
        true
    }

    open spec fn eq_spec(&self, other: &Ingredient) -> bool {
        self@.id == other@.id
    }
}

impl Eq for Ingredient {
}

/// The ids of a sequence of ingredients are pairwise distinct.
pub open spec fn distinct_ids(s: Seq<Ingredient>) -> bool {
    forall|i: int, j: int| 0 <= i < j < s.len() ==> s[i]@.id != s[j]@.id
}

/// The ingredients of a sequence keyed by id; a later entry overrides an
/// earlier one with the same id.
pub open spec fn ingredient_map(s: Seq<Ingredient>) -> Map<u128, IngredientView>
    decreases s.len(),
{
    if s.len() == 0 {
        Map::empty()
    } else {
        ingredient_map(s.drop_last()).insert(s.last()@.id, s.last()@)
    }
}

proof fn lemma_map_domain(s: Seq<Ingredient>)
    ensures
        ingredient_map(s).dom().finite(),
        forall|k: u128|
            #![trigger ingredient_map(s).contains_key(k)]
            ingredient_map(s).contains_key(k) <==> exists|j: int| 0 <= j < s.len() && s[j]@.id == k,
    decreases s.len(),
{
    if s.len() > 0 {
        lemma_map_domain(s.drop_last());
        assert forall|k: u128| ingredient_map(s).contains_key(k) implies exists|j: int|
            0 <= j < s.len() && s[j]@.id == k by {
            if k != s.last()@.id {
                let j = choose|j: int| 0 <= j < s.drop_last().len() && s.drop_last()[j]@.id == k;
                assert(s[j]@.id == k);
            } else {
                assert(s[s.len() - 1]@.id == k);
            }
        }
        assert forall|k: u128| (exists|j: int| 0 <= j < s.len() && s[j]@.id == k) implies
            ingredient_map(s).contains_key(k) by {
            let j = choose|j: int| 0 <= j < s.len() && s[j]@.id == k;
            if j < s.len() - 1 {
                assert(s.drop_last()[j]@.id == k);
            }
        }
    }
}

proof fn lemma_map_values(s: Seq<Ingredient>)
    requires
        distinct_ids(s),
    ensures
        forall|j: int| 0 <= j < s.len() ==> #[trigger] ingredient_map(s)[s[j]@.id] == s[j]@,
    decreases s.len(),
{
    if s.len() > 0 {
        let t = s.drop_last();
        assert(distinct_ids(t));
        lemma_map_values(t);
        assert forall|j: int| 0 <= j < s.len() implies #[trigger] ingredient_map(s)[s[j]@.id] == s[j]@ by {
            if j < s.len() - 1 {
                assert(t[j] == s[j]);
                assert(s[j]@.id != s.last()@.id);
                assert(ingredient_map(t)[t[j]@.id] == t[j]@);
            }
        }
    }
}

proof fn lemma_map_len(s: Seq<Ingredient>)
    requires
        distinct_ids(s),
    ensures
        ingredient_map(s).len() == s.len(),
    decreases s.len(),
{
    if s.len() > 0 {
        let t = s.drop_last();
        assert(distinct_ids(t));
        lemma_map_len(t);
        lemma_map_domain(t);
        assert(!ingredient_map(t).contains_key(s.last()@.id));
    }
}

proof fn lemma_map_replace(s: Seq<Ingredient>, j: int, x: Ingredient)
    requires
        distinct_ids(s),
        0 <= j < s.len(),
        s[j]@.id == x@.id,
    ensures
        ingredient_map(s.update(j, x)) == ingredient_map(s).insert(x@.id, x@),
    decreases s.len(),
{
    let u = s.update(j, x);
    let t = s.drop_last();
    if j == s.len() - 1 {
        assert(u.drop_last() =~= t);
        assert(ingredient_map(u) =~= ingredient_map(s).insert(x@.id, x@));
    } else {
        assert(distinct_ids(t));
        lemma_map_replace(t, j, x);
        assert(u.drop_last() =~= t.update(j, x));
        assert(s.last()@.id != x@.id);
        assert(ingredient_map(u) =~= ingredient_map(s).insert(x@.id, x@));
    }
}

/// A set of ingredients keyed by id: no two members share an id.
pub struct IngredientSet {
    items: Vec<Ingredient>,
}

impl View for IngredientSet {
    type V = Map<u128, IngredientView>;

    closed spec fn view(&self) -> Map<u128, IngredientView> {
        ingredient_map(self.items@)
    }
}

impl IngredientSet {
    #[verifier::type_invariant]
    spec fn inv(self) -> bool {
        distinct_ids(self.items@)
    }

    /// The empty set.
    pub fn new() -> (r: IngredientSet)
        ensures
            r@ == Map::<u128, IngredientView>::empty(),
    {
        IngredientSet { items: Vec::new() }
    }

    /// Adds `ingredient`; a member with the same id is replaced by it.
    pub fn insert(&mut self, ingredient: Ingredient)
        ensures
            final(self)@ == old(self)@.insert(ingredient@.id, ingredient@),
    {
        proof { use_type_invariant(&*self); }
        let mut items: Vec<Ingredient> = Vec::new();
        std::mem::swap(&mut items, &mut self.items);
        let ghost s = items@;
        let mut i: usize = 0;
        while i < items.len()
            invariant
                items@ == s,
                ingredient_map(s) == old(self)@,
                distinct_ids(s),
                0 <= i <= s.len(),
                forall|j: int| 0 <= j < i ==> s[j]@.id != ingredient@.id,
            decreases s.len() - i,
        {
            if items[i].id == ingredient.id {
                proof { lemma_map_replace(s, i as int, ingredient); }
                items.set(i, ingredient);
                assert(items@ == s.update(i as int, ingredient));
                assert(distinct_ids(items@)) by {
                    assert forall|a: int, b: int| 0 <= a < b < items@.len() implies
                        items@[a]@.id != items@[b]@.id by {
                        assert(s[a]@.id != s[b]@.id);
                    }
                }
                self.items = items;
                return;
            }
            i = i + 1;
        }
        items.push(ingredient);
        assert(items@.drop_last() =~= s);
        self.items = items;
    }

    /// The number of members.
    pub fn len(&self) -> (r: usize)
        ensures
            r == self@.len(),
    {
        proof {
            use_type_invariant(self);
            lemma_map_len(self.items@);
        }
        self.items.len()
    }

    /// The member with id `id`, if there is one.
    pub fn get(&self, id: u128) -> (r: Option<&Ingredient>)
        ensures
            match r {
                Some(x) => self@.contains_key(id) && self@[id] == x@,
                None => !self@.contains_key(id),
            },
    {
        proof {
            use_type_invariant(self);
            lemma_map_domain(self.items@);
        }
        let mut i: usize = 0;
        while i < self.items.len()
            invariant
                0 <= i <= self.items@.len(),
                forall|j: int| 0 <= j < i ==> self.items@[j]@.id != id,
            decreases self.items@.len() - i,
        {
            if self.items[i].id == id {
                proof {
                    use_type_invariant(self);
                    lemma_map_domain(self.items@);
                    lemma_map_values(self.items@);
                    assert(self@[self.items@[i as int]@.id] == self.items@[i as int]@);
                }
                return Some(&self.items[i]);
            }
            i = i + 1;
        }
        None
    }

    /// Whether a member has id `id`.
    pub fn contains(&self, id: u128) -> (r: bool)
        ensures
            r == self@.contains_key(id),
    {
        self.get(id).is_some()
    }

    /// The members, each once, in no particular order.
    pub fn as_slice(&self) -> (r: &[Ingredient])
        ensures
            distinct_ids(r@),
            ingredient_map(r@) == self@,
    {
        proof { use_type_invariant(self); }
        self.items.as_slice()
    }
}

} // verus!
