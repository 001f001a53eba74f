use vstd::prelude::*;

verus! {

/// A free-form tag that helps describe a recipe. Two tags are equal when their
/// texts are equal.
#[derive(Clone, Debug, Hash)]
pub struct RecipeTag {
    tag: String,
}

impl View for RecipeTag {
    type V = Seq<char>;

    closed spec fn view(&self) -> Seq<char> {
        self.tag@
    }
}

impl RecipeTag {
    pub fn new(tag: String) -> (r: RecipeTag)
        ensures
            r@ == tag@,
    {
        RecipeTag { tag }
    }

    /// The tag's text.
    pub fn text(&self) -> (r: &str)
        ensures
            r@ == self@,
    {
        self.tag.as_str()
    }
}

impl PartialEq for RecipeTag {
    fn eq(&self, other: &RecipeTag) -> (r: bool)
        ensures
            r == (self@ == other@),
    {
        self.tag == other.tag
    }
}

impl vstd::std_specs::cmp::PartialEqSpecImpl for RecipeTag {
    open spec fn obeys_eq_spec() -> bool {
        true
    }

    open spec fn eq_spec(&self, other: &RecipeTag) -> bool {
        self@ == other@
    }
}

impl Eq for RecipeTag {
}

/// The texts of a sequence of tags are pairwise distinct.
pub open spec fn distinct_texts(s: Seq<RecipeTag>) -> bool {
    forall|i: int, j: int| 0 <= i < j < s.len() ==> s[i]@ != s[j]@
}

/// The texts of a sequence of tags, as a set.
pub open spec fn tag_texts(s: Seq<RecipeTag>) -> Set<Seq<char>>
    decreases s.len(),
{
    if s.len() == 0 {
        Set::empty()
    } else {
        tag_texts(s.drop_last()).insert(s.last()@)
    }
}

proof fn lemma_texts_members(s: Seq<RecipeTag>)
    ensures
        tag_texts(s).finite(),
        forall|t: Seq<char>|
            #![trigger tag_texts(s).contains(t)]
            tag_texts(s).contains(t) <==> exists|j: int| 0 <= j < s.len() && s[j]@ == t,
    decreases s.len(),
{
    if s.len() > 0 {
        let u = s.drop_last();
        lemma_texts_members(u);
        assert forall|t: Seq<char>| tag_texts(s).contains(t) implies exists|j: int|
            0 <= j < s.len() && s[j]@ == t by {
            if t != s.last()@ {
                let j = choose|j: int| 0 <= j < u.len() && u[j]@ == t;
                assert(s[j]@ == t);
            } else {
                assert(s[s.len() - 1]@ == t);
            }
        }
        assert forall|t: Seq<char>| (exists|j: int| 0 <= j < s.len() && s[j]@ == t) implies
            tag_texts(s).contains(t) by {
            let j = choose|j: int| 0 <= j < s.len() && s[j]@ == t;
            if j < s.len() - 1 {
                assert(u[j]@ == t);
            }
        }
    }
}

proof fn lemma_texts_len(s: Seq<RecipeTag>)
    requires
        distinct_texts(s),
    ensures
        tag_texts(s).len() == s.len(),
    decreases s.len(),
{
    if s.len() > 0 {
        let u = s.drop_last();
        assert(distinct_texts(u));
        lemma_texts_len(u);
        lemma_texts_members(u);
        assert(!tag_texts(u).contains(s.last()@));
    }
}

/// A set of tags: no two members have the same text.
pub struct TagSet {
    items: Vec<RecipeTag>,
}

impl View for TagSet {
    type V = Set<Seq<char>>;

    closed spec fn view(&self) -> Set<Seq<char>> {
        tag_texts(self.items@)
    }
}

impl TagSet {
    #[verifier::type_invariant]
    spec fn inv(self) -> bool {
        distinct_texts(self.items@)
    }

    /// The empty set.
    pub fn new() -> (r: TagSet)
        ensures
            r@ == Set::<Seq<char>>::empty(),
    {
        TagSet { items: Vec::new() }
    }

    /// Adds `tag`; adding a text that is already a member changes nothing.
    pub fn insert(&mut self, tag: RecipeTag)
        ensures
            final(self)@ == old(self)@.insert(tag@),
    {
        proof { use_type_invariant(&*self); }
        let mut items: Vec<RecipeTag> = Vec::new();
        std::mem::swap(&mut items, &mut self.items);
        let ghost s = items@;
        let mut i: usize = 0;
        while i < items.len()
            invariant
                items@ == s,
                tag_texts(s) == old(self)@,
                distinct_texts(s),
                0 <= i <= s.len(),
                forall|j: int| 0 <= j < i ==> s[j]@ != tag@,
            decreases s.len() - i,
        {
            if items[i] == tag {
                proof {
                    lemma_texts_members(s);
                    assert(tag_texts(s).contains(s[i as int]@));
                    assert(tag_texts(s).insert(tag@) =~= tag_texts(s));
                }
                self.items = items;
                return;
            }
            i = i + 1;
        }
        items.push(tag);
        assert(items@.drop_last() =~= s);
        self.items = items;
    }

    /// The number of members.
    pub fn len(&self) -> (r: usize)
        ensures
            r == self@.len(),
    {
        proof {
            use_type_invariant(self);
            lemma_texts_len(self.items@);
        }
        self.items.len()
    }

    /// Whether a member has the text of `tag`.
    pub fn contains(&self, tag: &RecipeTag) -> (r: bool)
        ensures
            r == self@.contains(tag@),
    {
        proof {
            use_type_invariant(self);
            lemma_texts_members(self.items@);
        }
        let mut i: usize = 0;
        while i < self.items.len()
            invariant
                0 <= i <= self.items@.len(),
                forall|j: int| 0 <= j < i ==> self.items@[j]@ != tag@,
            decreases self.items@.len() - i,
        {
            if self.items[i] == *tag {
                proof {
                    lemma_texts_members(self.items@);
                    assert(self@.contains(self.items@[i as int]@));
                }
                return true;
            }
            i = i + 1;
        }
        false
    }

    /// The members, each once, in no particular order.
    pub fn as_slice(&self) -> (r: &[RecipeTag])
        ensures
            distinct_texts(r@),
            tag_texts(r@) == self@,
    {
        proof { use_type_invariant(self); }
        self.items.as_slice()
    }
}

} // verus!
