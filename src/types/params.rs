use crate::keyed::{
    lemma_map_of_at, lemma_map_of_empty, lemma_map_of_push, lemma_map_of_update, map_of,
};
use vstd::prelude::*;

verus! {

/// The query parameters of a request: a map from name to value.
pub struct QueryParams {
    pairs: Vec<(String, String)>,
}

spec fn names_of(pairs: Seq<(String, String)>) -> Seq<Seq<char>> {
    pairs.map_values(|p: (String, String)| p.0@)
}

spec fn values_of(pairs: Seq<(String, String)>) -> Seq<Seq<char>> {
    pairs.map_values(|p: (String, String)| p.1@)
}

impl QueryParams {
    #[verifier::type_invariant]
    spec fn names_distinct(&self) -> bool {
        names_of(self.pairs@).no_duplicates()
    }
}

impl View for QueryParams {
    type V = Map<Seq<char>, Seq<char>>;

    closed spec fn view(&self) -> Map<Seq<char>, Seq<char>> {
        map_of(names_of(self.pairs@), values_of(self.pairs@))
    }
}

impl QueryParams {
    /// No parameters.
    pub fn new() -> (r: QueryParams)
        ensures
            r@ == Map::<Seq<char>, Seq<char>>::empty(),
    {
        let r = QueryParams { pairs: Vec::new() };
        proof {
            lemma_map_of_empty(names_of(r.pairs@), values_of(r.pairs@));
        }
        r
    }

    fn position(&self, name: &str) -> (r: Option<usize>)
        ensures
            match r {
                Some(i) => i < self.pairs@.len() && names_of(self.pairs@)[i as int] == name@,
                None => !names_of(self.pairs@).contains(name@),
            },
    {
        let wanted = name.to_owned();
        let mut i: usize = 0;
        while i < self.pairs.len()
            invariant
                i <= self.pairs@.len(),
                wanted@ == name@,
                forall|j: int| 0 <= j < i ==> names_of(self.pairs@)[j] != name@,
            decreases self.pairs@.len() - i,
        {
            if self.pairs[i].0 == wanted {
                return Some(i);
            }
            i = i + 1;
        }
        None
    }

    /// Sets the parameter `name` to `value`, replacing an earlier value.
    pub fn insert(&mut self, name: String, value: String)
        ensures
            final(self)@ == old(self)@.insert(name@, value@),
    {
        proof {
            use_type_invariant(&*self);
        }
        let ghost names = names_of(self.pairs@);
        let ghost values = values_of(self.pairs@);
        let mut pairs: Vec<(String, String)> = Vec::new();
        match self.position(name.as_str()) {
            Some(i) => {
                proof {
                    lemma_map_of_update(names, values, i as int, value@);
                }
                std::mem::swap(&mut pairs, &mut self.pairs);
                pairs.set(i, (name, value));
                assert(names_of(pairs@) =~= names);
                assert(values_of(pairs@) =~= values.update(i as int, value@));
                self.pairs = pairs;
            },
            None => {
                proof {
                    lemma_map_of_push(names, values, name@, value@);
                }
                std::mem::swap(&mut pairs, &mut self.pairs);
                let ghost key = name@;
                pairs.push((name, value));
                assert(names_of(pairs@) =~= names.push(key));
                assert(values_of(pairs@) =~= values.push(value@));
                self.pairs = pairs;
            },
        }
    }

    /// The value of the parameter `name`, if it is present.
    pub fn get(&self, name: &str) -> (r: Option<&String>)
        ensures
            match r {
                Some(v) => self@.contains_key(name@) && v@ == self@[name@],
                None => !self@.contains_key(name@),
            },
    {
        proof {
            use_type_invariant(self);
        }
        match self.position(name) {
            Some(i) => {
                proof {
                    lemma_map_of_at(names_of(self.pairs@), values_of(self.pairs@), i as int);
                }
                Some(&self.pairs[i].1)
            },
            None => None,
        }
    }

    /// Whether the parameter `name` is present.
    pub fn contains_key(&self, name: &str) -> (r: bool)
        ensures
            r == self@.contains_key(name@),
    {
        self.get(name).is_some()
    }

    /// Whether there are no parameters.
    pub fn is_empty(&self) -> (r: bool)
        ensures
            r == (self@ == Map::<Seq<char>, Seq<char>>::empty()),
    {
        proof {
            use_type_invariant(self);
        }
        let r = self.pairs.len() == 0;
        proof {
            let names = names_of(self.pairs@);
            let values = values_of(self.pairs@);
            if r {
                lemma_map_of_empty(names, values);
            } else {
                lemma_map_of_at(names, values, 0);
                assert(!Map::<Seq<char>, Seq<char>>::empty().contains_key(names[0]));
            }
        }
        r
    }
}

} // verus!
