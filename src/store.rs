//! The store of questions: a map from identifier to question, kept as a list
//! of entries whose keys are distinct.
use crate::error::CustomError;
use crate::keyed::{
    lemma_map_of_at, lemma_map_of_empty, lemma_map_of_push, lemma_map_of_remove,
    lemma_map_of_update, map_of,
};
use crate::types::question::{Question, QuestionId, QuestionView};
use vstd::prelude::*;

verus! {

/// The map from identifier to question that a store holds.
pub type StoreView = Map<Seq<char>, QuestionView>;

/// `items` lists the map `m`: one item for each key, in the order of `ks`.
pub open spec fn lists_in_order(
    items: Seq<QuestionView>,
    ks: Seq<Seq<char>>,
    m: StoreView,
) -> bool {
    &&& ks.no_duplicates()
    &&& ks.len() == items.len()
    &&& forall|k: Seq<char>| #[trigger] m.contains_key(k) <==> ks.contains(k)
    &&& forall|i: int| 0 <= i < ks.len() ==> items[i] == m[#[trigger] ks[i]]
}

/// `items` holds each question of `m` once, in some order.
pub open spec fn is_listing(items: Seq<QuestionView>, m: StoreView) -> bool {
    &&& items.len() == m.dom().len()
    &&& exists|ks: Seq<Seq<char>>| lists_in_order(items, ks, m)
}

/// The question stored under `id`, if any.
pub open spec fn lookup(m: StoreView, id: Seq<char>) -> Option<QuestionView> {
    if m.contains_key(id) {
        Some(m[id])
    } else {
        None
    }
}

/// The views of a list of questions.
pub open spec fn views(qs: Seq<Question>) -> Seq<QuestionView> {
    qs.map_values(|q: Question| q@)
}

spec fn keys_of(entries: Seq<(QuestionId, Question)>) -> Seq<Seq<char>> {
    entries.map_values(|e: (QuestionId, Question)| e.0@)
}

spec fn items_of(entries: Seq<(QuestionId, Question)>) -> Seq<QuestionView> {
    entries.map_values(|e: (QuestionId, Question)| e.1@)
}

pub struct Store {
    entries: Vec<(QuestionId, Question)>,
}

impl Store {
    /// The keys of the entries, in order.
    pub closed spec fn keys(&self) -> Seq<Seq<char>> {
        keys_of(self.entries@)
    }

    /// The questions of the entries, in order.
    pub closed spec fn items(&self) -> Seq<QuestionView> {
        items_of(self.entries@)
    }

    #[verifier::type_invariant]
    spec fn keys_distinct(&self) -> bool {
        self.keys().no_duplicates()
    }
}

impl View for Store {
    type V = StoreView;

    closed spec fn view(&self) -> StoreView {
        map_of(self.keys(), self.items())
    }
}

impl Store {
    /// An empty store.
    pub fn new() -> (r: Store)
        ensures
            r@ == StoreView::empty(),
    {
        let r = Store { entries: Vec::new() };
        proof {
            lemma_map_of_empty(r.keys(), r.items());
        }
        r
    }

    /// The position of the entry stored under `id`, if any.
    fn position(&self, id: &QuestionId) -> (r: Option<usize>)
        ensures
            match r {
                Some(i) => i < self.entries@.len() && self.keys()[i as int] == id@,
                None => !self.keys().contains(id@),
            },
    {
        let mut i: usize = 0;
        while i < self.entries.len()
            invariant
                i <= self.entries@.len(),
                forall|j: int| 0 <= j < i ==> self.keys()[j] != id@,
            decreases self.entries@.len() - i,
        {
            if self.entries[i].0.0 == id.0 {
                return Some(i);
            }
            i = i + 1;
        }
        None
    }

    /// Moves the entries out, leaving the store empty.
    fn take_entries(&mut self) -> (r: Vec<(QuestionId, Question)>)
        ensures
            r@ == old(self).entries@,
            final(self).entries@.len() == 0,
    {
        let mut r: Vec<(QuestionId, Question)> = Vec::new();
        std::mem::swap(&mut r, &mut self.entries);
        r
    }

    /// The question stored under `id`, if any.
    pub fn get(&self, id: &QuestionId) -> (r: Option<&Question>)
        ensures
            match r {
                Some(q) => lookup(self@, id@) == Some(q@),
                None => lookup(self@, id@) is None,
            },
    {
        proof {
            use_type_invariant(self);
        }
        match self.position(id) {
            Some(i) => {
                proof {
                    lemma_map_of_at(self.keys(), self.items(), i as int);
                }
                Some(&self.entries[i].1)
            },
            None => None,
        }
    }

    /// A copy of every stored question, each once.
    pub fn list(&self) -> (r: Vec<Question>)
        ensures
            is_listing(views(r@), self@),
    {
        proof {
            use_type_invariant(self);
        }
        let mut r: Vec<Question> = Vec::new();
        let mut i: usize = 0;
        while i < self.entries.len()
            invariant
                i <= self.entries@.len(),
                views(r@) == self.items().subrange(0, i as int),
            decreases self.entries@.len() - i,
        {
            let q = self.entries[i].1.duplicate();
            let ghost before = r@;
            r.push(q);
            proof {
                let items = self.items();
                assert(items.len() == self.entries@.len());
                assert(views(before).len() == before.len());
                assert(views(before) == items.subrange(0, i as int));
                assert(before.len() == i);
                assert(r@ == before.push(q));
                assert(q@ == self.entries@[i as int].1@);
                assert(items[i as int] == self.entries@[i as int].1@);
                assert forall|j: int| 0 <= j < r@.len() implies #[trigger] views(r@)[j]
                    == items[j] by {
                    assert(views(r@)[j] == r@[j]@);
                    if j < i {
                        assert(r@[j] == before[j]);
                        assert(views(before)[j] == before[j]@);
                        assert(views(before)[j] == items.subrange(0, i as int)[j]);
                    }
                }
            }
            i = i + 1;
            assert(views(r@) =~= self.items().subrange(0, i as int));
        }
        proof {
            let ks = self.keys();
            let m = self@;
            assert(views(r@) =~= self.items());
            assert forall|j: int| 0 <= j < ks.len() implies views(r@)[j] == m[#[trigger] ks[j]] by {
                lemma_map_of_at(ks, self.items(), j);
            }
            assert(lists_in_order(views(r@), ks, m));
            assert(m.dom() =~= ks.to_set());
            ks.unique_seq_to_set();
        }
        r
    }

    /// Stores `question` under its own identifier, replacing what was there.
    pub fn insert(&mut self, question: Question)
        ensures
            final(self)@ == old(self)@.insert(question.id@, question@),
    {
        proof {
            use_type_invariant(&*self);
        }
        let ghost keys = self.keys();
        let ghost items = self.items();
        let key = question.id.duplicate();
        match self.position(&key) {
            Some(i) => {
                proof {
                    lemma_map_of_update(keys, items, i as int, question@);
                }
                let mut entries = self.take_entries();
                entries.set(i, (key, question));
                assert(keys_of(entries@) =~= keys);
                self.entries = entries;
                assert(self.items() =~= items.update(i as int, question@));
            },
            None => {
                proof {
                    lemma_map_of_push(keys, items, key@, question@);
                }
                let mut entries = self.take_entries();
                entries.push((key, question));
                assert(keys_of(entries@) =~= keys.push(key@));
                self.entries = entries;
                assert(self.items() =~= items.push(question@));
            },
        }
    }

    /// Replaces the question stored under `id` by `question`; fails if
    /// nothing is stored under `id`.
    pub fn update(&mut self, id: &QuestionId, question: Question) -> (r: Result<(), CustomError>)
        ensures
            old(self)@.contains_key(id@) ==> r is Ok && final(self)@ == old(self)@.insert(
                id@,
                question@,
            ),
            !old(self)@.contains_key(id@) ==> (r matches Err(CustomError::QuestionNotFound))
                && final(self)@ == old(self)@,
    {
        proof {
            use_type_invariant(&*self);
        }
        let ghost keys = self.keys();
        let ghost items = self.items();
        match self.position(id) {
            Some(i) => {
                proof {
                    lemma_map_of_update(keys, items, i as int, question@);
                }
                let key = id.duplicate();
                let mut entries = self.take_entries();
                entries.set(i, (key, question));
                assert(keys_of(entries@) =~= keys);
                self.entries = entries;
                assert(self.items() =~= items.update(i as int, question@));
                Ok(())
            },
            None => Err(CustomError::QuestionNotFound),
        }
    }

    /// Removes and returns the question stored under `id`; fails if nothing
    /// is stored under `id`.
    pub fn delete(&mut self, id: &QuestionId) -> (r: Result<Question, CustomError>)
        ensures
            final(self)@ == old(self)@.remove(id@),
            match r {
                Ok(q) => lookup(old(self)@, id@) == Some(q@),
                Err(e) => lookup(old(self)@, id@) is None && e is QuestionNotFound,
            },
    {
        proof {
            use_type_invariant(&*self);
        }
        let ghost keys = self.keys();
        let ghost items = self.items();
        match self.position(id) {
            Some(i) => {
                proof {
                    lemma_map_of_remove(keys, items, i as int);
                    lemma_map_of_at(keys, items, i as int);
                }
                let mut entries = self.take_entries();
                let (_, q) = entries.remove(i);
                assert(keys_of(entries@) =~= keys.remove(i as int));
                self.entries = entries;
                assert(self.items() =~= items.remove(i as int));
                Ok(q)
            },
            None => {
                assert(old(self)@.remove(id@) =~= old(self)@);
                Err(CustomError::QuestionNotFound)
            },
        }
    }
}

} // verus!
