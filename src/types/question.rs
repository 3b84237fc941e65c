use vstd::prelude::*;

verus! {

/// The identifier of a question: a string compared by its characters.
#[derive(Debug, Clone, PartialEq, Eq, Hash)]
pub struct QuestionId(pub String);

/// A question: identifier, title, content and an optional list of tags.
#[derive(Debug, Clone, PartialEq, Eq, Hash)]
pub struct Question {
    pub id: QuestionId,
    pub title: String,
    pub content: String,
    pub tags: Option<Vec<String>>,
}

/// What a question holds, as characters.
pub struct QuestionView {
    pub id: Seq<char>,
    pub title: Seq<char>,
    pub content: Seq<char>,
    pub tags: Option<Seq<Seq<char>>>,
}

pub open spec fn tags_view(tags: Option<Vec<String>>) -> Option<Seq<Seq<char>>> {
    match tags {
        Some(t) => Some(t@.map_values(|s: String| s@)),
        None => None,
    }
}

impl View for QuestionId {
    type V = Seq<char>;

    open spec fn view(&self) -> Seq<char> {
        self.0@
    }
}

impl View for Question {
    type V = QuestionView;

    open spec fn view(&self) -> QuestionView {
        QuestionView {
            id: self.id@,
            title: self.title@,
            content: self.content@,
            tags: tags_view(self.tags),
        }
    }
}

impl From<u64> for QuestionId {
    fn from(value: u64) -> Self {
        QuestionId(value.to_string())
    }
}

impl vstd::std_specs::convert::FromSpecImpl<u64> for QuestionId {
    open spec fn obeys_from_spec() -> bool {
        false
    }

    open spec fn from_spec(v: u64) -> QuestionId {
        arbitrary()
    }
}

fn copy_strings(v: &Vec<String>) -> (r: Vec<String>)
    ensures
        r@ == v@,
{
    let mut r: Vec<String> = Vec::new();
    let mut i: usize = 0;
    while i < v.len()
        invariant
            i <= v@.len(),
            r@ == v@.subrange(0, i as int),
        decreases v@.len() - i,
    {
        r.push(v[i].clone());
        i = i + 1;
    }
    r
}

impl QuestionId {
    /// A new identifier with the same characters.
    pub fn duplicate(&self) -> (r: QuestionId)
        ensures
            r == *self,
    {
        QuestionId(self.0.clone())
    }
}

impl Question {
    pub fn new(id: QuestionId, title: String, content: String, tags: Option<Vec<String>>) -> (r:
        Question)
        ensures
            r.id == id,
            r.title == title,
            r.content == content,
            r.tags == tags,
    {
        Question { id, title, content, tags }
    }

    /// A new question with the same identifier, title, content and tags.
    pub fn duplicate(&self) -> (r: Question)
        ensures
            r@ == self@,
    {
        let tags = match &self.tags {
            Some(t) => Some(copy_strings(t)),
            None => None,
        };
        Question {
            id: self.id.duplicate(),
            title: self.title.clone(),
            content: self.content.clone(),
            tags,
        }
    }
}

} // verus!
