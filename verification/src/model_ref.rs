//! Model references: the text `owner/model:tag` and its three parts.

use crate::error::ModelRefError;
use crate::text::{
    chars_of, find_first, first_index, lemma_first_index, lemma_first_index_is, prefix,
    text_of_range,
};
use vstd::prelude::*;

verus! {

/// A reference to one tag of one model of one owner.
#[derive(Clone, Debug, PartialEq, Eq)]
pub struct ModelRef {
    pub model: String,
    pub owner: String,
    pub tag: String,
}

/// A `ModelRef` with its parts as sequences of characters.
pub struct ModelRefView {
    pub model: Seq<char>,
    pub owner: Seq<char>,
    pub tag: Seq<char>,
}

impl View for ModelRef {
    type V = ModelRefView;

    open spec fn view(&self) -> ModelRefView {
        ModelRefView { model: self.model@, owner: self.owner@, tag: self.tag@ }
    }
}

impl ModelRefView {
    /// The repository: `owner/model`.
    pub open spec fn repo(self) -> Seq<char> {
        self.owner + seq!['/'] + self.model
    }

    /// The full reference: `owner/model:tag`.
    pub open spec fn text(self) -> Seq<char> {
        self.owner + seq!['/'] + self.model + seq![':'] + self.tag
    }

    /// What holds of every reference that `parse` returns: no part is empty,
    /// the owner holds neither `/` nor `:`, and the model holds no `:`.
    pub open spec fn wf(self) -> bool {
        &&& self.owner.len() > 0
        &&& self.model.len() > 0
        &&& self.tag.len() > 0
        &&& !self.owner.contains('/')
        &&& !self.owner.contains(':')
        &&& !self.model.contains(':')
    }
}

/// What parsing a text gives. The text is cut at its first `:` into
/// repository and tag, and the repository at its first `/` into owner and
/// model. Without a `:` the tag is missing, without a `/` before it the
/// owner; an empty owner or model counts as a missing owner, an empty tag as
/// a missing tag.
pub open spec fn parse_spec(s: Seq<char>) -> Result<ModelRefView, ModelRefError> {
    let colon = first_index(s, ':');
    let repo = s.take(colon);
    let tag = s.skip(colon + 1);
    let slash = first_index(repo, '/');
    let owner = repo.take(slash);
    let model = repo.skip(slash + 1);
    if colon == s.len() {
        Err(ModelRefError::MissingTag)
    } else if slash == repo.len() || owner.len() == 0 || model.len() == 0 {
        Err(ModelRefError::MissingOwner)
    } else if tag.len() == 0 {
        Err(ModelRefError::MissingTag)
    } else {
        Ok(ModelRefView { model, owner, tag })
    }
}

/// The result of a parse with the reference taken by its view.
pub open spec fn parsed(r: Result<ModelRef, ModelRefError>) -> Result<ModelRefView, ModelRefError> {
    match r {
        Ok(m) => Ok(m@),
        Err(e) => Err(e),
    }
}

/// The failed parse that reports `e`.
pub open spec fn missing(e: ModelRefError) -> Result<ModelRefView, ModelRefError> {
    Err(e)
}

/// A text without `:` has no tag; a text with `:` and no `/` before the
/// first `:` has no owner.
pub proof fn lemma_parse_errors(s: Seq<char>)
    ensures
        !s.contains(':') ==> parse_spec(s) == missing(ModelRefError::MissingTag),
        s.contains(':') && !s.take(first_index(s, ':')).contains('/') ==> parse_spec(s)
            == missing(ModelRefError::MissingOwner),
{
    lemma_first_index(s, ':');
    lemma_first_index(s.take(first_index(s, ':')), '/');
}

/// A reference that was parsed from a text is well formed, and written out
/// again it is that text.
pub proof fn lemma_parse_then_text(s: Seq<char>)
    requires
        parse_spec(s) is Ok,
    ensures
        parse_spec(s)->Ok_0.wf(),
        parse_spec(s)->Ok_0.text() == s,
{
    let colon = first_index(s, ':');
    let repo = s.take(colon);
    let slash = first_index(repo, '/');
    let m = parse_spec(s)->Ok_0;
    lemma_first_index(s, ':');
    lemma_first_index(repo, '/');
    assert(m.owner + seq!['/'] + m.model =~= repo);
    assert(m.text() =~= s);
    assert forall|i: int| 0 <= i < m.owner.len() implies m.owner[i] != '/' && m.owner[i]
        != ':' by {
        assert(m.owner[i] == repo[i] && repo[i] == s[i]);
    }
    assert forall|i: int| 0 <= i < m.model.len() implies m.model[i] != ':' by {
        assert(m.model[i] == repo[slash + 1 + i] && repo[slash + 1 + i] == s[slash + 1 + i]);
    }
}

/// The text of a well-formed reference parses to that reference.
pub proof fn lemma_text_then_parse(m: ModelRefView)
    requires
        m.wf(),
    ensures
        parse_spec(m.text()) == Ok::<ModelRefView, ModelRefError>(m),
{
    let s = m.text();
    let repo = m.repo();
    let colon = repo.len() as int;
    let slash = m.owner.len() as int;
    assert forall|j: int| 0 <= j < colon implies s[j] != ':' by {
        if j < slash {
            assert(s[j] == m.owner[j]);
        } else if j > slash {
            assert(s[j] == m.model[j - slash - 1]);
        }
    }
    lemma_first_index_is(s, ':', colon);
    assert(s.take(colon) =~= repo);
    assert forall|j: int| 0 <= j < slash implies repo[j] != '/' by {
        assert(repo[j] == m.owner[j]);
    }
    lemma_first_index_is(repo, '/', slash);
    assert(repo.take(slash) =~= m.owner);
    assert(repo.skip(slash + 1) =~= m.model);
    assert(s.skip(colon + 1) =~= m.tag);
}

impl ModelRef {
    /// Parses `owner/model:tag`.
    pub fn parse(s: &str) -> (r: Result<ModelRef, ModelRefError>)
        ensures
            parsed(r) == parse_spec(s@),
            !s@.contains(':') ==> parsed(r) == missing(ModelRefError::MissingTag),
            s@.contains(':') && !s@.take(first_index(s@, ':')).contains('/') ==> parsed(r)
                == missing(ModelRefError::MissingOwner),
            r matches Ok(m) ==> m@.wf() && m@.text() == s@,
    {
        proof {
            lemma_parse_errors(s@);
            if parse_spec(s@) is Ok {
                lemma_parse_then_text(s@);
            }
        }
        let v = chars_of(s);
        let colon = find_first(&v, ':');
        if colon == v.len() {
            return Err(ModelRefError::MissingTag);
        }
        proof {
            lemma_first_index(v@, ':');
            lemma_first_index(v@.take(colon as int), '/');
        }
        let repo = prefix(&v, colon);
        let slash = find_first(&repo, '/');
        if slash == repo.len() || slash == 0 || slash + 1 == repo.len() {
            return Err(ModelRefError::MissingOwner);
        }
        if colon + 1 == v.len() {
            return Err(ModelRefError::MissingTag);
        }
        let owner = text_of_range(&repo, 0, slash);
        let model = text_of_range(&repo, slash + 1, repo.len());
        let tag = text_of_range(&v, colon + 1, v.len());
        Ok(ModelRef { model, owner, tag })
    }

    /// The repository of this reference: `owner/model`.
    pub fn repo(&self) -> (r: String)
        ensures
            r@ == self@.repo(),
    {
        let mut r = self.owner.clone();
        r.push('/');
        r.append(self.model.as_str());
        r
    }

    /// The reference as text: `owner/model:tag`.
    pub fn to_string(&self) -> (r: String)
        ensures
            r@ == self@.text(),
    {
        let mut r = self.repo();
        r.push(':');
        r.append(self.tag.as_str());
        r
    }
}

impl std::str::FromStr for ModelRef {
    type Err = ModelRefError;

    fn from_str(s: &str) -> (r: Result<ModelRef, ModelRefError>)
        ensures
            parsed(r) == parse_spec(s@),
            !s@.contains(':') ==> parsed(r) == missing(ModelRefError::MissingTag),
            s@.contains(':') && !s@.take(first_index(s@, ':')).contains('/') ==> parsed(r)
                == missing(ModelRefError::MissingOwner),
            r matches Ok(m) ==> m@.wf() && m@.text() == s@,
    {
        ModelRef::parse(s)
    }
}

} // verus!
