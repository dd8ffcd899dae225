//! A code snippet and its mathematical view.

use crate::text::texts_of;
use vstd::prelude::*;

verus! {

/// What a snippet is, as plain mathematical values.
pub struct SnippetView {
    pub idx: usize,
    pub name: Seq<char>,
    pub tags: Seq<Seq<char>>,
    pub code: Seq<char>,
}

/// A short piece of code with a name, tags and a stable identifier.
#[derive(Debug, PartialEq, Eq)]
pub struct CodeSnippet {
    pub tags: Vec<String>,
    pub name: String,
    pub code: String,
    pub idx: usize,
}

impl View for CodeSnippet {
    type V = SnippetView;

    open spec fn view(&self) -> SnippetView {
        SnippetView {
            idx: self.idx,
            name: self.name@,
            tags: texts_of(self.tags@),
            code: self.code@,
        }
    }
}

/// The name a snippet carries until the user types one.
pub open spec fn default_name() -> Seq<char> {
    "Unnamed Code Snippet"@
}

/// A snippet that was just made: the placeholder name, no tags, no code.
pub open spec fn fresh(idx: usize) -> SnippetView {
    SnippetView {
        idx,
        name: default_name(),
        tags: Seq::<Seq<char>>::empty(),
        code: Seq::<char>::empty(),
    }
}

impl CodeSnippet {
    /// A fresh snippet with the given identifier.
    pub fn new(new_idx: usize) -> (snippet: CodeSnippet)
        ensures
            snippet@ == fresh(new_idx),
    {
        let snippet = CodeSnippet {
            tags: Vec::new(),
            name: "Unnamed Code Snippet".to_owned(),
            code: String::new(),
            idx: new_idx,
        };
        assert(texts_of(snippet.tags@) =~= Seq::<Seq<char>>::empty());
        snippet
    }
}

impl Clone for CodeSnippet {
    fn clone(&self) -> (copy: Self)
        ensures
            copy@ == self@,
    {
        let copy = CodeSnippet {
            tags: self.tags.clone(),
            name: self.name.clone(),
            code: self.code.clone(),
            idx: self.idx,
        };
        copy
    }
}

} // verus!
