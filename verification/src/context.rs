//! The application title and its ambient context.
//!
//! The root of the application provides the title once, at start; any
//! view below it reads the title from the context. The title is never
//! written again, and reading it before it was provided is a programming
//! error that correct composition rules out.

use vstd::prelude::*;

verus! {

/// The application title, fixed at start.
#[derive(Clone)]
pub struct TitleState(pub String);

/// The ambient context the root provides and descendants read.
pub struct AppContext {
    title: Option<TitleState>,
}

impl View for AppContext {
    type V = Option<Seq<char>>;

    closed spec fn view(&self) -> Option<Seq<char>> {
        match &self.title {
            Some(t) => Some(t.0@),
            None => None,
        }
    }
}

impl AppContext {
    /// An empty context: nothing provided yet.
    pub fn new() -> (c: AppContext)
        ensures
            c@ is None,
    {
        AppContext { title: None }
    }

    /// Provides the title, exactly once, at application start.
    pub fn provide_title(&mut self, text: String)
        requires
            old(self)@ is None,
        ensures
            final(self)@ == Some(text@),
    {
        self.title = Some(TitleState(text));
    }

    /// Reads the title a provider above supplied. The provider must wrap
    /// the whole subtree, so a missing title is ruled out by contract.
    pub fn use_title(&self) -> (r: &str)
        requires
            self@ is Some,
        ensures
            self@ == Some(r@),
    {
        match &self.title {
            Some(t) => t.0.as_str(),
            None => unreached(),
        }
    }
}

/// The context the application root provides: the fixed title.
pub fn mount_app() -> (c: AppContext)
    ensures
        c@ == Some("HotDog"@),
{
    let mut c = AppContext::new();
    c.provide_title(String::from_str("HotDog"));
    c
}

} // verus!
