use vstd::prelude::*;
use crate::engine::RenderingEngine;

verus! {

/// One frozen unit of content, ready to be encoded. The content itself lives
/// with the host; the library knows a page by its handle.
#[derive(Clone, Copy, Debug, PartialEq, Eq)]
pub struct Page {
    pub content: u64,
}

/// One page or more, in order, with the engine they were produced against.
#[derive(Debug, PartialEq, Eq)]
pub struct Pages {
    pages: Vec<Page>,
    engine: RenderingEngine,
}

/// What a collection of pages is: the pages in order, and their engine.
pub struct PagesState {
    pub pages: Seq<Page>,
    pub engine: RenderingEngine,
}

impl View for Pages {
    type V = PagesState;

    closed spec fn view(&self) -> PagesState {
        PagesState { pages: self.pages@, engine: self.engine }
    }
}

impl Clone for Pages {
    /// A collection of the same pages, in the same order, with the same
    /// engine.
    fn clone(&self) -> (copy: Pages)
        ensures
            copy@ == self@,
    {
        proof {
            use_type_invariant(self);
        }
        let mut pages: Vec<Page> = Vec::new();
        let mut index: usize = 0;
        while index < self.pages.len()
            invariant
                index <= self.pages@.len(),
                pages@ == self.pages@.take(index as int),
            decreases self.pages@.len() - index,
        {
            pages.push(self.pages[index]);
            index = index + 1;
            assert(pages@ =~= self.pages@.take(index as int));
        }
        assert(pages@ =~= self.pages@);
        Pages { pages: pages, engine: self.engine }
    }
}

impl Pages {
    #[verifier::type_invariant]
    spec fn holds_a_page(self) -> bool {
        self.pages@.len() >= 1
    }

    /// Collects `pages`, in their order, with `engine`. A collection needs
    /// at least one page: without one there is none.
    pub fn new(pages: Vec<Page>, engine: RenderingEngine) -> (collected: Option<Pages>)
        ensures
            collected.is_some() == (pages@.len() >= 1),
            collected.is_some() ==> collected.unwrap()@ == (PagesState {
                pages: pages@,
                engine: engine,
            }),
    {
        if pages.len() == 0 {
            None
        } else {
            Some(Pages { pages: pages, engine: engine })
        }
    }

    /// The number of pages, which is at least one.
    pub fn len(&self) -> (count: usize)
        ensures
            count == self@.pages.len(),
            count >= 1,
    {
        proof {
            use_type_invariant(self);
        }
        self.pages.len()
    }

    /// The first page.
    pub fn first(&self) -> (page: Page)
        ensures
            self@.pages.len() >= 1,
            page == self@.pages[0],
    {
        proof {
            use_type_invariant(self);
        }
        self.pages[0]
    }

    /// The page at `index`, counted from zero, if there is one.
    pub fn get(&self, index: usize) -> (page: Option<Page>)
        ensures
            page == if index < self@.pages.len() {
                Some(self@.pages[index as int])
            } else {
                None
            },
    {
        if index < self.pages.len() {
            Some(self.pages[index])
        } else {
            None
        }
    }

    /// The engine that the pages were produced against.
    pub fn engine(&self) -> (engine: RenderingEngine)
        ensures
            engine == self@.engine,
    {
        self.engine
    }
}

} // verus!
