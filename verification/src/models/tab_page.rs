//! One tab of a menu entry: a name, static configuration text, a growing
//! log, and the scroll position that keeps the newest log line in view.

use vstd::prelude::*;

verus! {

/// One tab page of the console shell.
#[derive(Clone)]
pub struct TabPage {
    pub name: String,
    pub config: Vec<String>,
    pub logs: Vec<String>,
    pub scroll: u16,
}

impl TabPage {
    /// An empty tab page with the given name.
    pub fn new(name: String) -> (r: TabPage)
        ensures
            r.name@ == name@,
            r.config@.len() == 0,
            r.logs@.len() == 0,
            r.config.deep_view() == Seq::<Seq<char>>::empty(),
            r.logs.deep_view() == Seq::<Seq<char>>::empty(),
            r.scroll == 0,
    {
        let r = TabPage { name, config: Vec::new(), logs: Vec::new(), scroll: 0 };
        assert(r.config.deep_view() =~~= Seq::<Seq<char>>::empty());
        assert(r.logs.deep_view() =~~= Seq::<Seq<char>>::empty());
        r
    }

    /// Appends one log line and scrolls to the bottom; the scroll position
    /// wraps on the page size's machine limit.
    pub fn add_log(&mut self, message: String)
        ensures
            final(self).logs.deep_view() == old(self).logs.deep_view().push(message@),
            final(self).scroll == (old(self).logs@.len() + 1) as u16,
            final(self).name == old(self).name,
            final(self).config == old(self).config,
    {
        let ghost before = self.logs.deep_view();
        let ghost mv = message@;
        self.logs.push(message);
        assert(self.logs.deep_view() =~~= before.push(mv));
        self.scroll = #[verifier::truncate] (self.logs.len() as u16);
    }
}

} // verus!
