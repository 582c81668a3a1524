//! Collect the traits that a source unit declares.

use crate::defs::path::Path;
use vstd::prelude::*;

verus! {

/// Collects the qualified names of the traits met while a source unit is
/// walked: the walker reports each module it enters and leaves and each
/// trait declaration it meets.
#[derive(Debug)]
pub struct TraitCollector {
    /// Collected traits.
    pub traits: Vec<Path>,
    /// The modules that enclose the place the walk has reached, outermost
    /// first.
    pub modules: Vec<String>,
}

impl TraitCollector {
    /// Create a new trait collector.
    pub fn new() -> (out: TraitCollector)
        ensures
            out.traits@.len() == 0,
            out.modules@.len() == 0,
    {
        TraitCollector { traits: Vec::new(), modules: Vec::new() }
    }

    /// The walk enters the module `name`.
    pub fn enter_module(&mut self, name: String)
        ensures
            final(self).modules@ == old(self).modules@.push(name),
            final(self).traits == old(self).traits,
    {
        self.modules.push(name);
    }

    /// The walk leaves the innermost module; outside any module nothing
    /// changes.
    pub fn exit_module(&mut self)
        ensures
            final(self).modules@ == if old(self).modules@.len() > 0 {
                old(self).modules@.drop_last()
            } else {
                old(self).modules@
            },
            final(self).traits == old(self).traits,
    {
        let _ = self.modules.pop();
    }

    /// The qualified name of `ident` at the place the walk has reached.
    pub fn concat_module(&self, ident: &str) -> (out: Path)
        ensures
            out@ == crate::model::views(self.modules@).push(ident@),
    {
        let scope = Path(self.modules.clone());
        proof {
            assert(scope@ =~= crate::model::views(self.modules@));
        }
        scope.join(ident.to_owned())
    }

    /// The walk meets the declaration of the trait `ident`.
    pub fn visit_trait(&mut self, ident: &str)
        ensures
            crate::model::views(final(self).traits@) == crate::model::views(
                old(self).traits@,
            ).push(crate::model::views(old(self).modules@).push(ident@)),
            final(self).modules == old(self).modules,
    {
        let ghost before = self.traits@;
        let path = self.concat_module(ident);
        self.traits.push(path);
        proof {
            crate::model::views_push(before, path);
        }
    }

    /// The traits collected so far, in the order the walk met them.
    pub fn collect(self) -> (out: Vec<Path>)
        ensures
            out == self.traits,
    {
        self.traits
    }
}

} // verus!
