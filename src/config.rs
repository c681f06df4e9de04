use vstd::prelude::*;

use crate::adapter::Port;
use crate::feeder::FeederConfig;

verus! {

/// Where one port's input records are broadcast, if at all.
#[derive(Clone, Copy, Debug, PartialEq, Eq, Structural)]
pub struct InputServerConfig {
    pub enabled: bool,
    pub port: u16,
}

impl InputServerConfig {
    /// A broadcast on `port` that is switched off.
    pub fn new_disabled(port: u16) -> (r: InputServerConfig)
        ensures
            !r.enabled,
            r.port == port,
    {
        InputServerConfig { enabled: false, port }
    }
}

/// The named profiles and the name each port selects. Names in `list` are
/// unique (`wf`).
pub struct ProfileConfig {
    pub selected: [String; 4],
    pub list: Vec<(String, FeederConfig)>,
}

impl ProfileConfig {
    /// Profile names are unique.
    pub open spec fn wf(&self) -> bool {
        forall|i: int, j: int|
            0 <= i < self.list.len() && 0 <= j < self.list.len() && i != j
                ==> #[trigger] self.list[i].0@ != #[trigger] self.list[j].0@
    }

    /// Whether profile `i` of the list is the one `port` selects.
    pub open spec fn selects(&self, port: Port, i: int) -> bool {
        self.list[i].0@ == self.selected[port.index_of() as int]@
    }

    pub open spec fn has_selected(&self, port: Port) -> bool {
        exists|i: int| 0 <= i < self.list.len() && self.selects(port, i)
    }

    /// Position of the profile `port` selects, if it is in the list.
    pub fn selected_index(&self, port: Port) -> (r: Option<usize>)
        ensures
            r is Some <==> self.has_selected(port),
            r is Some ==> r.unwrap() < self.list.len() && self.selects(port, r.unwrap() as int),
    {
        let name = &self.selected[port.index()];
        let mut i: usize = 0;
        while i < self.list.len()
            invariant
                i <= self.list.len(),
                *name == self.selected[port.index_of() as int],
                forall|j: int| 0 <= j < i ==> !self.selects(port, j),
            decreases self.list.len() - i,
        {
            if self.list[i].0 == *name {
                assert(self.selects(port, i as int));
                return Some(i);
            }
            i = i + 1;
        }
        None
    }

    /// The profile `port` selects, if the list holds it.
    pub fn selected(&self, port: Port) -> (r: Option<&FeederConfig>)
        ensures
            r is Some <==> self.has_selected(port),
            r is Some ==> exists|i: int|
                0 <= i < self.list.len() && self.selects(port, i) && *r.unwrap() == self.list[i].1,
            self.wf() && r is Some ==> forall|i: int|
                0 <= i < self.list.len() && #[trigger] self.selects(port, i) ==> *r.unwrap() == self.list[i].1,
    {
        match self.selected_index(port) {
            Some(i) => Some(&self.list[i].1),
            None => None,
        }
    }

    /// The profile `port` selects, for editing, if the list holds it.
    pub fn selected_mut(&mut self, port: Port) -> (r: Option<&mut FeederConfig>)
        ensures
            r is Some <==> old(self).has_selected(port),
            r is Some ==> exists|i: int|
                0 <= i < old(self).list.len() && old(self).selects(port, i) && *r.unwrap() == old(self).list[i].1,
            old(self).wf() && r is Some ==> forall|i: int|
                0 <= i < old(self).list.len() && #[trigger] old(self).selects(port, i) ==> *r.unwrap() == old(self).list[i].1,
    {
        match self.selected_index(port) {
            Some(i) => Some(&mut self.list[i].1),
            None => None,
        }
    }

    /// The profile `port` selects, or the default profile when the selected
    /// name is missing from the list.
    pub fn profile_for(&self, port: Port) -> (r: FeederConfig)
        ensures
            self.has_selected(port) ==> exists|i: int|
                0 <= i < self.list.len() && self.selects(port, i) && r == self.list[i].1,
            self.wf() ==> forall|i: int|
                0 <= i < self.list.len() && #[trigger] self.selects(port, i) ==> r == self.list[i].1,
            !self.has_selected(port) ==> r.is_default() && r.wf(),
    {
        match self.selected(port) {
            Some(c) => *c,
            None => FeederConfig::default(),
        }
    }
}

} // verus!
