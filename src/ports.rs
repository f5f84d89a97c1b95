//! Port declarations: the entry points, input handlers and output channels a
//! module declares, by name, so that a host can classify dispatch targets and
//! wire channels before any message flows.
use vstd::prelude::*;

verus! {

#[derive(Clone, Copy, Debug, PartialEq, Eq, Structural)]
pub enum PortKind {
    Entry,
    Input,
    Output,
}

/// How a name resolves within one module.
#[derive(Clone, Copy, Debug, PartialEq, Eq, Structural)]
pub enum Resolution {
    Entry,
    Input,
    Output,
    Unknown,
}

/// A name declared twice, under two different kinds.
#[derive(Clone, Debug, PartialEq, Eq)]
pub struct DeclarationConflict {
    pub name: String,
    pub declared: PortKind,
    pub requested: PortKind,
}

pub open spec fn resolution_of(k: Option<PortKind>) -> Resolution {
    match k {
        Some(PortKind::Entry) => Resolution::Entry,
        Some(PortKind::Input) => Resolution::Input,
        Some(PortKind::Output) => Resolution::Output,
        None => Resolution::Unknown,
    }
}

/// A module's declared ports. Each name is declared once, with one kind.
pub struct PortRegistry {
    names: Vec<String>,
    kinds: Vec<PortKind>,
    declared: Ghost<Map<Seq<char>, PortKind>>,
}

impl View for PortRegistry {
    type V = Map<Seq<char>, PortKind>;

    closed spec fn view(&self) -> Map<Seq<char>, PortKind> {
        self.declared@
    }
}

impl PortRegistry {
    /// Names unique, and the map holds exactly the listed names with their kinds.
    pub closed spec fn wf(&self) -> bool {
        &&& self.names@.len() == self.kinds@.len()
        &&& forall|i: int, j: int|
            0 <= i < j < self.names@.len() ==> self.names@[i]@ != self.names@[j]@
        &&& forall|i: int|
            0 <= i < self.names@.len() ==> #[trigger] self.declared@.contains_key(self.names@[i]@)
                && self.declared@[self.names@[i]@] == self.kinds@[i]
        &&& forall|n: Seq<char>|
            #[trigger] self.declared@.contains_key(n) ==> exists|i: int|
                0 <= i < self.names@.len() && self.names@[i]@ == n
    }

    /// A registry with nothing declared.
    pub fn new() -> (r: PortRegistry)
        ensures
            r.wf(),
            r@ == Map::<Seq<char>, PortKind>::empty(),
    {
        PortRegistry { names: Vec::new(), kinds: Vec::new(), declared: Ghost(Map::empty()) }
    }

    /// The position of `name` in the list, if declared.
    fn position(&self, name: &str) -> (r: Option<usize>)
        requires
            self.wf(),
        ensures
            r is None <==> !self@.contains_key(name@),
            r matches Some(i) ==> i < self.names@.len() && self.names@[i as int]@ == name@
                && self@[name@] == self.kinds@[i as int],
    {
        let target = name.to_string();
        let mut i: usize = 0;
        while i < self.names.len()
            invariant
                self.wf(),
                i <= self.names@.len(),
                target@ == name@,
                forall|j: int| 0 <= j < i ==> self.names@[j]@ != name@,
            decreases self.names@.len() - i,
        {
            if self.names[i] == target {
                return Some(i);
            }
            i += 1;
        }
        None
    }

    /// What `name` is declared as, or `Unknown`.
    pub fn resolve(&self, name: &str) -> (r: Resolution)
        requires
            self.wf(),
        ensures
            r == resolution_of(if self@.contains_key(name@) {
                Some(self@[name@])
            } else {
                None
            }),
    {
        match self.position(name) {
            Some(i) => match self.kinds[i] {
                PortKind::Entry => Resolution::Entry,
                PortKind::Input => Resolution::Input,
                PortKind::Output => Resolution::Output,
            },
            None => Resolution::Unknown,
        }
    }

    /// Declares `name` as `kind`. Declaring a name again with the same kind
    /// changes nothing; declaring it with another kind is a conflict, and the
    /// registry is left as it was.
    pub fn register(&mut self, name: &str, kind: PortKind) -> (r: Result<(), DeclarationConflict>)
        requires
            old(self).wf(),
        ensures
            final(self).wf(),
            r is Ok <==> (!old(self)@.contains_key(name@) || old(self)@[name@] == kind),
            r is Ok ==> final(self)@ == old(self)@.insert(name@, kind),
            old(self)@.contains_key(name@) && old(self)@[name@] == kind ==> final(self)@ == old(self)@,
            r matches Err(c) ==> c.name@ == name@ && c.declared == old(self)@[name@]
                && c.requested == kind && final(self)@ == old(self)@,
    {
        match self.position(name) {
            Some(i) => {
                let declared = self.kinds[i];
                if declared == kind {
                    proof {
                        assert(self@.insert(name@, kind) =~= self@);
                    }
                    Ok(())
                } else {
                    Err(DeclarationConflict { name: name.to_string(), declared, requested: kind })
                }
            },
            None => {
                let ghost old_names = self.names@;
                self.names.push(name.to_string());
                self.kinds.push(kind);
                self.declared = Ghost(self.declared@.insert(name@, kind));
                proof {
                    assert forall|n: Seq<char>| #[trigger] self.declared@.contains_key(n) implies exists|i: int|
                        0 <= i < self.names@.len() && self.names@[i]@ == n by {
                        if n != name@ {
                            assert(old(self).declared@.contains_key(n));
                            let j = choose|j: int| 0 <= j < old_names.len() && old_names[j]@ == n;
                            assert(self.names@[j] == old_names[j]);
                        } else {
                            assert(self.names@[old_names.len() as int]@ == n);
                        }
                    }
                }
                Ok(())
            },
        }
    }

    pub fn register_entry(&mut self, name: &str) -> (r: Result<(), DeclarationConflict>)
        requires
            old(self).wf(),
        ensures
            final(self).wf(),
            r is Ok <==> (!old(self)@.contains_key(name@) || old(self)@[name@] == PortKind::Entry),
            r is Ok ==> final(self)@ == old(self)@.insert(name@, PortKind::Entry),
            r matches Err(c) ==> c.name@ == name@ && c.declared == old(self)@[name@]
                && c.requested == PortKind::Entry && final(self)@ == old(self)@,
    {
        self.register(name, PortKind::Entry)
    }

    pub fn register_input(&mut self, name: &str) -> (r: Result<(), DeclarationConflict>)
        requires
            old(self).wf(),
        ensures
            final(self).wf(),
            r is Ok <==> (!old(self)@.contains_key(name@) || old(self)@[name@] == PortKind::Input),
            r is Ok ==> final(self)@ == old(self)@.insert(name@, PortKind::Input),
            r matches Err(c) ==> c.name@ == name@ && c.declared == old(self)@[name@]
                && c.requested == PortKind::Input && final(self)@ == old(self)@,
    {
        self.register(name, PortKind::Input)
    }

    pub fn register_output(&mut self, name: &str) -> (r: Result<(), DeclarationConflict>)
        requires
            old(self).wf(),
        ensures
            final(self).wf(),
            r is Ok <==> (!old(self)@.contains_key(name@) || old(self)@[name@] == PortKind::Output),
            r is Ok ==> final(self)@ == old(self)@.insert(name@, PortKind::Output),
            r matches Err(c) ==> c.name@ == name@ && c.declared == old(self)@[name@]
                && c.requested == PortKind::Output && final(self)@ == old(self)@,
    {
        self.register(name, PortKind::Output)
    }
}

} // verus!

verus! {

/// Whether two names are the same.
pub fn same_name(a: &str, b: &str) -> (r: bool)
    ensures
        r == (a@ == b@),
{
    a.to_string() == b.to_string()
}

} // verus!
