use vstd::prelude::*;

verus! {

/// One kind of namespace that the bootstrap isolates.
#[derive(Clone, Copy, Debug, PartialEq, Eq, Structural)]
pub enum Namespace {
    Network,
    Pid,
    Mount,
}

impl Namespace {
    /// Position of the kind in the fixed order network, PID, mount.
    pub open spec fn order(self) -> nat {
        match self {
            Namespace::Network => 0,
            Namespace::Pid => 1,
            Namespace::Mount => 2,
        }
    }
}

/// The namespace kinds requested when the isolated process is created.
#[derive(Clone, Copy, Debug, PartialEq, Eq, Structural)]
pub struct NamespaceSet {
    pub network: bool,
    pub pid: bool,
    pub mount: bool,
}

impl NamespaceSet {
    pub open spec fn has(self, ns: Namespace) -> bool {
        match ns {
            Namespace::Network => self.network,
            Namespace::Pid => self.pid,
            Namespace::Mount => self.mount,
        }
    }

    /// The kinds of the set, in the order network, PID, mount.
    pub open spec fn kinds_spec(self) -> Seq<Namespace> {
        let a = if self.network { seq![Namespace::Network] } else { Seq::empty() };
        let b = if self.pid { seq![Namespace::Pid] } else { Seq::empty() };
        let c = if self.mount { seq![Namespace::Mount] } else { Seq::empty() };
        a + b + c
    }

    /// The set that the bootstrap asks for: all three kinds.
    pub fn isolation() -> (r: NamespaceSet)
        ensures
            r.network && r.pid && r.mount,
            forall|ns: Namespace| r.has(ns),
    {
        NamespaceSet { network: true, pid: true, mount: true }
    }

    pub fn contains(&self, ns: Namespace) -> (r: bool)
        ensures
            r == self.has(ns),
    {
        match ns {
            Namespace::Network => self.network,
            Namespace::Pid => self.pid,
            Namespace::Mount => self.mount,
        }
    }

    /// The kinds of the set, each once, in the order network, PID, mount.
    pub fn kinds(&self) -> (r: Vec<Namespace>)
        ensures
            r@ == self.kinds_spec(),
            forall|ns: Namespace| self.has(ns) <==> r@.contains(ns),
            forall|i: int, j: int|
                0 <= i < j < r@.len() ==> r@[i].order() < r@[j].order(),
    {
        let mut r: Vec<Namespace> = Vec::new();
        if self.network {
            r.push(Namespace::Network);
        }
        if self.pid {
            r.push(Namespace::Pid);
        }
        if self.mount {
            r.push(Namespace::Mount);
        }
        assert(r@ =~= self.kinds_spec());
        assert forall|ns: Namespace| self.has(ns) <==> r@.contains(ns) by {
            let k: int = match ns {
                Namespace::Network => 0,
                Namespace::Pid => if self.network { 1 } else { 0 },
                Namespace::Mount => (if self.network { 1int } else { 0 }) + (if self.pid { 1int } else { 0 }),
            };
            if self.has(ns) {
                assert(r@[k] == ns);
            }
            if r@.contains(ns) {
                let i = choose|i: int| 0 <= i < r@.len() && r@[i] == ns;
                assert(r@[i] == ns);
            }
        }
        r
    }
}

} // verus!
