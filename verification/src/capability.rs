//! The closed set of host capabilities that the shell can grant to the UI layer,
//! and the ordered registration set that is fixed at startup.

use vstd::prelude::*;

verus! {

/// A class of system operation that the host can open to the UI layer.
#[derive(Clone, Copy, Debug, PartialEq, Eq, Structural)]
pub enum Capability {
    /// Execution of child processes.
    Shell,
    /// Outgoing HTTP requests.
    Http,
    /// Control of the application's own process.
    Process,
    /// Queries about the operating system.
    Os,
    /// Desktop notifications.
    Notification,
}

/// Whether the shell can run without a capability.
#[derive(Clone, Copy, Debug, PartialEq, Eq, Structural)]
pub enum Criticality {
    /// Startup is aborted when the capability cannot be initialised.
    Required,
    /// Startup goes on without the capability when it cannot be initialised.
    Optional,
}

/// One entry of a registration set: a capability and how much the shell depends on it.
#[derive(Clone, Copy, Debug, PartialEq, Eq, Structural)]
pub struct Grant {
    pub capability: Capability,
    pub criticality: Criticality,
}

/// `grants` has an entry for `capability`.
pub open spec fn lists(grants: Seq<Grant>, capability: Capability) -> bool {
    exists|i: int| 0 <= i < grants.len() && (#[trigger] grants[i]).capability == capability
}

/// No capability has two entries in `grants`.
pub open spec fn distinct(grants: Seq<Grant>) -> bool {
    forall|i: int, j: int|
        0 <= i < j < grants.len() ==> (#[trigger] grants[i]).capability != (
        #[trigger] grants[j]).capability
}

/// The criticality that `grants` records for `capability`, if it lists it.
pub open spec fn criticality_in(grants: Seq<Grant>, capability: Capability) -> Option<Criticality> {
    if lists(grants, capability) {
        let i = choose|i: int| 0 <= i < grants.len() && (#[trigger] grants[i]).capability == capability;
        Some(grants[i].criticality)
    } else {
        None
    }
}

/// `grants` with the entry for `capability` taken out, the others in their order.
pub open spec fn without(grants: Seq<Grant>, capability: Capability) -> Seq<Grant> {
    grants.filter(|g: Grant| g.capability != capability)
}

/// Whether `capability` lets its holder start a child process.
pub open spec fn spawns_processes(capability: Capability) -> bool {
    capability == Capability::Shell || capability == Capability::Process
}

/// `grants` lists a capability through which a child process can be started.
pub open spec fn can_spawn(grants: Seq<Grant>) -> bool {
    lists(grants, Capability::Shell) || lists(grants, Capability::Process)
}

/// The five capabilities of the full desktop shell, all required, in registration order.
pub open spec fn full_grants() -> Seq<Grant> {
    seq![
        Grant { capability: Capability::Shell, criticality: Criticality::Required },
        Grant { capability: Capability::Http, criticality: Criticality::Required },
        Grant { capability: Capability::Process, criticality: Criticality::Required },
        Grant { capability: Capability::Os, criticality: Criticality::Required },
        Grant { capability: Capability::Notification, criticality: Criticality::Required },
    ]
}

/// Two strings hold the same text.
fn same_text(a: &str, b: &str) -> (same: bool)
    ensures
        same == (a@ == b@),
{
    let left: String = a.to_owned();
    let right: String = b.to_owned();
    left == right
}

impl Capability {
    /// The name under which the capability is registered.
    pub open spec fn spec_name(self) -> Seq<char> {
        match self {
            Capability::Shell => "shell"@,
            Capability::Http => "http"@,
            Capability::Process => "process"@,
            Capability::Os => "os"@,
            Capability::Notification => "notification"@,
        }
    }

    /// The capability registered under `name`, if there is one.
    pub open spec fn spec_from_name(name: Seq<char>) -> Option<Capability> {
        if name == "shell"@ {
            Some(Capability::Shell)
        } else if name == "http"@ {
            Some(Capability::Http)
        } else if name == "process"@ {
            Some(Capability::Process)
        } else if name == "os"@ {
            Some(Capability::Os)
        } else if name == "notification"@ {
            Some(Capability::Notification)
        } else {
            None
        }
    }

    /// The name under which the capability is registered.
    pub fn name(self) -> (s: &'static str)
        ensures
            s@ == self.spec_name(),
    {
        match self {
            Capability::Shell => "shell",
            Capability::Http => "http",
            Capability::Process => "process",
            Capability::Os => "os",
            Capability::Notification => "notification",
        }
    }

    /// Resolves a registration name. Names are matched exactly; an unknown name gives `None`.
    pub fn from_name(name: &str) -> (found: Option<Capability>)
        ensures
            found == Capability::spec_from_name(name@),
    {
        if same_text(name, "shell") {
            Some(Capability::Shell)
        } else if same_text(name, "http") {
            Some(Capability::Http)
        } else if same_text(name, "process") {
            Some(Capability::Process)
        } else if same_text(name, "os") {
            Some(Capability::Os)
        } else if same_text(name, "notification") {
            Some(Capability::Notification)
        } else {
            None
        }
    }

    /// Whether the capability lets its holder start a child process.
    pub fn spawns_processes(self) -> (yes: bool)
        ensures
            yes == spawns_processes(self),
    {
        match self {
            Capability::Shell => true,
            Capability::Process => true,
            _ => false,
        }
    }
}

/// Every capability is found again under its own name, so no two share a name.
pub proof fn lemma_name_round_trip(capability: Capability)
    ensures
        Capability::spec_from_name(capability.spec_name()) == Some(capability),
{
    reveal_strlit("shell");
    reveal_strlit("http");
    reveal_strlit("process");
    reveal_strlit("os");
    reveal_strlit("notification");
    assert("shell"@.len() == 5);
    assert("http"@.len() == 4);
    assert("process"@.len() == 7);
    assert("os"@.len() == 2);
    assert("notification"@.len() == 12);
}

/// The ordered set of capabilities that a shell registers.
///
/// It starts empty: nothing is enabled unless it is registered by name. No capability
/// is listed twice, and the order of registration is kept.
#[derive(Debug)]
pub struct CapabilitySet {
    grants: Vec<Grant>,
}

impl View for CapabilitySet {
    type V = Seq<Grant>;

    closed spec fn view(&self) -> Seq<Grant> {
        self.grants@
    }
}

impl CapabilitySet {
    /// No capability is registered twice.
    #[verifier::type_invariant]
    pub closed spec fn wf(&self) -> bool {
        distinct(self.grants@)
    }

    /// What well-formedness says of the entries.
    pub proof fn lemma_entries_distinct(&self)
        requires
            self.wf(),
        ensures
            distinct(self@),
    {
    }

    /// The empty set.
    pub fn new() -> (set: CapabilitySet)
        ensures
            set@ == Seq::<Grant>::empty(),
    {
        CapabilitySet { grants: Vec::new() }
    }

    /// The full desktop set: shell, http, process, os and notification, all required.
    pub fn full() -> (set: CapabilitySet)
        ensures
            set@ == full_grants(),
    {
        let mut grants: Vec<Grant> = Vec::new();
        grants.push(Grant { capability: Capability::Shell, criticality: Criticality::Required });
        grants.push(Grant { capability: Capability::Http, criticality: Criticality::Required });
        grants.push(Grant { capability: Capability::Process, criticality: Criticality::Required });
        grants.push(Grant { capability: Capability::Os, criticality: Criticality::Required });
        grants.push(
            Grant { capability: Capability::Notification, criticality: Criticality::Required },
        );
        assert(grants@ =~= full_grants());
        CapabilitySet { grants }
    }

    /// The number of registered capabilities.
    pub fn len(&self) -> (n: usize)
        ensures
            n == self@.len(),
    {
        self.grants.len()
    }

    /// The entry at position `index` in registration order.
    pub fn get(&self, index: usize) -> (grant: Option<Grant>)
        ensures
            grant == if index < self@.len() {
                Some(self@[index as int])
            } else {
                None
            },
    {
        if index < self.grants.len() {
            Some(self.grants[index])
        } else {
            None
        }
    }

    /// The position of the entry for `capability`.
    fn position(&self, capability: Capability) -> (at: Option<usize>)
        ensures
            match at {
                Some(i) => i < self@.len() && self@[i as int].capability == capability,
                None => !lists(self@, capability),
            },
    {
        let mut i: usize = 0;
        while i < self.grants.len()
            invariant
                i <= self.grants@.len(),
                forall|k: int| 0 <= k < i ==> (#[trigger] self.grants@[k]).capability != capability,
            decreases self.grants@.len() - i,
        {
            if self.grants[i].capability == capability {
                return Some(i);
            }
            i += 1;
        }
        None
    }

    /// Whether `capability` is registered.
    pub fn contains(&self, capability: Capability) -> (listed: bool)
        ensures
            listed == lists(self@, capability),
    {
        self.position(capability).is_some()
    }

    /// The criticality recorded for `capability`, if it is registered.
    pub fn criticality_of(&self, capability: Capability) -> (found: Option<Criticality>)
        ensures
            found == criticality_in(self@, capability),
    {
        proof {
            use_type_invariant(self);
        }
        match self.position(capability) {
            Some(i) => Some(self.grants[i].criticality),
            None => None,
        }
    }

    /// Whether a registered capability allows starting a child process.
    pub fn can_spawn(&self) -> (yes: bool)
        ensures
            yes == can_spawn(self@),
    {
        self.contains(Capability::Shell) || self.contains(Capability::Process)
    }

    /// Registers `capability`. A capability that is already registered keeps its first
    /// entry and its place; the call then changes nothing and returns `false`.
    pub fn register(&mut self, capability: Capability, criticality: Criticality) -> (added: bool)
        ensures
            added == !lists(old(self)@, capability),
            final(self)@ == if added {
                old(self)@.push(Grant { capability, criticality })
            } else {
                old(self)@
            },
    {
        proof {
            use_type_invariant(&*self);
        }
        if self.contains(capability) {
            false
        } else {
            let mut grants: Vec<Grant> = Vec::new();
            core::mem::swap(&mut grants, &mut self.grants);
            grants.push(Grant { capability, criticality });
            proof {
                let ghost grown = grants@;
                assert forall|i: int, j: int| 0 <= i < j < grown.len() implies (#[trigger] grown[i]).capability
                    != (#[trigger] grown[j]).capability by {
                    if j == grown.len() - 1 {
                        assert(old(self)@[i] == grown[i]);
                    } else {
                        assert(old(self)@[i] == grown[i]);
                        assert(old(self)@[j] == grown[j]);
                    }
                }
            }
            self.grants = grants;
            true
        }
    }

    /// Takes `capability` out of the set and keeps the order of the others.
    /// Returns whether it was registered.
    pub fn remove(&mut self, capability: Capability) -> (removed: bool)
        ensures
            removed == lists(old(self)@, capability),
            final(self)@ == without(old(self)@, capability),
    {
        proof {
            use_type_invariant(&*self);
        }
        match self.position(capability) {
            Some(i) => {
                let mut grants: Vec<Grant> = Vec::new();
                core::mem::swap(&mut grants, &mut self.grants);
                grants.remove(i);
                proof {
                    lemma_without_present(old(self)@, i as int, capability);
                }
                self.grants = grants;
                true
            },
            None => {
                proof {
                    lemma_without_absent(self@, capability);
                }
                false
            },
        }
    }
}

/// Taking out a capability that is not listed changes nothing.
pub proof fn lemma_without_absent(grants: Seq<Grant>, capability: Capability)
    requires
        !lists(grants, capability),
    ensures
        without(grants, capability) == grants,
    decreases grants.len(),
{
    reveal(Seq::filter);
    if grants.len() > 0 {
        let front = grants.drop_last();
        if lists(front, capability) {
            let j = choose|j: int| 0 <= j < front.len() && (#[trigger] front[j]).capability == capability;
            assert(grants[j].capability == capability);
        }
        lemma_without_absent(front, capability);
        assert(grants[grants.len() - 1].capability != capability);
        assert(front.push(grants.last()) =~= grants);
    }
}

/// Taking out a capability that is listed removes its one entry and nothing else.
pub proof fn lemma_without_present(grants: Seq<Grant>, at: int, capability: Capability)
    requires
        distinct(grants),
        0 <= at < grants.len(),
        grants[at].capability == capability,
    ensures
        without(grants, capability) == grants.remove(at),
        distinct(grants.remove(at)),
    decreases grants.len(),
{
    reveal(Seq::filter);
    let front = grants.drop_last();
    let rest = grants.remove(at);
    if at == grants.len() - 1 {
        if lists(front, capability) {
            let j = choose|j: int| 0 <= j < front.len() && (#[trigger] front[j]).capability == capability;
            assert(grants[j].capability == capability);
        }
        lemma_without_absent(front, capability);
        assert(rest =~= front);
    } else {
        assert(distinct(front)) by {
            assert forall|i: int, j: int| 0 <= i < j < front.len() implies (#[trigger] front[i]).capability
                != (#[trigger] front[j]).capability by {
                assert(grants[i] == front[i] && grants[j] == front[j]);
            }
        }
        lemma_without_present(front, at, capability);
        assert(grants[grants.len() - 1].capability != capability);
        assert(front.remove(at).push(grants.last()) =~= rest);
    }
    assert forall|i: int, j: int| 0 <= i < j < rest.len() implies (#[trigger] rest[i]).capability
        != (#[trigger] rest[j]).capability by {
        let from_i = if i < at { i } else { i + 1 };
        let from_j = if j < at { j } else { j + 1 };
        assert(rest[i] == grants[from_i] && rest[j] == grants[from_j]);
    }
}

/// Taking a capability out of a registration removes it and keeps every other one.
pub proof fn lemma_without(grants: Seq<Grant>, taken: Capability, other: Capability)
    ensures
        !lists(without(grants, taken), taken),
        other != taken ==> lists(without(grants, taken), other) == lists(grants, other),
{
    let keep = |g: Grant| g.capability != taken;
    let rest = grants.filter(keep);
    assert(rest == without(grants, taken));
    assert forall|i: int| 0 <= i < rest.len() implies (#[trigger] rest[i]).capability != taken by {
        grants.lemma_filter_pred(keep, i);
    }
    if other != taken {
        if lists(grants, other) {
            let i = choose|i: int| 0 <= i < grants.len() && (#[trigger] grants[i]).capability == other;
            grants.lemma_filter_contains(keep, i);
            let j = choose|j: int| 0 <= j < rest.len() && rest[j] == grants[i];
            assert(rest[j].capability == other);
        }
        if lists(rest, other) {
            let j = choose|j: int| 0 <= j < rest.len() && (#[trigger] rest[j]).capability == other;
            grants.lemma_filter_contains_rev(keep, rest[j]);
            let i = choose|i: int| 0 <= i < grants.len() && grants[i] == rest[j];
            assert(grants[i].capability == other);
        }
    }
}

} // verus!
