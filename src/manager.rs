//! The dispatch engine: a table of named handlers, a way to provide the
//! resource they run against, and the folding of their outcomes into actions.
use vstd::prelude::*;

use crate::action::Action;
use crate::error::ActionError;

verus! {

/// The handler registered under `n` in `entries`, if any.
pub open spec fn lookup<H>(entries: Seq<(Seq<char>, H)>, n: Seq<char>) -> Option<H> {
    if exists|i: int| 0 <= i < entries.len() && #[trigger] entries[i].0 == n {
        let i = choose|i: int| 0 <= i < entries.len() && #[trigger] entries[i].0 == n;
        Some(entries[i].1)
    } else {
        None
    }
}

/// No name occurs twice in `entries`.
pub open spec fn names_unique<H>(entries: Seq<(Seq<char>, H)>) -> bool {
    forall|i: int, j: int|
        0 <= i < entries.len() && 0 <= j < entries.len() && #[trigger] entries[i].0
            == #[trigger] entries[j].0 ==> i == j
}

/// The table after offering `h` under `n`: an existing name keeps its first handler.
pub open spec fn registered<H>(entries: Seq<(Seq<char>, H)>, n: Seq<char>, h: H) -> Seq<
    (Seq<char>, H),
> {
    if lookup(entries, n) is Some {
        entries
    } else {
        entries.push((n, h))
    }
}

/// In a table with unique names, the entry at `i` is what its name looks up.
pub proof fn lemma_lookup_at<H>(entries: Seq<(Seq<char>, H)>, i: int)
    requires
        names_unique(entries),
        0 <= i < entries.len(),
    ensures
        lookup(entries, entries[i].0) == Some(entries[i].1),
{
}

/// Offering a handler keeps names unique and binds the name as `registered` says.
pub proof fn lemma_registered<H>(entries: Seq<(Seq<char>, H)>, n: Seq<char>, h: H)
    requires
        names_unique(entries),
    ensures
        names_unique(registered(entries, n, h)),
        lookup(registered(entries, n, h), n) == if lookup(entries, n) is Some {
            lookup(entries, n)
        } else {
            Some(h)
        },
        forall|m: Seq<char>|
            m != n ==> #[trigger] lookup(registered(entries, n, h), m) == lookup(entries, m),
{
    let e2 = registered(entries, n, h);
    if lookup(entries, n) is None {
        assert(e2[entries.len() as int].0 == n);
        lemma_lookup_at(e2, entries.len() as int);
        assert forall|m: Seq<char>| m != n implies #[trigger] lookup(e2, m) == lookup(entries, m) by {
            if exists|i: int| 0 <= i < entries.len() && #[trigger] entries[i].0 == m {
                let i = choose|i: int| 0 <= i < entries.len() && #[trigger] entries[i].0 == m;
                assert(e2[i] == entries[i]);
                lemma_lookup_at(e2, i);
            } else {
                assert forall|i: int| 0 <= i < e2.len() implies #[trigger] e2[i].0 != m by {
                    if i < entries.len() {
                        assert(e2[i] == entries[i]);
                    }
                }
            }
        }
    }
}

/// Once a name is bound, offering another handler under it leaves the first in place.
pub proof fn lemma_first_registration_kept<H>(
    entries: Seq<(Seq<char>, H)>,
    n: Seq<char>,
    first: H,
    second: H,
)
    requires
        names_unique(entries),
    ensures
        lookup(registered(registered(entries, n, first), n, second), n) == if lookup(
            entries,
            n,
        ) is Some {
            lookup(entries, n)
        } else {
            Some(first)
        },
{
    lemma_registered(entries, n, first);
    lemma_registered(registered(entries, n, first), n, second);
}

/// Handlers keyed by name, each name bound at most once.
pub struct HandlerTable<H> {
    entries: Vec<(String, H)>,
}

impl<H> HandlerTable<H> {
    /// The table as (name, handler) pairs in registration order.
    pub closed spec fn view_entries(&self) -> Seq<(Seq<char>, H)> {
        self.entries@.map_values(|p: (String, H)| (p.0@, p.1))
    }

    pub open spec fn wf(&self) -> bool {
        names_unique(self.view_entries())
    }

    /// An empty table.
    pub fn new() -> (r: HandlerTable<H>)
        ensures
            r.wf(),
            r.view_entries() == Seq::<(Seq<char>, H)>::empty(),
    {
        let r = HandlerTable { entries: Vec::new() };
        assert(r.view_entries() =~= Seq::<(Seq<char>, H)>::empty());
        r
    }

    /// The position of `name`, if bound.
    fn position(&self, name: &String) -> (r: Option<usize>)
        requires
            self.wf(),
        ensures
            match r {
                Some(i) => i < self.view_entries().len() && self.view_entries()[i as int].0
                    == name@,
                None => lookup(self.view_entries(), name@) is None,
            },
    {
        let mut i: usize = 0;
        while i < self.entries.len()
            invariant
                i <= self.entries.len(),
                forall|j: int| 0 <= j < i ==> #[trigger] self.view_entries()[j].0 != name@,
            decreases self.entries.len() - i,
        {
            if self.entries[i].0 == *name {
                return Some(i);
            }
            i = i + 1;
        }
        None
    }

    /// The handler bound to `name`, if any.
    pub fn get(&self, name: &String) -> (r: Option<&H>)
        requires
            self.wf(),
        ensures
            match r {
                Some(h) => lookup(self.view_entries(), name@) == Some(*h),
                None => lookup(self.view_entries(), name@) is None,
            },
    {
        match self.position(name) {
            Some(i) => {
                proof {
                    lemma_lookup_at(self.view_entries(), i as int);
                }
                Some(&self.entries[i].1)
            },
            None => None,
        }
    }

    /// Whether `name` is bound.
    pub fn contains(&self, name: &str) -> (r: bool)
        requires
            self.wf(),
        ensures
            r == (lookup(self.view_entries(), name@) is Some),
    {
        let key = name.to_owned();
        self.position(&key).is_some()
    }

    /// Binds `name` to `h` unless it is already bound; returns whether it was bound now.
    pub fn insert(&mut self, name: &str, h: H) -> (r: bool)
        requires
            old(self).wf(),
        ensures
            final(self).wf(),
            final(self).view_entries() == registered(old(self).view_entries(), name@, h),
            lookup(final(self).view_entries(), name@) == if lookup(old(self).view_entries(), name@) is Some {
                lookup(old(self).view_entries(), name@)
            } else {
                Some(h)
            },
            forall|m: Seq<char>| m != name@ ==> #[trigger] lookup(final(self).view_entries(), m) == lookup(old(self).view_entries(), m),
            r == (lookup(old(self).view_entries(), name@) is None),
    {
        let key = name.to_owned();
        proof {
            lemma_registered(self.view_entries(), name@, h);
        }
        match self.position(&key) {
            Some(i) => {
                proof {
                    lemma_lookup_at(self.view_entries(), i as int);
                }
                false
            },
            None => {
                self.entries.push((key, h));
                assert(self.view_entries() =~= registered(old(self).view_entries(), name@, h));
                true
            },
        }
    }
}

/// How a manager provides the resource its handlers run against.
pub enum Provision<R, G> {
    /// One instance, lent to every dispatch.
    Shared(R),
    /// A generator called once per dispatch for a fresh instance.
    Factory(G),
}

/// A handler that may be called on any resource and any action.
pub open spec fn handler_ready<R, H: Fn(&R, &Action) -> Result<serde_json::Value, ActionError>>(
    h: H,
) -> bool {
    forall|r: &R, a: &Action| #[trigger] h.requires((r, a))
}

/// A table whose handlers may all be called.
pub open spec fn all_ready<R, H: Fn(&R, &Action) -> Result<serde_json::Value, ActionError>>(
    entries: Seq<(Seq<char>, H)>,
) -> bool {
    forall|i: int| 0 <= i < entries.len() ==> handler_ready::<R, H>(#[trigger] entries[i].1)
}

/// The error appended for a name that the manager called `manager` does not know.
pub open spec fn missing_action_error(manager: Seq<char>, e: ActionError) -> bool {
    &&& e.code@ == manager + " - DoAction"@
    &&& e.message@ == "Action does NOT exist, make sure it is valid"@
}

/// A registry of handlers over resources of type `R`, provided as `Provision` says.
pub struct Manager<R, G, H> {
    name: String,
    actions: HandlerTable<H>,
    provision: Provision<R, G>,
}

impl<R, G, H> Manager<R, G, H> where
    G: Fn() -> R,
    H: Fn(&R, &Action) -> Result<serde_json::Value, ActionError>,
 {
    /// The manager's name, used in diagnostics and error codes.
    pub closed spec fn spec_name(&self) -> Seq<char> {
        self.name@
    }

    /// The registered handlers, in registration order.
    pub closed spec fn handlers(&self) -> Seq<(Seq<char>, H)> {
        self.actions.view_entries()
    }

    /// How resources are provided.
    pub closed spec fn provision(&self) -> &Provision<R, G> {
        &self.provision
    }

    pub closed spec fn wf(&self) -> bool {
        &&& self.actions.wf()
        &&& all_ready::<R, H>(self.actions.view_entries())
        &&& match self.provision {
            Provision::Shared(_) => true,
            Provision::Factory(g) => g.requires(()),
        }
    }

    /// `r` is a resource that a dispatch may run against.
    pub open spec fn supplies(&self, r: R) -> bool {
        match *self.provision() {
            Provision::Shared(s) => r == s,
            Provision::Factory(g) => g.ensures((), r),
        }
    }

    /// A manager lending one shared resource, with no handlers.
    pub fn new(name: &str, resource: R) -> (r: Self)
        ensures
            r.wf(),
            r.spec_name() == name@,
            r.handlers() == Seq::<(Seq<char>, H)>::empty(),
            *r.provision() == Provision::<R, G>::Shared(resource),
    {
        Manager {
            name: name.to_owned(),
            actions: HandlerTable::new(),
            provision: Provision::Shared(resource),
        }
    }

    /// A manager that generates a fresh resource for each dispatch, with no handlers.
    pub fn with(name: &str, f: G) -> (r: Self)
        requires
            f.requires(()),
        ensures
            r.wf(),
            r.spec_name() == name@,
            r.handlers() == Seq::<(Seq<char>, H)>::empty(),
            *r.provision() == Provision::<R, G>::Factory(f),
    {
        Manager {
            name: name.to_owned(),
            actions: HandlerTable::new(),
            provision: Provision::Factory(f),
        }
    }

    /// Switches to generating a fresh resource for each dispatch.
    pub fn for_each(&mut self, f: G)
        requires
            old(self).wf(),
            f.requires(()),
        ensures
            final(self).wf(),
            final(self).spec_name() == old(self).spec_name(),
            final(self).handlers() == old(self).handlers(),
            *final(self).provision() == Provision::<R, G>::Factory(f),
    {
        self.provision = Provision::Factory(f);
    }

    /// Runs a setup function once against a provided resource and passes on its outcome.
    pub fn init<F>(&self, f: F) -> (r: Result<(), ActionError>)
        where
            F: Fn(&R) -> Result<(), ActionError>,
        requires
            self.wf(),
            forall|x: &R| #[trigger] f.requires((x,)),
        ensures
            exists|x: R| self.supplies(x) && #[trigger] f.ensures((&x,), r),
    {
        match &self.provision {
            Provision::Shared(s) => f(s),
            Provision::Factory(g) => {
                let x = g();
                f(&x)
            },
        }
    }

    /// Registers `f` under `name`, unless the name is taken: then the first handler stays.
    pub fn on(&mut self, name: &str, f: H)
        requires
            old(self).wf(),
            handler_ready::<R, H>(f),
        ensures
            final(self).wf(),
            final(self).spec_name() == old(self).spec_name(),
            final(self).provision() == old(self).provision(),
            final(self).handlers() == registered(old(self).handlers(), name@, f),
            lookup(final(self).handlers(), name@) == if lookup(old(self).handlers(), name@) is Some {
                lookup(old(self).handlers(), name@)
            } else {
                Some(f)
            },
            forall|m: Seq<char>| m != name@ ==> #[trigger] lookup(final(self).handlers(), m) == lookup(old(self).handlers(), m),
    {
        proof {
            lemma_registered(self.actions.view_entries(), name@, f);
        }
        self.actions.insert(name, f);
        assert(all_ready::<R, H>(self.actions.view_entries())) by {
            assert forall|i: int| 0 <= i < self.actions.view_entries().len() implies handler_ready::<R, H>(
                #[trigger] self.actions.view_entries()[i].1) by {
                if i < old(self).actions.view_entries().len() {
                    assert(self.actions.view_entries()[i] == old(self).actions.view_entries()[i]);
                }
            }
        }
    }

    /// Registers `f` under `name`, exactly as `on` does.
    pub fn action(&mut self, name: &str, f: H)
        requires
            old(self).wf(),
            handler_ready::<R, H>(f),
        ensures
            final(self).wf(),
            final(self).spec_name() == old(self).spec_name(),
            final(self).provision() == old(self).provision(),
            final(self).handlers() == registered(old(self).handlers(), name@, f),
            lookup(final(self).handlers(), name@) == if lookup(old(self).handlers(), name@) is Some {
                lookup(old(self).handlers(), name@)
            } else {
                Some(f)
            },
            forall|m: Seq<char>| m != name@ ==> #[trigger] lookup(final(self).handlers(), m) == lookup(old(self).handlers(), m),
    {
        self.on(name, f)
    }

    /// The error reported for an action name this manager does not know.
    fn missing_action(&self) -> (e: ActionError)
        ensures
            missing_action_error(self.spec_name(), e),
    {
        let mut code = self.name.clone();
        code.push_str(" - DoAction");
        ActionError { code, message: "Action does NOT exist, make sure it is valid".to_owned() }
    }

    /// `next` is `prev` after dispatch against the resource `r`: the outcome of the
    /// handler named by `prev` folded in, or the manager's `DoAction` error appended.
    pub open spec fn resolved(&self, r: R, prev: Action, next: Action) -> bool {
        match lookup(self.handlers(), prev.name@) {
            Some(h) => exists|out: Result<serde_json::Value, ActionError>|
                #[trigger] h.ensures((&r, &prev), out) && prev.outcome_applied(next, out),
            None => exists|e: ActionError|
                missing_action_error(self.spec_name(), e) && prev.error_added(next, e),
        }
    }

    /// Folds the outcome of the handler named by the action, run on `resource`, into it.
    fn run_action(&self, resource: &R, action: &mut Action)
        requires
            self.wf(),
        ensures
            self.resolved(*resource, *old(action), *final(action)),
    {
        let ghost prev = *action;
        match self.actions.get(&action.name) {
            Some(func) => {
                proof {
                    let i = choose|i: int|
                        0 <= i < self.handlers().len() && #[trigger] self.handlers()[i].0
                            == prev.name@;
                    assert(handler_ready::<R, H>(self.handlers()[i].1));
                    assert((*func).requires((resource, &*action)));
                }
                let out = (*func)(resource, &*action);
                match out {
                    Ok(v) => action.set_result(v),
                    Err(e) => action.set_error(e),
                }
                proof {
                    let h = lookup(self.handlers(), prev.name@).unwrap();
                    let r = *resource;
                    assert(h.ensures((&r, &prev), out));
                }
            },
            None => {
                let e = self.missing_action();
                action.set_error(e);
            },
        }
    }

    /// Runs the handler named by the action against a provided resource and records
    /// its result or error; an unknown name records the manager's `DoAction` error.
    pub fn do_action(&self, action: &mut Action)
        requires
            self.wf(),
        ensures
            exists|r: R| self.supplies(r) && #[trigger] self.resolved(r, *old(action), *final(action)),
    {
        match &self.provision {
            Provision::Shared(s) => {
                self.run_action(s, action);
                assert(self.supplies(*s));
            },
            Provision::Factory(g) => {
                let r = g();
                self.run_action(&r, action);
                assert(self.supplies(r));
            },
        }
    }

    /// As `do_action`, but an unknown name leaves the action untouched.
    pub fn do_action_if_exists(&self, action: &mut Action)
        requires
            self.wf(),
        ensures
            lookup(self.handlers(), old(action).name@) is Some ==> exists|r: R|
                self.supplies(r) && #[trigger] self.resolved(r, *old(action), *final(action)),
            lookup(self.handlers(), old(action).name@) is None ==> *final(action) == *old(action),
    {
        if self.actions.get(&action.name).is_some() {
            self.do_action(action);
        }
    }
}

/// On a fresh action, an unknown name yields exactly one error, the manager's
/// `DoAction` error, and leaves the result unset.
pub proof fn lemma_unknown_name_one_error<R, G, H>(
    m: &Manager<R, G, H>,
    r: R,
    prev: Action,
    next: Action,
)
    where
        G: Fn() -> R,
        H: Fn(&R, &Action) -> Result<serde_json::Value, ActionError>,
    requires
        m.resolved(r, prev, next),
        lookup(m.handlers(), prev.name@) is None,
        prev.error_list().len() == 0,
        prev.result is None,
    ensures
        next.error_list().len() == 1,
        missing_action_error(m.spec_name(), next.error_list()[0]),
        next.result is None,
        next.same_request(prev),
{
    let e = choose|e: ActionError|
        missing_action_error(m.spec_name(), e) && prev.error_added(next, e);
    assert(next.error_list()[0] == e);
}

/// A registry of handlers that report only success or an error, over one resource.
pub struct ManagerFut<R, H> {
    name: String,
    actions: HandlerTable<H>,
    resource: R,
}

impl<R, H> ManagerFut<R, H> where H: Fn(&R, &Action) -> Result<(), ActionError> {
    /// The manager's name.
    pub closed spec fn spec_name(&self) -> Seq<char> {
        self.name@
    }

    /// The registered handlers, in registration order.
    pub closed spec fn handlers(&self) -> Seq<(Seq<char>, H)> {
        self.actions.view_entries()
    }

    /// The resource that handlers run against.
    pub closed spec fn resource(&self) -> R {
        self.resource
    }

    pub closed spec fn wf(&self) -> bool {
        self.actions.wf()
    }

    /// A manager over `resource`, with no handlers.
    pub fn new(name: &str, resource: R) -> (r: Self)
        ensures
            r.wf(),
            r.spec_name() == name@,
            r.resource() == resource,
            r.handlers() == Seq::<(Seq<char>, H)>::empty(),
    {
        ManagerFut { name: name.to_owned(), actions: HandlerTable::new(), resource }
    }

    /// Registers `f` under `name`, unless the name is taken: then the first handler stays.
    pub fn on(&mut self, name: &str, f: H)
        requires
            old(self).wf(),
        ensures
            final(self).wf(),
            final(self).spec_name() == old(self).spec_name(),
            final(self).resource() == old(self).resource(),
            final(self).handlers() == registered(old(self).handlers(), name@, f),
            lookup(final(self).handlers(), name@) == if lookup(old(self).handlers(), name@) is Some {
                lookup(old(self).handlers(), name@)
            } else {
                Some(f)
            },
            forall|m: Seq<char>| m != name@ ==> #[trigger] lookup(final(self).handlers(), m) == lookup(old(self).handlers(), m),
    {
        self.actions.insert(name, f);
    }
}

} // verus!
