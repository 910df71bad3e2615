//! The handlers that run around `fork`.

use vstd::prelude::*;

verus! {

/// The handlers registered with [`at_fork`], kept in order of registration.
pub struct RegisteredForkFuncs<F> {
    /// Functions called before calling `fork`.
    pub prepare: Vec<F>,
    /// Functions called after calling `fork`, in the parent.
    pub parent: Vec<F>,
    /// Functions called after calling `fork`, in the child.
    pub child: Vec<F>,
}

/// The handler an optional argument contributes: none or exactly one.
pub open spec fn option_seq<F>(o: Option<F>) -> Seq<F> {
    match o {
        Some(f) => seq![f],
        None => Seq::empty(),
    }
}

/// The three handler lists after one registration.
pub open spec fn registered_step<F>(
    lists: (Seq<F>, Seq<F>, Seq<F>),
    step: (Option<F>, Option<F>, Option<F>),
) -> (Seq<F>, Seq<F>, Seq<F>) {
    (lists.0 + option_seq(step.0), lists.1 + option_seq(step.1), lists.2 + option_seq(step.2))
}

/// The three handler lists after the registrations of `history`, in order,
/// starting from empty lists.
pub open spec fn registered_lists<F>(history: Seq<(Option<F>, Option<F>, Option<F>)>) -> (
    Seq<F>,
    Seq<F>,
    Seq<F>,
)
    decreases history.len(),
{
    if history.len() == 0 {
        (Seq::empty(), Seq::empty(), Seq::empty())
    } else {
        registered_step(registered_lists(history.drop_last()), history.last())
    }
}

/// The handlers that one component of `history` names, in order of
/// registration.
pub open spec fn handlers_in<F>(history: Seq<(Option<F>, Option<F>, Option<F>)>, which: int) -> Seq<
    F,
>
    decreases history.len(),
{
    if history.len() == 0 {
        Seq::empty()
    } else {
        let last = history.last();
        handlers_in(history.drop_last(), which) + option_seq(
            if which == 0 {
                last.0
            } else if which == 1 {
                last.1
            } else {
                last.2
            },
        )
    }
}

impl<F> RegisteredForkFuncs<F> {
    /// The three handler lists.
    pub open spec fn lists(&self) -> (Seq<F>, Seq<F>, Seq<F>) {
        (self.prepare@, self.parent@, self.child@)
    }

    /// A registry with no handlers.
    pub fn new() -> (r: Self)
        ensures
            r.lists() == (Seq::<F>::empty(), Seq::<F>::empty(), Seq::<F>::empty()),
    {
        Self { prepare: Vec::new(), parent: Vec::new(), child: Vec::new() }
    }
}

impl<F: Copy> RegisteredForkFuncs<F> {
    /// The prepare handlers in the order they run: the reverse of their
    /// registration.
    pub fn prepare_order(&self) -> (r: Vec<F>)
        ensures
            r@ == self.prepare@.reverse(),
    {
        let mut r: Vec<F> = Vec::new();
        let n = self.prepare.len();
        let mut i: usize = 0;
        while i < n
            invariant
                i <= n,
                n == self.prepare@.len(),
                r@.len() == i,
                forall|k: int| 0 <= k < i ==> r@[k] == self.prepare@[n - 1 - k],
            decreases n - i,
        {
            r.push(self.prepare[n - 1 - i]);
            i += 1;
        }
        assert(r@ =~= self.prepare@.reverse());
        r
    }

    /// The parent handlers in the order they run: that of their registration.
    pub fn parent_order(&self) -> (r: Vec<F>)
        ensures
            r@ == self.parent@,
    {
        copy_handlers(&self.parent)
    }

    /// The child handlers in the order they run: that of their registration.
    pub fn child_order(&self) -> (r: Vec<F>)
        ensures
            r@ == self.child@,
    {
        copy_handlers(&self.child)
    }
}

fn copy_handlers<F: Copy>(v: &Vec<F>) -> (r: Vec<F>)
    ensures
        r@ == v@,
{
    let mut r: Vec<F> = Vec::new();
    let mut i: usize = 0;
    while i < v.len()
        invariant
            i <= v@.len(),
            r@ == v@.take(i as int),
        decreases v@.len() - i,
    {
        r.push(v[i]);
        i += 1;
        assert(r@ =~= v@.take(i as int));
    }
    assert(v@.take(v@.len() as int) =~= v@);
    r
}

/// Registers functions to be called when `fork` is called: each present
/// argument is appended to its list.
pub fn at_fork<F>(
    funcs: &mut RegisteredForkFuncs<F>,
    prepare_func: Option<F>,
    parent_func: Option<F>,
    child_func: Option<F>,
)
    ensures
        final(funcs).lists() == registered_step(
            old(funcs).lists(),
            (prepare_func, parent_func, child_func),
        ),
{
    let ghost step = (prepare_func, parent_func, child_func);
    match prepare_func {
        Some(f) => funcs.prepare.push(f),
        None => {},
    }
    match parent_func {
        Some(f) => funcs.parent.push(f),
        None => {},
    }
    match child_func {
        Some(f) => funcs.child.push(f),
        None => {},
    }
    assert(funcs.lists() =~~= registered_step(old(funcs).lists(), step));
}

/// Handler order: after any sequence of registrations starting from an empty
/// registry, the prepare handlers run in the reverse order of their
/// registration, and the parent and child handlers run in the order of their
/// registration.
pub proof fn lemma_fork_handler_order<F>(history: Seq<(Option<F>, Option<F>, Option<F>)>)
    ensures
        registered_lists(history).0.reverse() == handlers_in(history, 0).reverse(),
        registered_lists(history).0 == handlers_in(history, 0),
        registered_lists(history).1 == handlers_in(history, 1),
        registered_lists(history).2 == handlers_in(history, 2),
    decreases history.len(),
{
    if history.len() > 0 {
        lemma_fork_handler_order(history.drop_last());
    }
}

} // verus!
