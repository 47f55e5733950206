//! The scoped state code generation keeps while it walks a function:
//! deferred statements per scope, and the blocks that `break` and
//! `continue` jump to per enclosing loop.

use vstd::prelude::*;
use crate::text::str_eq;

verus! {

/// Deferred statements, one list per open scope, innermost last.
pub struct DeferStack<T> {
    pub scopes: Vec<Vec<T>>,
}

/// The model of a defer stack: the lists of its scopes.
pub open spec fn scopes_view<T>(s: Seq<Vec<T>>) -> Seq<Seq<T>> {
    s.map_values(|v: Vec<T>| v@)
}

impl<T> View for DeferStack<T> {
    type V = Seq<Seq<T>>;

    open spec fn view(&self) -> Seq<Seq<T>> {
        scopes_view(self.scopes@)
    }
}

/// A stack after an item is deferred: it joins the innermost scope; with no
/// scope open nothing changes.
pub open spec fn stack_add<T>(s: Seq<Seq<T>>, x: T) -> Seq<Seq<T>> {
    if s.len() == 0 { s } else { s.update(s.len() - 1, s.last().push(x)) }
}

/// A stack after items are deferred one after the other.
pub open spec fn stack_add_all<T>(s: Seq<Seq<T>>, xs: Seq<T>) -> Seq<Seq<T>>
    decreases xs.len(),
{
    if xs.len() == 0 { s } else { stack_add(stack_add_all(s, xs.drop_last()), xs.last()) }
}

impl<T> DeferStack<T> {
    /// A stack with no scope open.
    pub fn new() -> (r: Self)
        ensures
            r@ == Seq::<Seq<T>>::empty(),
    {
        let r = DeferStack { scopes: Vec::new() };
        assert(r@ =~= Seq::<Seq<T>>::empty());
        r
    }

    /// Opens a scope.
    pub fn push_scope(&mut self)
        ensures
            final(self)@ == old(self)@.push(Seq::<T>::empty()),
    {
        let ghost before = self@;
        self.scopes.push(Vec::new());
        assert(self@ =~= before.push(Seq::<T>::empty()));
    }

    /// Defers an item in the innermost scope; with no scope open the item is
    /// dropped.
    pub fn add(&mut self, item: T)
        ensures
            final(self)@ == stack_add(old(self)@, item),
    {
        let ghost before = self@;
        let n = self.scopes.len();
        if n > 0 {
            let mut last = self.scopes.pop().unwrap();
            last.push(item);
            self.scopes.push(last);
            assert(self@ =~= stack_add(before, item));
        }
    }

    /// Closes the innermost scope and hands back its items in the order they
    /// run: the last deferred first.
    pub fn pop_scope(&mut self) -> (r: Option<Vec<T>>)
        ensures
            old(self)@.len() == 0 ==> r is None && final(self)@ == old(self)@,
            old(self)@.len() > 0 ==> (r matches Some(v) && v@ == old(self)@.last().reverse()
                && final(self)@ == old(self)@.drop_last()),
    {
        let ghost before = self@;
        match self.scopes.pop() {
            None => None,
            Some(mut items) => {
                assert(self@ =~= before.drop_last());
                let ghost orig = items@;
                let mut out: Vec<T> = Vec::new();
                while items.len() > 0
                    invariant
                        items@.len() <= orig.len(),
                        items@ == orig.subrange(0, items@.len() as int),
                        out@ == orig.subrange(items@.len() as int, orig.len() as int).reverse(),
                    decreases items.len(),
                {
                    let ghost k = items@.len();
                    let x = items.pop().unwrap();
                    out.push(x);
                    assert(out@ =~= orig.subrange(k - 1, orig.len() as int).reverse());
                }
                assert(orig.subrange(0, orig.len() as int) =~= orig);
                Some(out)
            },
        }
    }

    /// Takes the items of the innermost scope out, in the order they run
    /// (the last deferred first), leaving the scope open and empty; with no
    /// scope open there are none.
    pub fn take_current(&mut self) -> (r: Vec<T>)
        ensures
            old(self)@.len() == 0 ==> r@ == Seq::<T>::empty() && final(self)@ == old(self)@,
            old(self)@.len() > 0 ==> r@ == old(self)@.last().reverse()
                && final(self)@ == old(self)@.drop_last().push(Seq::<T>::empty()),
    {
        match self.pop_scope() {
            None => Vec::new(),
            Some(v) => {
                self.push_scope();
                v
            },
        }
    }

    /// Closes every scope.
    pub fn clear(&mut self)
        ensures
            final(self)@ == Seq::<Seq<T>>::empty(),
    {
        self.scopes = Vec::new();
        assert(self@ =~= Seq::<Seq<T>>::empty());
    }
}

/// Defers run last first: opening a scope, deferring items one after the
/// other and closing the scope hands the items back in reverse order and
/// leaves the stack as it was.
pub proof fn law_defers_run_last_first<T>(s: Seq<Seq<T>>, xs: Seq<T>)
    ensures
        stack_add_all(s.push(Seq::empty()), xs).last().reverse() == xs.reverse(),
        stack_add_all(s.push(Seq::empty()), xs).drop_last() == s,
        stack_add_all(s.push(Seq::empty()), xs).len() == s.len() + 1,
    decreases xs.len(),
{
    if xs.len() == 0 {
        assert(s.push(Seq::<T>::empty()).drop_last() =~= s);
        assert(Seq::<T>::empty().reverse() =~= xs.reverse());
    } else {
        law_defers_run_last_first(s, xs.drop_last());
        let t = stack_add_all(s.push(Seq::empty()), xs.drop_last());
        lemma_stack_last(s, xs.drop_last());
        assert(t.last() == xs.drop_last());
        assert(stack_add_all(s.push(Seq::empty()), xs) == stack_add(t, xs.last()));
        assert(stack_add(t, xs.last()).last() =~= xs);
        assert(stack_add(t, xs.last()).drop_last() =~= t.drop_last());
    }
}

proof fn lemma_stack_last<T>(s: Seq<Seq<T>>, xs: Seq<T>)
    ensures
        stack_add_all(s.push(Seq::empty()), xs).last() == xs,
        stack_add_all(s.push(Seq::empty()), xs).len() == s.len() + 1,
    decreases xs.len(),
{
    if xs.len() == 0 {
    } else {
        lemma_stack_last(s, xs.drop_last());
        let t = stack_add_all(s.push(Seq::empty()), xs.drop_last());
        assert(stack_add(t, xs.last()).last() =~= xs);
    }
}

/// The loop blocks `break` or `continue` jump to, one list per enclosing
/// loop (innermost last), each block with the loop's label.
pub struct LoopTargets<B> {
    pub levels: Vec<Vec<(B, Option<String>)>>,
}

/// The model of a label.
pub open spec fn label_view(l: Option<String>) -> Option<Seq<char>> {
    match l {
        Some(s) => Some(s@),
        None => None,
    }
}

/// The model of one loop level.
pub open spec fn level_view<B>(v: Seq<(B, Option<String>)>) -> Seq<(B, Option<Seq<char>>)> {
    v.map_values(|p: (B, Option<String>)| (p.0, label_view(p.1)))
}

impl<B> View for LoopTargets<B> {
    type V = Seq<Seq<(B, Option<Seq<char>>)>>;

    open spec fn view(&self) -> Seq<Seq<(B, Option<Seq<char>>)>> {
        self.levels@.map_values(|v: Vec<(B, Option<String>)>| level_view(v@))
    }
}

/// Whether an entry answers a jump: an unlabelled jump takes any entry, a
/// labelled one an entry with that label.
pub open spec fn entry_matches<B>(e: (B, Option<Seq<char>>), label: Option<Seq<char>>) -> bool {
    e.1 == label || label is None
}

/// The first entry of a level that answers the jump.
pub open spec fn find_in_level<B>(level: Seq<(B, Option<Seq<char>>)>, label: Option<Seq<char>>) -> Option<B>
    decreases level.len(),
{
    if level.len() == 0 {
        None
    } else if entry_matches(level[0], label) {
        Some(level[0].0)
    } else {
        find_in_level(level.drop_first(), label)
    }
}

/// The block a jump goes to: the answer of the innermost level that has
/// one.
pub open spec fn find_target<B>(levels: Seq<Seq<(B, Option<Seq<char>>)>>, label: Option<Seq<char>>) -> Option<B>
    decreases levels.len(),
{
    if levels.len() == 0 {
        None
    } else {
        match find_in_level(levels.last(), label) {
            Some(b) => Some(b),
            None => find_target(levels.drop_last(), label),
        }
    }
}

fn labels_equal(a: &Option<String>, b: &Option<String>) -> (r: bool)
    ensures
        r == (label_view(*a) == label_view(*b)),
{
    match (a, b) {
        (Some(x), Some(y)) => str_eq(x.as_str(), y.as_str()),
        (None, None) => true,
        _ => false,
    }
}

impl<B: Copy> LoopTargets<B> {
    /// No enclosing loop.
    pub fn new() -> (r: Self)
        ensures
            r@ == Seq::<Seq<(B, Option<Seq<char>>)>>::empty(),
    {
        let r = LoopTargets { levels: Vec::new() };
        assert(r@ =~= Seq::<Seq<(B, Option<Seq<char>>)>>::empty());
        r
    }

    /// Enters a loop whose jumps of this kind go to `block`.
    pub fn push_loop(&mut self, block: B, label: Option<String>)
        ensures
            final(self)@ == old(self)@.push(seq![(block, label_view(label))]),
    {
        let ghost before = self@;
        let ghost lv = label_view(label);
        let mut level: Vec<(B, Option<String>)> = Vec::new();
        level.push((block, label));
        assert(level_view(level@) =~= seq![(block, lv)]);
        self.levels.push(level);
        assert(self@ =~= before.push(seq![(block, lv)]));
    }

    /// Leaves the innermost loop.
    pub fn pop_loop(&mut self)
        ensures
            old(self)@.len() > 0 ==> final(self)@ == old(self)@.drop_last(),
            old(self)@.len() == 0 ==> final(self)@ == old(self)@,
    {
        let ghost before = self@;
        let _ = self.levels.pop();
        assert(old(self)@.len() > 0 ==> self@ =~= before.drop_last());
    }

    /// The block a `break` or `continue` with this label goes to when only
    /// the innermost loop is searched.
    pub fn find_innermost(&self, label: &Option<String>) -> (r: Option<B>)
        ensures
            r == (if self@.len() == 0 {
                None
            } else {
                find_in_level(self@.last(), label_view(*label))
            }),
    {
        let n = self.levels.len();
        if n == 0 {
            return None;
        }
        let level = &self.levels[n - 1];
        let ghost lv = label_view(*label);
        let ghost lev = level_view(level@);
        assert(lev == self@.last());
        let mut k: usize = 0;
        assert(lev.subrange(0, lev.len() as int) =~= lev);
        while k < level.len()
            invariant
                k <= level.len(),
                lv == label_view(*label),
                lev == level_view(level@),
                self@.len() > 0,
                lev == self@.last(),
                find_in_level(lev, lv) == find_in_level(lev.subrange(k as int, lev.len() as int), lv),
            decreases level.len() - k,
        {
            let ghost sub = lev.subrange(k as int, lev.len() as int);
            assert(sub[0] == (level@[k as int].0, label_view(level@[k as int].1)));
            if labels_equal(&level[k].1, label) || label.is_none() {
                return Some(level[k].0);
            }
            assert(sub.drop_first() =~= lev.subrange(k + 1, lev.len() as int));
            k = k + 1;
        }
        assert(lev.subrange(k as int, lev.len() as int) =~= Seq::<(B, Option<Seq<char>>)>::empty());
        None
    }

    /// The block a `break` or `continue` with this label goes to.
    pub fn find(&self, label: &Option<String>) -> (r: Option<B>)
        ensures
            r == find_target(self@, label_view(*label)),
    {
        let ghost lv = label_view(*label);
        let ghost all = self@;
        let mut i = self.levels.len();
        assert(all.subrange(0, i as int) =~= all);
        while i > 0
            invariant
                i <= self.levels.len(),
                all == self@,
                lv == label_view(*label),
                find_target(all, lv) == find_target(all.subrange(0, i as int), lv),
            decreases i,
        {
            let level = &self.levels[i - 1];
            let ghost lev = level_view(level@);
            assert(lev == all[i - 1]);
            let mut k: usize = 0;
            assert(lev.subrange(0, lev.len() as int) =~= lev);
            while k < level.len()
                invariant
                    k <= level.len(),
                    0 < i <= self.levels.len(),
                    all == self@,
                    lv == label_view(*label),
                    lev == all[i - 1],
                    find_target(all, lv) == find_target(all.subrange(0, i as int), lv),
                    lev == level_view(level@),
                    find_in_level(lev, lv) == find_in_level(lev.subrange(k as int, lev.len() as int), lv),
                decreases level.len() - k,
            {
                let ghost sub = lev.subrange(k as int, lev.len() as int);
                assert(sub[0] == (level@[k as int].0, label_view(level@[k as int].1)));
                if labels_equal(&level[k].1, label) || label.is_none() {
                    proof {
                        let ghost pre = all.subrange(0, i as int);
                        assert(pre.last() == lev);
                    }
                    return Some(level[k].0);
                }
                assert(sub.drop_first() =~= lev.subrange(k + 1, lev.len() as int));
                k = k + 1;
            }
            assert(lev.subrange(k as int, lev.len() as int) =~= Seq::<(B, Option<Seq<char>>)>::empty());
            let ghost pre = all.subrange(0, i as int);
            assert(pre.last() == lev);
            assert(pre.drop_last() =~= all.subrange(0, i - 1));
            i = i - 1;
        }
        None
    }
}

/// An unlabelled jump goes to the innermost loop.
pub proof fn law_unlabelled_jump_innermost<B>(levels: Seq<Seq<(B, Option<Seq<char>>)>>, b: B, l: Option<Seq<char>>)
    ensures
        find_target(levels.push(seq![(b, l)]), None) == Some(b),
{
    let s = levels.push(seq![(b, l)]);
    assert(s.last() == seq![(b, l)]);
}

/// A labelled jump goes to the innermost loop with that label.
pub proof fn law_labelled_jump_innermost_match<B>(
    levels: Seq<Seq<(B, Option<Seq<char>>)>>,
    b: B,
    l: Seq<char>,
    inner: Seq<Seq<(B, Option<Seq<char>>)>>,
)
    requires
        forall|i: int, j: int| 0 <= i < inner.len() && 0 <= j < inner[i].len() ==> inner[i][j].1 != Some(l),
    ensures
        find_target(levels.push(seq![(b, Some(l))]) + inner, Some(l)) == Some(b),
    decreases inner.len(),
{
    let base = levels.push(seq![(b, Some(l))]);
    if inner.len() == 0 {
        assert(base + inner =~= base);
        assert(base.last() == seq![(b, Some(l))]);
    } else {
        let s = base + inner;
        assert(s.drop_last() =~= base + inner.drop_last());
        assert(s.last() == inner.last());
        lemma_no_match_in_level(inner.last(), l);
        law_labelled_jump_innermost_match(levels, b, l, inner.drop_last());
    }
}

proof fn lemma_no_match_in_level<B>(level: Seq<(B, Option<Seq<char>>)>, l: Seq<char>)
    requires
        forall|j: int| 0 <= j < level.len() ==> level[j].1 != Some(l),
    ensures
        find_in_level(level, Some(l)) is None,
    decreases level.len(),
{
    if level.len() > 0 {
        assert(level[0].1 != Some(l));
        assert forall|j: int| 0 <= j < level.drop_first().len() implies level.drop_first()[j].1 != Some(l) by {
            assert(level.drop_first()[j] == level[j + 1]);
        }
        lemma_no_match_in_level(level.drop_first(), l);
    }
}

} // verus!
