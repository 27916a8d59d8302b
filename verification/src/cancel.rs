//! The cancellation signal of a session: a tree of tokens in which
//! cancelling one token cancels every token derived from it, and nothing
//! ever revives a cancelled token.
use vstd::prelude::*;

verus! {

/// Names one token of a [`CancelTree`].
#[derive(Clone, Copy, Debug, PartialEq, Eq, Structural)]
pub struct CancelToken(pub usize);

/// A tree of cancellation tokens. Token `0` is the root; every other token
/// was derived from an earlier one.
pub struct CancelTree {
    parents: Vec<usize>,
    cancelled: Vec<bool>,
}

/// The tree as plain values: for each token the token it was derived from
/// (the root names itself) and whether it has been cancelled.
pub struct CancelTreeView {
    pub parents: Seq<usize>,
    pub cancelled: Seq<bool>,
}

/// Whether, with the given parents, token `t` is `a` itself or reaches `a`
/// by going from parent to parent.
pub open spec fn derives_in(parents: Seq<usize>, t: int, a: int) -> bool
    decreases t,
{
    if t == a {
        true
    } else if 0 < t < parents.len() && parents[t] < t {
        derives_in(parents, parents[t] as int, a)
    } else {
        false
    }
}

impl CancelTreeView {
    /// Number of tokens.
    pub open spec fn len(self) -> nat {
        self.parents.len()
    }

    /// Every token but the root derives from an earlier token, and a token
    /// whose parent is cancelled is cancelled too.
    pub open spec fn wf(self) -> bool {
        &&& self.parents.len() == self.cancelled.len()
        &&& self.parents.len() >= 1
        &&& self.parents[0] == 0
        &&& forall|i: int| 0 < i < self.parents.len() ==> #[trigger] self.parents[i] < i
        &&& forall|i: int|
            0 <= i < self.parents.len() && self.cancelled[self.parents[i] as int]
                ==> #[trigger] self.cancelled[i]
    }

    /// Whether token `t` is `a` itself or was derived, directly or through
    /// other tokens, from `a`.
    pub open spec fn derives(self, t: int, a: int) -> bool {
        derives_in(self.parents, t, a)
    }

    /// The tree after cancelling `a`: `a` and all that derives from it are
    /// cancelled, the rest is as before.
    pub open spec fn cancel(self, a: int) -> CancelTreeView {
        CancelTreeView {
            parents: self.parents,
            cancelled: Seq::new(
                self.cancelled.len(),
                |u: int| self.cancelled[u] || self.derives(u, a),
            ),
        }
    }

    /// The tree after deriving a new token from `p`. The new token is born
    /// cancelled when `p` already is.
    pub open spec fn child(self, p: int) -> CancelTreeView {
        CancelTreeView {
            parents: self.parents.push(p as usize),
            cancelled: self.cancelled.push(self.cancelled[p]),
        }
    }

    /// A fresh tree: one live root.
    pub open spec fn root() -> CancelTreeView {
        CancelTreeView { parents: seq![0usize], cancelled: seq![false] }
    }
}

/// A token never derives from a later one.
pub proof fn lemma_derives_is_later(v: CancelTreeView, t: int, a: int)
    requires
        v.derives(t, a),
    ensures
        a <= t,
    decreases t,
{
    if t != a {
        lemma_derives_is_later(v, v.parents[t] as int, a);
    }
}

/// Cancelling keeps the tree well formed.
pub proof fn lemma_cancel_wf(v: CancelTreeView, a: int)
    requires
        v.wf(),
        0 <= a < v.len(),
    ensures
        v.cancel(a).wf(),
{
    let w = v.cancel(a);
    assert forall|i: int|
        0 <= i < w.parents.len() && w.cancelled[w.parents[i] as int]
        implies #[trigger] w.cancelled[i] by {
        let p = v.parents[i] as int;
        if i > 0 && i != a {
            assert(v.parents[i] < i);
            assert(v.derives(i, a) == v.derives(p, a));
            if v.cancelled[p] {
                assert(v.cancelled[i]);
            }
        }
    }
}

/// Cancellation cascades and is one-way: after cancelling `a`, every token
/// derived from `a` is cancelled, and every token that was cancelled before
/// still is.
pub proof fn lemma_cancel_cascades(v: CancelTreeView, a: int, u: int)
    requires
        v.wf(),
        0 <= a < v.len(),
        0 <= u < v.len(),
    ensures
        v.derives(u, a) ==> v.cancel(a).cancelled[u],
        v.cancelled[u] ==> v.cancel(a).cancelled[u],
        v.cancel(a).cancelled[a],
{
}

/// Cancelling the same token again changes nothing.
pub proof fn lemma_cancel_idempotent(v: CancelTreeView, a: int)
    requires
        v.wf(),
        0 <= a < v.len(),
    ensures
        v.cancel(a).cancel(a) == v.cancel(a),
{
    let w = v.cancel(a);
    assert(w.cancel(a).cancelled =~= w.cancelled);
}

/// The order in which two tokens are cancelled does not matter.
pub proof fn lemma_cancel_commutes(v: CancelTreeView, a: int, b: int)
    requires
        v.wf(),
        0 <= a < v.len(),
        0 <= b < v.len(),
    ensures
        v.cancel(a).cancel(b) == v.cancel(b).cancel(a),
{
    assert(v.cancel(a).cancel(b).cancelled =~= v.cancel(b).cancel(a).cancelled);
}

impl View for CancelTree {
    type V = CancelTreeView;

    closed spec fn view(&self) -> CancelTreeView {
        CancelTreeView { parents: self.parents@, cancelled: self.cancelled@ }
    }
}

impl CancelTree {
    /// Well-formedness of the tree.
    pub open spec fn wf(&self) -> bool {
        self@.wf()
    }

    /// Creates a tree that holds one live root token.
    pub fn new() -> (tree: CancelTree)
        ensures
            tree.wf(),
            tree@ == CancelTreeView::root(),
    {
        let mut parents: Vec<usize> = Vec::new();
        parents.push(0);
        let mut cancelled: Vec<bool> = Vec::new();
        cancelled.push(false);
        let tree = CancelTree { parents, cancelled };
        assert(tree@.parents =~= seq![0usize]);
        assert(tree@.cancelled =~= seq![false]);
        tree
    }

    /// The root token.
    pub fn root(&self) -> (token: CancelToken)
        ensures
            token == CancelToken(0),
    {
        CancelToken(0)
    }

    /// Number of tokens in the tree.
    pub fn len(&self) -> (n: usize)
        ensures
            n == self@.len(),
    {
        self.parents.len()
    }

    /// Whether the token belongs to this tree.
    pub fn contains(&self, token: CancelToken) -> (known: bool)
        ensures
            known == (token.0 < self@.len()),
    {
        token.0 < self.parents.len()
    }

    /// Derives a new token from `parent`. A token derived from a cancelled
    /// token is cancelled from the start.
    pub fn child(&mut self, parent: CancelToken) -> (token: CancelToken)
        requires
            old(self).wf(),
            parent.0 < old(self)@.len(),
        ensures
            final(self).wf(),
            final(self)@ == old(self)@.child(parent.0 as int),
            token.0 == old(self)@.len(),
    {
        let id = self.parents.len();
        let state = self.cancelled[parent.0];
        self.parents.push(parent.0);
        self.cancelled.push(state);
        proof {
            let v = old(self)@;
            let w = self@;
            assert(w.parents =~= v.parents.push(parent.0));
            assert(w.cancelled =~= v.cancelled.push(v.cancelled[parent.0 as int]));
            assert forall|i: int| 0 < i < w.parents.len() implies #[trigger] w.parents[i] < i by {
                if i < v.parents.len() {
                    assert(v.parents[i] < i);
                }
            }
            assert forall|i: int|
                0 <= i < w.parents.len() && w.cancelled[w.parents[i] as int]
                implies #[trigger] w.cancelled[i] by {
                if i < v.parents.len() {
                    if i > 0 {
                        assert(v.parents[i] < i);
                    }
                    assert(v.cancelled[v.parents[i] as int] ==> v.cancelled[i]);
                }
            }
        }
        CancelToken(id)
    }

    /// Whether the token has been cancelled, itself or through an ancestor.
    pub fn is_cancelled(&self, token: CancelToken) -> (yes: bool)
        requires
            self.wf(),
            token.0 < self@.len(),
        ensures
            yes == self@.cancelled[token.0 as int],
    {
        self.cancelled[token.0]
    }

    /// Cancels the token and every token derived from it.
    pub fn cancel(&mut self, token: CancelToken)
        requires
            old(self).wf(),
            token.0 < old(self)@.len(),
        ensures
            final(self).wf(),
            final(self)@ == old(self)@.cancel(token.0 as int),
    {
        let ghost v = self@;
        let a = token.0;
        let n = self.parents.len();
        self.cancelled.set(a, true);
        let mut i: usize = a + 1;
        proof {
            assert forall|u: int| 0 <= u < a implies !v.derives(u, a as int) by {
                if v.derives(u, a as int) {
                    lemma_derives_is_later(v, u, a as int);
                }
            }
        }
        while i < n
            invariant
                v.wf(),
                a < i <= n,
                n == v.len(),
                self.parents@ == v.parents,
                self.cancelled@.len() == n,
                forall|u: int|
                    0 <= u < i ==> self.cancelled@[u] == (v.cancelled[u] || v.derives(u, a as int)),
                forall|u: int| i <= u < n ==> self.cancelled@[u] == v.cancelled[u],
            decreases n - i,
        {
            let p = self.parents[i];
            proof {
                assert(v.parents[i as int] < i);
                assert(v.derives(i as int, a as int) == v.derives(p as int, a as int));
                if v.cancelled[p as int] {
                    assert(v.cancelled[i as int]);
                }
            }
            if self.cancelled[p] {
                self.cancelled.set(i, true);
            }
            i = i + 1;
        }
        proof {
            assert(self@.cancelled =~= v.cancel(a as int).cancelled);
            lemma_cancel_wf(v, a as int);
        }
    }
}

} // verus!
