use neocam::cancel::{CancelToken, CancelTree};

#[test]
fn a_new_tree_holds_a_live_root() {
    let tree = CancelTree::new();
    assert_eq!(tree.len(), 1);
    assert_eq!(tree.root(), CancelToken(0));
    assert!(tree.contains(CancelToken(0)));
    assert!(!tree.contains(CancelToken(1)));
    assert!(!tree.is_cancelled(tree.root()));
}

#[test]
fn cancelling_a_parent_cancels_every_descendant() {
    let mut tree = CancelTree::new();
    let root = tree.root();
    let a = tree.child(root);
    let b = tree.child(root);
    let a1 = tree.child(a);
    let a2 = tree.child(a1);
    let b1 = tree.child(b);
    assert_eq!([a, b, a1, a2, b1].map(|token| token.0), [1, 2, 3, 4, 5]);
    tree.cancel(a);
    assert!(tree.is_cancelled(a));
    assert!(tree.is_cancelled(a1));
    assert!(tree.is_cancelled(a2));
    assert!(!tree.is_cancelled(root));
    assert!(!tree.is_cancelled(b));
    assert!(!tree.is_cancelled(b1));
    tree.cancel(root);
    for token in 0..tree.len() {
        assert!(tree.is_cancelled(CancelToken(token)));
    }
}

#[test]
fn cancelling_again_changes_nothing() {
    let mut tree = CancelTree::new();
    let root = tree.root();
    let a = tree.child(root);
    let b = tree.child(root);
    tree.cancel(a);
    tree.cancel(a);
    assert!(tree.is_cancelled(a));
    assert!(!tree.is_cancelled(b));
    assert!(!tree.is_cancelled(root));
    assert_eq!(tree.len(), 3);
}

#[test]
fn a_token_derived_from_a_cancelled_one_is_born_cancelled() {
    let mut tree = CancelTree::new();
    let root = tree.root();
    let a = tree.child(root);
    tree.cancel(a);
    let late = tree.child(a);
    let fresh = tree.child(root);
    assert!(tree.is_cancelled(late));
    assert!(!tree.is_cancelled(fresh));
}

#[test]
fn cancelling_a_leaf_leaves_the_rest_alone() {
    let mut tree = CancelTree::new();
    let root = tree.root();
    let a = tree.child(root);
    let a1 = tree.child(a);
    tree.cancel(a1);
    assert!(tree.is_cancelled(a1));
    assert!(!tree.is_cancelled(a));
    assert!(!tree.is_cancelled(root));
}
