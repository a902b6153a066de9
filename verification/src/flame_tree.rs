//! The call tree of a flame graph as a mathematical value, with what holds
//! of it: how samples are folded in, how totals are recomputed, how small
//! subtrees are pruned.

use crate::numeric::{decimal, lower_hex};
use crate::split::join;
use crate::platform::FrameView;
use crate::sums::{
    lemma_sum_bounds_element, lemma_sum_pointwise, lemma_sum_push, lemma_sum_take_next,
    lemma_sum_update, seq_sum,
};
use vstd::prelude::*;

verus! {

/// The call tree as a mathematical value. Children are kept in the order in
/// which they were first seen, each under the key of its frame.
pub struct FlameTree {
    pub label: Seq<char>,
    pub module: Option<Seq<char>>,
    pub file: Option<Seq<char>>,
    pub line: Option<u32>,
    pub self_samples: nat,
    pub total_samples: nat,
    pub children: Seq<(Seq<char>, FlameTree)>,
}

/// The key under which a frame's node is filed: module and symbol where both
/// are known, the symbol alone, or else the address in hexadecimal.
pub open spec fn frame_key(f: FrameView) -> Seq<char> {
    match f.symbol {
        Some(symbol) => match f.module {
            Some(module) => module + "::"@ + symbol,
            None => symbol,
        },
        None => "0x"@ + lower_hex(f.address as nat),
    }
}

/// The label shown for a frame: its symbol, or else the address in
/// hexadecimal.
pub open spec fn frame_label(f: FrameView) -> Seq<char> {
    match f.symbol {
        Some(symbol) => symbol,
        None => "0x"@ + lower_hex(f.address as nat),
    }
}

/// A node without samples or children.
pub open spec fn leaf(
    label: Seq<char>,
    module: Option<Seq<char>>,
    file: Option<Seq<char>>,
    line: Option<u32>,
) -> FlameTree {
    FlameTree {
        label,
        module,
        file,
        line,
        self_samples: 0,
        total_samples: 0,
        children: Seq::empty(),
    }
}

/// The node that a frame gets when it is first seen.
pub open spec fn fresh_node(f: FrameView) -> FlameTree {
    leaf(frame_label(f), f.module, f.file, f.line)
}

/// The first index below `n` at which `children` holds `key`, or `-1`.
pub open spec fn key_index(children: Seq<(Seq<char>, FlameTree)>, key: Seq<char>, n: int) -> int
    decreases n,
{
    if n <= 0 || n > children.len() {
        -1
    } else if key_index(children, key, n - 1) >= 0 {
        key_index(children, key, n - 1)
    } else if children[n - 1].0 == key {
        n - 1
    } else {
        -1
    }
}

/// The index of the child filed under `key`, or `-1`.
pub open spec fn child_index(t: FlameTree, key: Seq<char>) -> int {
    key_index(t.children, key, t.children.len() as int)
}

/// `t` with `count` more samples ending in it.
pub open spec fn with_samples(t: FlameTree, count: nat) -> FlameTree {
    FlameTree {
        self_samples: t.self_samples + count,
        total_samples: t.total_samples + count,
        ..t
    }
}

/// `t` with the child at index `i` replaced.
pub open spec fn with_child(t: FlameTree, i: int, child: FlameTree) -> FlameTree {
    FlameTree { children: t.children.update(i, (t.children[i].0, child)), ..t }
}

/// `t` with one more child, filed under `key`.
pub open spec fn with_new_child(t: FlameTree, key: Seq<char>, child: FlameTree) -> FlameTree {
    FlameTree { children: t.children.push((key, child)), ..t }
}

/// `t` after one sample has been folded in. `frames` is the part of the
/// sample's stack that lies below `t`, innermost frame first: the walk goes
/// from the last frame to the first, and the node reached at the end gets the
/// sample.
pub open spec fn with_stack(t: FlameTree, frames: Seq<FrameView>) -> FlameTree
    decreases frames.len(),
{
    if frames.len() == 0 {
        with_samples(t, 1)
    } else {
        let f = frames.last();
        let i = child_index(t, frame_key(f));
        if i >= 0 {
            with_child(t, i, with_stack(t.children[i].1, frames.drop_last()))
        } else {
            with_new_child(t, frame_key(f), with_stack(fresh_node(f), frames.drop_last()))
        }
    }
}

/// `t` after the samples `stacks` have been folded in, one after the other.
pub open spec fn with_stacks(t: FlameTree, stacks: Seq<Seq<FrameView>>) -> FlameTree
    decreases stacks.len(),
{
    if stacks.len() == 0 {
        t
    } else {
        with_stack(with_stacks(t, stacks.drop_last()), stacks.last())
    }
}

/// The weights of the children of `t`.
pub open spec fn child_weights(t: FlameTree) -> Seq<nat>
    decreases t, 0int,
{
    Seq::new(
        t.children.len(),
        |i: int|
            if 0 <= i < t.children.len() {
                weight(t.children[i].1)
            } else {
                0
            },
    )
}

/// The number of samples that end in `t` or below it.
pub open spec fn weight(t: FlameTree) -> nat
    decreases t, 1int,
{
    t.self_samples + seq_sum(child_weights(t))
}

/// The recorded totals of a run of children.
pub open spec fn totals_of(children: Seq<(Seq<char>, FlameTree)>) -> Seq<nat> {
    Seq::new(children.len(), |i: int| children[i].1.total_samples)
}

/// The recorded totals of the children of `t`.
pub open spec fn child_totals(t: FlameTree) -> Seq<nat> {
    totals_of(t.children)
}

/// No total has been propagated yet: at every node the total is the node's
/// own count.
pub open spec fn untallied(t: FlameTree) -> bool
    decreases t,
{
    &&& t.total_samples == t.self_samples
    &&& forall|i: int| 0 <= i < t.children.len() ==> untallied(#[trigger] t.children[i].1)
}

/// At every node the total is the node's own count plus the totals of its
/// children.
pub open spec fn consistent(t: FlameTree) -> bool
    decreases t,
{
    &&& t.total_samples == t.self_samples + seq_sum(child_totals(t))
    &&& forall|i: int| 0 <= i < t.children.len() ==> consistent(#[trigger] t.children[i].1)
}

/// `t` with every total recomputed from the counts below it.
pub open spec fn recomputed(t: FlameTree) -> FlameTree
    decreases t,
{
    FlameTree {
        total_samples: weight(t),
        children: Seq::new(
            t.children.len(),
            |i: int|
                if 0 <= i < t.children.len() {
                    (t.children[i].0, recomputed(t.children[i].1))
                } else {
                    arbitrary()
                },
        ),
        ..t
    }
}

/// Whether the count `part` falls below the share `min_basis_points`
/// (hundredths of a percent) of `total`. Nothing is rounded.
pub open spec fn below_share(part: nat, min_basis_points: nat, total: nat) -> bool {
    part * 10000 < min_basis_points * total
}

/// The first `n` of `children`, each pruned, without those whose total
/// after that falls below the share `min_basis_points` of `total`.
pub open spec fn pruned_children(
    children: Seq<(Seq<char>, FlameTree)>,
    min_basis_points: nat,
    total: nat,
    n: int,
) -> Seq<(Seq<char>, FlameTree)>
    decreases children, n,
{
    if n <= 0 || n > children.len() {
        Seq::empty()
    } else {
        let rest = pruned_children(children, min_basis_points, total, n - 1);
        let child = pruned(children[n - 1].1, min_basis_points, total);
        if below_share(child.total_samples, min_basis_points, total) {
            rest
        } else {
            rest.push((children[n - 1].0, child))
        }
    }
}

/// `t` without the subtrees that fall below the share `min_basis_points`
/// of `total`. The children of a node are pruned first; a child stays
/// exactly if its total after that reaches the share; the total of the node
/// is then its own count plus the totals of the children that stay. The
/// root itself always stays.
pub open spec fn pruned(t: FlameTree, min_basis_points: nat, total: nat) -> FlameTree
    decreases t, 0int,
{
    let children = pruned_children(t.children, min_basis_points, total, t.children.len() as int);
    FlameTree { children, total_samples: t.self_samples + seq_sum(totals_of(children)), ..t }
}

/// The synthetic root of every tree.
pub open spec fn root_tree() -> FlameTree {
    leaf("ROOT"@, None, None, None)
}

/// The tree that `stacks` fold into: every sample folded in from the root,
/// totals recomputed, and subtrees below 0.5% of the number of samples
/// pruned.
pub open spec fn built_tree(stacks: Seq<Seq<FrameView>>) -> FlameTree {
    pruned(recomputed(with_stacks(root_tree(), stacks)), 50, stacks.len())
}

/// The stack text of a node: its label, after the stack of its parent and a
/// semicolon where the parent has one.
pub open spec fn stack_text(prefix: Seq<char>, label: Seq<char>) -> Seq<char> {
    if prefix.len() == 0 {
        label
    } else {
        prefix + ";"@ + label
    }
}

/// One line of folded output: the stack, a space, the count.
pub open spec fn folded_line(stack: Seq<char>, count: nat) -> Seq<char> {
    stack + " "@ + decimal(count)
}

/// The folded lines of the first `n` of `children`, whose parent has the
/// stack text `prefix`.
pub open spec fn folded_children(
    children: Seq<(Seq<char>, FlameTree)>,
    prefix: Seq<char>,
    n: int,
) -> Seq<Seq<char>>
    decreases children, n,
{
    if n <= 0 || n > children.len() {
        Seq::empty()
    } else {
        folded_children(children, prefix, n - 1) + folded_node(children[n - 1].1, prefix)
    }
}

/// The folded lines of `t` and its descendants: one line for each node in
/// which samples end, parents before children.
pub open spec fn folded_node(t: FlameTree, prefix: Seq<char>) -> Seq<Seq<char>>
    decreases t, 0int,
{
    let stack = stack_text(prefix, t.label);
    let own = if t.self_samples > 0 {
        seq![folded_line(stack, t.self_samples)]
    } else {
        Seq::empty()
    };
    own + folded_children(t.children, stack, t.children.len() as int)
}

/// The folded lines of a whole tree. The synthetic root is no frame: stacks
/// start at its children.
pub open spec fn folded_lines(root: FlameTree) -> Seq<Seq<char>> {
    folded_children(root.children, Seq::empty(), root.children.len() as int)
}

/// The folded-stack text of a whole tree: its lines, joined by line feeds.
pub open spec fn folded_text(root: FlameTree) -> Seq<char> {
    join(folded_lines(root), "\n"@)
}

/// The nodes among the first `n` of `children` and their descendants in
/// which samples end, parents before children.
pub open spec fn hot_children(children: Seq<(Seq<char>, FlameTree)>, n: int) -> Seq<FlameTree>
    decreases children, n,
{
    if n <= 0 || n > children.len() {
        Seq::empty()
    } else {
        hot_children(children, n - 1) + hot_nodes(children[n - 1].1)
    }
}

/// `t` and its descendants, as far as samples end in them.
pub open spec fn hot_nodes(t: FlameTree) -> Seq<FlameTree>
    decreases t, 0int,
{
    let own = if t.self_samples > 0 {
        seq![t]
    } else {
        Seq::empty()
    };
    own + hot_children(t.children, t.children.len() as int)
}

/// `sorted` with `x` put behind every node whose total is not smaller.
pub open spec fn ranked_insert(sorted: Seq<FlameTree>, x: FlameTree) -> Seq<FlameTree>
    decreases sorted.len(),
{
    if sorted.len() == 0 {
        seq![x]
    } else if sorted.last().total_samples >= x.total_samples {
        sorted.push(x)
    } else {
        ranked_insert(sorted.drop_last(), x).push(sorted.last())
    }
}

/// `nodes` ordered by total, greatest first; nodes of equal total keep their
/// order.
pub open spec fn ranked(nodes: Seq<FlameTree>) -> Seq<FlameTree>
    decreases nodes.len(),
{
    if nodes.len() == 0 {
        Seq::empty()
    } else {
        ranked_insert(ranked(nodes.drop_last()), nodes.last())
    }
}

/// The nodes of a tree below the root in which samples end, ordered by
/// total, greatest first.
pub open spec fn hot_ranking(root: FlameTree) -> Seq<FlameTree> {
    ranked(hot_children(root.children, root.children.len() as int))
}

/// The share that `part` has of `total`, in hundredths of a percent, rounded
/// down and never above `u64::MAX`; 0 where `total` is 0.
pub open spec fn share_of(part: nat, total: nat) -> nat {
    if total == 0 {
        0
    } else if part * 10000 / total > u64::MAX {
        u64::MAX as nat
    } else {
        part * 10000 / total
    }
}

/// What `key_index` returns is the first child with that key.
pub proof fn lemma_key_index(children: Seq<(Seq<char>, FlameTree)>, key: Seq<char>, n: int)
    requires
        0 <= n <= children.len(),
    ensures
        -1 <= key_index(children, key, n) < n,
        key_index(children, key, n) >= 0 ==> children[key_index(children, key, n)].0 == key,
        forall|j: int|
            0 <= j < n && (key_index(children, key, n) < 0 || j < key_index(children, key, n))
                ==> children[j].0 != key,
    decreases n,
{
    if n > 0 {
        lemma_key_index(children, key, n - 1);
    }
}

/// A key found at `i`, with none before it, is what every longer search finds.
pub proof fn lemma_key_index_found(
    children: Seq<(Seq<char>, FlameTree)>,
    key: Seq<char>,
    i: int,
    n: int,
)
    requires
        0 <= i < n <= children.len(),
        key_index(children, key, i) < 0,
        children[i].0 == key,
    ensures
        key_index(children, key, n) == i,
    decreases n,
{
    if n > i + 1 {
        lemma_key_index_found(children, key, i, n - 1);
    }
}

/// The weight of a node is its own count plus the weights of its children.
pub proof fn lemma_weight(t: FlameTree)
    ensures
        weight(t) == t.self_samples + seq_sum(child_weights(t)),
        child_weights(t).len() == t.children.len(),
        forall|i: int|
            0 <= i < t.children.len() ==> #[trigger] child_weights(t)[i] == weight(
                t.children[i].1,
            ),
{
}

/// No child weighs more than its parent, nor does the node's own count.
pub proof fn lemma_child_weight(t: FlameTree, i: int)
    requires
        0 <= i < t.children.len(),
    ensures
        weight(t.children[i].1) + t.self_samples <= weight(t),
{
    lemma_weight(t);
    lemma_sum_bounds_element(child_weights(t), i);
}

/// Replacing a child changes the weight by the difference of the two.
pub proof fn lemma_weight_with_child(t: FlameTree, i: int, child: FlameTree)
    requires
        0 <= i < t.children.len(),
    ensures
        weight(with_child(t, i, child)) + weight(t.children[i].1) == weight(t) + weight(child),
{
    let u = with_child(t, i, child);
    lemma_weight(t);
    lemma_weight(u);
    lemma_sum_update(child_weights(t), i, weight(child));
    assert(child_weights(u) =~= child_weights(t).update(i, weight(child)));
}

/// A new child adds its weight.
pub proof fn lemma_weight_with_new_child(t: FlameTree, key: Seq<char>, child: FlameTree)
    ensures
        weight(with_new_child(t, key, child)) == weight(t) + weight(child),
{
    let u = with_new_child(t, key, child);
    lemma_weight(t);
    lemma_weight(u);
    lemma_sum_push(child_weights(t), weight(child));
    assert(child_weights(u) =~= child_weights(t).push(weight(child)));
}

/// Folding in one sample adds one to the weight and keeps totals unpropagated.
pub proof fn lemma_with_stack(t: FlameTree, frames: Seq<FrameView>)
    requires
        untallied(t),
    ensures
        untallied(with_stack(t, frames)),
        weight(with_stack(t, frames)) == weight(t) + 1,
    decreases frames.len(),
{
    if frames.len() == 0 {
        let u = with_samples(t, 1);
        lemma_weight(t);
        lemma_weight(u);
    } else {
        let f = frames.last();
        let i = child_index(t, frame_key(f));
        lemma_key_index(t.children, frame_key(f), t.children.len() as int);
        if i >= 0 {
            let child = with_stack(t.children[i].1, frames.drop_last());
            lemma_with_stack(t.children[i].1, frames.drop_last());
            lemma_weight_with_child(t, i, child);
        } else {
            let fresh = fresh_node(f);
            let child = with_stack(fresh, frames.drop_last());
            lemma_with_stack(fresh, frames.drop_last());
            lemma_weight(fresh);
            lemma_weight_with_new_child(t, frame_key(f), child);
        }
    }
}

/// Recomputing gives every node the weight of its subtree as its total, and
/// the tree is then consistent: each total is the node's own count plus the
/// totals of its children.
pub proof fn lemma_recomputed(t: FlameTree)
    ensures
        recomputed(t).total_samples == weight(t),
        weight(recomputed(t)) == weight(t),
        consistent(recomputed(t)),
        recomputed(t).children.len() == t.children.len(),
    decreases t,
{
    let r = recomputed(t);
    lemma_weight(t);
    lemma_weight(r);
    assert forall|i: int| 0 <= i < t.children.len() implies weight(#[trigger] r.children[i].1)
        == weight(t.children[i].1) && consistent(r.children[i].1) && r.children[i].1.total_samples
        == weight(t.children[i].1) by {
        lemma_recomputed(t.children[i].1);
    }
    lemma_sum_pointwise(child_weights(r), child_weights(t));
    lemma_sum_pointwise(child_totals(r), child_weights(t));
}

/// The chain that `count` samples with one and the same stack leave below
/// `head` before totals are propagated: one node for each frame, outermost
/// first, and only the innermost one counts the samples.
pub open spec fn raw_chain(head: FlameTree, frames: Seq<FrameView>, count: nat) -> FlameTree
    decreases frames.len(),
{
    if frames.len() == 0 {
        FlameTree { self_samples: count, total_samples: count, children: Seq::empty(), ..head }
    } else {
        FlameTree {
            self_samples: 0,
            total_samples: 0,
            children: seq![
                (
                    frame_key(frames.last()),
                    raw_chain(fresh_node(frames.last()), frames.drop_last(), count),
                ),
            ],
            ..head
        }
    }
}

/// The same chain with totals: every node has the total `count`, and only
/// the innermost one has samples of its own.
pub open spec fn chain(head: FlameTree, frames: Seq<FrameView>, count: nat) -> FlameTree
    decreases frames.len(),
{
    if frames.len() == 0 {
        FlameTree { self_samples: count, total_samples: count, children: Seq::empty(), ..head }
    } else {
        FlameTree {
            self_samples: 0,
            total_samples: count,
            children: seq![
                (
                    frame_key(frames.last()),
                    chain(fresh_node(frames.last()), frames.drop_last(), count),
                ),
            ],
            ..head
        }
    }
}

/// `count` copies of one stack.
pub open spec fn repeated(frames: Seq<FrameView>, count: nat) -> Seq<Seq<FrameView>> {
    Seq::new(count, |i: int| frames)
}

/// Folding a stack into a node without samples or children starts its chain.
proof fn lemma_chain_start(head: FlameTree, frames: Seq<FrameView>)
    requires
        head.self_samples == 0,
        head.total_samples == 0,
        head.children.len() == 0,
    ensures
        with_stack(head, frames) == raw_chain(head, frames, 1),
    decreases frames.len(),
{
    if frames.len() == 0 {
        assert(with_stack(head, frames).children =~= Seq::empty());
    } else {
        let f = frames.last();
        lemma_chain_start(fresh_node(f), frames.drop_last());
        assert(with_stack(head, frames).children =~= raw_chain(head, frames, 1).children);
    }
}

/// Folding the same stack into its chain once more adds one to the count.
proof fn lemma_chain_step(head: FlameTree, frames: Seq<FrameView>, count: nat)
    ensures
        with_stack(raw_chain(head, frames, count), frames) == raw_chain(head, frames, count + 1),
    decreases frames.len(),
{
    let t = raw_chain(head, frames, count);
    if frames.len() > 0 {
        let f = frames.last();
        lemma_chain_step(fresh_node(f), frames.drop_last(), count);
        assert(key_index(t.children, frame_key(f), 0) == -1);
        assert(with_stack(t, frames).children =~= raw_chain(head, frames, count + 1).children);
    }
}

/// Recomputing totals turns the raw chain into the chain with totals, whose
/// every node weighs `count`.
proof fn lemma_chain_recomputed(head: FlameTree, frames: Seq<FrameView>, count: nat)
    ensures
        weight(raw_chain(head, frames, count)) == count,
        recomputed(raw_chain(head, frames, count)) == chain(head, frames, count),
    decreases frames.len(),
{
    let t = raw_chain(head, frames, count);
    lemma_weight(t);
    if frames.len() == 0 {
        assert(recomputed(t).children =~= Seq::empty());
    } else {
        let f = frames.last();
        lemma_chain_recomputed(fresh_node(f), frames.drop_last(), count);
        lemma_sum_push(Seq::<nat>::empty(), count);
        assert(child_weights(t) =~= Seq::<nat>::empty().push(count));
        assert(recomputed(t).children =~= chain(head, frames, count).children);
    }
}

/// Pruning leaves the chain alone as long as its count reaches the share.
proof fn lemma_chain_pruned(
    head: FlameTree,
    frames: Seq<FrameView>,
    count: nat,
    min_basis_points: nat,
    total: nat,
)
    requires
        !below_share(count, min_basis_points, total),
    ensures
        pruned(chain(head, frames, count), min_basis_points, total) == chain(head, frames, count),
    decreases frames.len(),
{
    let t = chain(head, frames, count);
    let p = pruned(t, min_basis_points, total);
    if frames.len() > 0 {
        let f = frames.last();
        lemma_chain_pruned(fresh_node(f), frames.drop_last(), count, min_basis_points, total);
        assert(pruned_children(t.children, min_basis_points, total, 0) =~= Seq::empty());
        assert(p.children =~= t.children);
        assert(totals_of(t.children) =~= Seq::<nat>::empty().push(count));
        lemma_sum_push(Seq::<nat>::empty(), count);
    } else {
        assert(p.children =~= t.children);
        assert(totals_of(t.children) =~= Seq::<nat>::empty());
    }
}

/// Folding `count` copies of one stack into the root leaves the raw chain.
proof fn lemma_repeated_stacks(frames: Seq<FrameView>, count: nat)
    requires
        count >= 1,
    ensures
        with_stacks(root_tree(), repeated(frames, count)) == raw_chain(root_tree(), frames, count),
    decreases count,
{
    let stacks = repeated(frames, count);
    assert(stacks.drop_last() =~= repeated(frames, (count - 1) as nat));
    if count == 1 {
        lemma_chain_start(root_tree(), frames);
    } else {
        lemma_repeated_stacks(frames, (count - 1) as nat);
        lemma_chain_step(root_tree(), frames, (count - 1) as nat);
    }
}

/// `count` samples that all have the same stack build a single chain, one
/// node for each frame: every node has the total `count`, and none but the
/// innermost has samples of its own, which has `count` of them.
pub proof fn lemma_identical_samples_build_chain(frames: Seq<FrameView>, count: nat)
    requires
        count >= 1,
    ensures
        built_tree(repeated(frames, count)) == chain(root_tree(), frames, count),
{
    lemma_repeated_stacks(frames, count);
    lemma_chain_recomputed(root_tree(), frames, count);
    lemma_chain_pruned(root_tree(), frames, count, 50, count);
}

/// What is left of the first `n` children after pruning: each is
/// consistent and reaches the share, with all below it.
proof fn lemma_pruned_children(
    children: Seq<(Seq<char>, FlameTree)>,
    min_basis_points: nat,
    total: nat,
    n: int,
)
    requires
        0 <= n <= children.len(),
    ensures
        forall|i: int|
            0 <= i < pruned_children(children, min_basis_points, total, n).len() ==> {
                let kept = (#[trigger] pruned_children(children, min_basis_points, total, n)[i]).1;
                &&& consistent(kept)
                &&& all_above(kept, min_basis_points, total)
                &&& !below_share(kept.total_samples, min_basis_points, total)
            },
    decreases children, n,
{
    if n > 0 {
        lemma_pruned_children(children, min_basis_points, total, n - 1);
        lemma_pruned(children[n - 1].1, min_basis_points, total);
    }
}

/// After pruning, every total is the node's own count plus the totals of
/// the children that are left, and every node below the root reaches the
/// share. This holds whatever the totals were before.
pub proof fn lemma_pruned(t: FlameTree, min_basis_points: nat, total: nat)
    ensures
        consistent(pruned(t, min_basis_points, total)),
        all_above(pruned(t, min_basis_points, total), min_basis_points, total),
    decreases t, 0int,
{
    let p = pruned(t, min_basis_points, total);
    lemma_pruned_children(t.children, min_basis_points, total, t.children.len() as int);
    assert forall|i: int| 0 <= i < p.children.len() implies consistent(
        (#[trigger] p.children[i]).1,
    ) && !below_share(p.children[i].1.total_samples, min_basis_points, total) && all_above(
        p.children[i].1,
        min_basis_points,
        total,
    ) by {}
}

/// Pruning never raises a total: of the first `n` children of a consistent
/// node, what is left sums to no more than they did.
pub proof fn lemma_pruned_children_sum(
    children: Seq<(Seq<char>, FlameTree)>,
    min_basis_points: nat,
    total: nat,
    n: int,
)
    requires
        0 <= n <= children.len(),
        forall|i: int| 0 <= i < children.len() ==> consistent((#[trigger] children[i]).1),
    ensures
        seq_sum(totals_of(pruned_children(children, min_basis_points, total, n))) <= seq_sum(
            totals_of(children).take(n),
        ),
    decreases children, n,
{
    if n > 0 {
        lemma_pruned_children_sum(children, min_basis_points, total, n - 1);
        let rest = pruned_children(children, min_basis_points, total, n - 1);
        let last = children[n - 1];
        let child = pruned(last.1, min_basis_points, total);
        lemma_pruned_total(last.1, min_basis_points, total);
        lemma_sum_take_next(totals_of(children), n - 1);
        if !below_share(child.total_samples, min_basis_points, total) {
            assert(totals_of(rest.push((last.0, child))) =~= totals_of(rest).push(
                child.total_samples,
            ));
            lemma_sum_push(totals_of(rest), child.total_samples);
        }
    } else {
        assert(totals_of(pruned_children(children, min_basis_points, total, n)) =~= Seq::<
            nat,
        >::empty());
    }
}

/// Pruning never raises the total of a node whose totals were consistent.
pub proof fn lemma_pruned_total(t: FlameTree, min_basis_points: nat, total: nat)
    requires
        consistent(t),
    ensures
        pruned(t, min_basis_points, total).total_samples <= t.total_samples,
    decreases t, 0int,
{
    assert forall|i: int| 0 <= i < t.children.len() implies consistent(
        (#[trigger] t.children[i]).1,
    ) by {}
    lemma_pruned_children_sum(t.children, min_basis_points, total, t.children.len() as int);
    assert(totals_of(t.children).take(t.children.len() as int) =~= totals_of(t.children));
}

/// No node below the root of `t` falls below the share `min_basis_points`
/// of `total`.
pub open spec fn all_above(t: FlameTree, min_basis_points: nat, total: nat) -> bool
    decreases t,
{
    forall|i: int|
        0 <= i < t.children.len() ==> !below_share(
            (#[trigger] t.children[i]).1.total_samples,
            min_basis_points,
            total,
        ) && all_above(t.children[i].1, min_basis_points, total)
}

/// Pruning changes nothing in a tree whose totals are consistent and whose
/// nodes all reach the share.
pub proof fn lemma_pruned_unchanged(t: FlameTree, min_basis_points: nat, total: nat)
    requires
        consistent(t),
        all_above(t, min_basis_points, total),
    ensures
        pruned(t, min_basis_points, total) == t,
    decreases t, 0int,
{
    assert forall|i: int| 0 <= i < t.children.len() implies consistent(
        (#[trigger] t.children[i]).1,
    ) && !below_share(t.children[i].1.total_samples, min_basis_points, total) && all_above(
        t.children[i].1,
        min_basis_points,
        total,
    ) by {}
    lemma_pruned_children_unchanged(t.children, min_basis_points, total, t.children.len() as int);
    assert(t.children.take(t.children.len() as int) =~= t.children);
}

/// Pruning removes none of the first `n` children where they and all below
/// them are consistent and reach the share.
proof fn lemma_pruned_children_unchanged(
    children: Seq<(Seq<char>, FlameTree)>,
    min_basis_points: nat,
    total: nat,
    n: int,
)
    requires
        0 <= n <= children.len(),
        forall|i: int|
            0 <= i < children.len() ==> consistent((#[trigger] children[i]).1) && !below_share(
                children[i].1.total_samples,
                min_basis_points,
                total,
            ) && all_above(children[i].1, min_basis_points, total),
    ensures
        pruned_children(children, min_basis_points, total, n) == children.take(n),
    decreases children, n,
{
    if n > 0 {
        lemma_pruned_children_unchanged(children, min_basis_points, total, n - 1);
        lemma_pruned_unchanged(children[n - 1].1, min_basis_points, total);
        assert(children.take(n) =~= children.take(n - 1).push(children[n - 1]));
    } else {
        assert(children.take(n) =~= Seq::empty());
    }
}

/// In every built tree the total of each node is the node's own count plus
/// the totals of its children, and no node below the root falls below 0.5%
/// of the number of samples.
pub proof fn lemma_built_tree_totals(stacks: Seq<Seq<FrameView>>)
    ensures
        consistent(built_tree(stacks)),
        all_above(built_tree(stacks), 50, stacks.len()),
{
    lemma_pruned(recomputed(with_stacks(root_tree(), stacks)), 50, stacks.len());
}

/// Where `x` goes when it is ranked into `sorted`: behind the last node
/// whose total is not smaller.
pub open spec fn rank_position(sorted: Seq<FlameTree>, x: FlameTree) -> int
    decreases sorted.len(),
{
    if sorted.len() == 0 {
        0
    } else if sorted.last().total_samples >= x.total_samples {
        sorted.len() as int
    } else {
        rank_position(sorted.drop_last(), x)
    }
}

/// `nodes` are in order of total, greatest first.
pub open spec fn descending(nodes: Seq<FlameTree>) -> bool {
    forall|i: int, j: int|
        0 <= i < j < nodes.len() ==> nodes[i].total_samples >= nodes[j].total_samples
}

/// Ranking a node in is inserting it at its rank position.
pub proof fn lemma_ranked_insert(sorted: Seq<FlameTree>, x: FlameTree)
    ensures
        0 <= rank_position(sorted, x) <= sorted.len(),
        ranked_insert(sorted, x) == sorted.insert(rank_position(sorted, x), x),
        forall|k: int|
            rank_position(sorted, x) <= k < sorted.len() ==> sorted[k].total_samples
                < x.total_samples,
        rank_position(sorted, x) > 0 ==> sorted[rank_position(sorted, x) - 1].total_samples
            >= x.total_samples,
    decreases sorted.len(),
{
    if sorted.len() > 0 && sorted.last().total_samples < x.total_samples {
        lemma_ranked_insert(sorted.drop_last(), x);
        let p = rank_position(sorted.drop_last(), x);
        assert forall|k: int| p <= k < sorted.len() implies sorted[k].total_samples
            < x.total_samples by {
            if k < sorted.len() - 1 {
                assert(sorted[k] == sorted.drop_last()[k]);
            }
        }
    }
}

/// A ranking is in order of total, greatest first, and holds exactly the
/// nodes that were ranked, each as often as it was given.
pub proof fn lemma_ranked(nodes: Seq<FlameTree>)
    ensures
        descending(ranked(nodes)),
        ranked(nodes).len() == nodes.len(),
        ranked(nodes).to_multiset() == nodes.to_multiset(),
    decreases nodes.len(),
{
    broadcast use vstd::seq_lib::group_to_multiset_ensures;

    if nodes.len() > 0 {
        let rest = ranked(nodes.drop_last());
        let x = nodes.last();
        lemma_ranked(nodes.drop_last());
        lemma_ranked_insert(rest, x);
        let p = rank_position(rest, x);
        let out = rest.insert(p, x);
        assert(descending(out));
        assert(nodes =~= nodes.drop_last().push(x));
    }
}

/// Two trees agree in label and location.
pub open spec fn same_place(a: FlameTree, b: FlameTree) -> bool {
    a.label == b.label && a.module == b.module && a.file == b.file && a.line == b.line
}

/// Folding in samples adds their number to the weight. It leaves label and
/// location of the node alone, and its own count as well where every stack
/// has a frame.
pub proof fn lemma_with_stacks(t: FlameTree, stacks: Seq<Seq<FrameView>>)
    requires
        untallied(t),
    ensures
        untallied(with_stacks(t, stacks)),
        weight(with_stacks(t, stacks)) == weight(t) + stacks.len(),
        same_place(with_stacks(t, stacks), t),
        (forall|i: int| 0 <= i < stacks.len() ==> (#[trigger] stacks[i]).len() > 0) ==> with_stacks(
            t,
            stacks,
        ).self_samples == t.self_samples,
    decreases stacks.len(),
{
    if stacks.len() > 0 {
        lemma_with_stacks(t, stacks.drop_last());
        lemma_with_stack(with_stacks(t, stacks.drop_last()), stacks.last());
        if forall|i: int| 0 <= i < stacks.len() ==> (#[trigger] stacks[i]).len() > 0 {
            assert(stacks.last().len() > 0);
            assert forall|i: int| 0 <= i < stacks.drop_last().len() implies (
            #[trigger] stacks.drop_last()[i]).len() > 0 by {
                assert(stacks.drop_last()[i] == stacks[i]);
            }
        }
    }
}

/// The root of a built tree is synthetic: it bears the label `ROOT` and no
/// sample ends in it. Its total is the number of samples that are left
/// after pruning, which is the number of all samples where nothing was
/// pruned.
pub proof fn lemma_built_root(stacks: Seq<Seq<FrameView>>)
    requires
        forall|i: int| 0 <= i < stacks.len() ==> (#[trigger] stacks[i]).len() > 0,
    ensures
        same_place(built_tree(stacks), root_tree()),
        built_tree(stacks).self_samples == 0,
        built_tree(stacks).total_samples <= stacks.len(),
        all_above(recomputed(with_stacks(root_tree(), stacks)), 50, stacks.len()) ==> built_tree(
            stacks,
        ).total_samples == stacks.len(),
{
    let full = recomputed(with_stacks(root_tree(), stacks));
    lemma_with_stacks(root_tree(), stacks);
    lemma_weight(root_tree());
    assert(child_weights(root_tree()) =~= Seq::<nat>::empty());
    lemma_recomputed(with_stacks(root_tree(), stacks));
    lemma_pruned_total(full, 50, stacks.len());
    if all_above(full, 50, stacks.len()) {
        lemma_pruned_unchanged(full, 50, stacks.len());
    }
}

/// No two children of a node are filed under the same key, at any depth.
pub open spec fn keyed(t: FlameTree) -> bool
    decreases t,
{
    &&& forall|i: int, j: int|
        0 <= i < j < t.children.len() ==> (#[trigger] t.children[i]).0 != (
        #[trigger] t.children[j]).0
    &&& forall|i: int| 0 <= i < t.children.len() ==> keyed((#[trigger] t.children[i]).1)
}

/// Folding in a sample files no two children under the same key.
pub proof fn lemma_with_stack_keyed(t: FlameTree, frames: Seq<FrameView>)
    requires
        keyed(t),
    ensures
        keyed(with_stack(t, frames)),
    decreases frames.len(),
{
    if frames.len() > 0 {
        let f = frames.last();
        let key = frame_key(f);
        let i = child_index(t, key);
        let after = with_stack(t, frames);
        lemma_key_index(t.children, key, t.children.len() as int);
        if i >= 0 {
            lemma_with_stack_keyed(t.children[i].1, frames.drop_last());
            assert forall|a: int, b: int| 0 <= a < b < after.children.len() implies (
            #[trigger] after.children[a]).0 != (#[trigger] after.children[b]).0 by {
                assert(after.children[a].0 == t.children[a].0);
                assert(after.children[b].0 == t.children[b].0);
            }
            assert forall|a: int| 0 <= a < after.children.len() implies keyed(
                (#[trigger] after.children[a]).1,
            ) by {
                if a != i {
                    assert(after.children[a] == t.children[a]);
                }
            }
        } else {
            lemma_with_stack_keyed(fresh_node(f), frames.drop_last());
            assert forall|a: int, b: int| 0 <= a < b < after.children.len() implies (
            #[trigger] after.children[a]).0 != (#[trigger] after.children[b]).0 by {
                assert(after.children[a] == t.children[a]);
                if b < t.children.len() {
                    assert(after.children[b] == t.children[b]);
                }
            }
            assert forall|a: int| 0 <= a < after.children.len() implies keyed(
                (#[trigger] after.children[a]).1,
            ) by {
                if a < t.children.len() {
                    assert(after.children[a] == t.children[a]);
                }
            }
        }
    }
}

/// Recomputing totals leaves the keys alone.
pub proof fn lemma_recomputed_keyed(t: FlameTree)
    requires
        keyed(t),
    ensures
        keyed(recomputed(t)),
    decreases t,
{
    let r = recomputed(t);
    assert forall|a: int, b: int| 0 <= a < b < r.children.len() implies (
    #[trigger] r.children[a]).0 != (#[trigger] r.children[b]).0 by {
        assert(r.children[a].0 == t.children[a].0);
        assert(r.children[b].0 == t.children[b].0);
    }
    assert forall|a: int| 0 <= a < r.children.len() implies keyed((#[trigger] r.children[a]).1) by {
        lemma_recomputed_keyed(t.children[a].1);
    }
}

/// What pruning leaves of the first `n` children are children that were
/// there, in their order and under their keys, each pruned.
proof fn lemma_pruned_children_keyed(
    children: Seq<(Seq<char>, FlameTree)>,
    min_basis_points: nat,
    total: nat,
    n: int,
)
    requires
        0 <= n <= children.len(),
        forall|i: int, j: int|
            0 <= i < j < children.len() ==> (#[trigger] children[i]).0 != (
            #[trigger] children[j]).0,
        forall|i: int| 0 <= i < children.len() ==> keyed((#[trigger] children[i]).1),
    ensures
        forall|a: int|
            0 <= a < pruned_children(children, min_basis_points, total, n).len() ==> keyed(
                (#[trigger] pruned_children(children, min_basis_points, total, n)[a]).1,
            ) && exists|i: int|
                0 <= i < n && children[i].0 == pruned_children(
                    children,
                    min_basis_points,
                    total,
                    n,
                )[a].0,
        forall|a: int, b: int|
            0 <= a < b < pruned_children(children, min_basis_points, total, n).len() ==> (
            #[trigger] pruned_children(children, min_basis_points, total, n)[a]).0 != (
            #[trigger] pruned_children(children, min_basis_points, total, n)[b]).0,
    decreases children, n,
{
    if n > 0 {
        lemma_pruned_children_keyed(children, min_basis_points, total, n - 1);
        let rest = pruned_children(children, min_basis_points, total, n - 1);
        let all = pruned_children(children, min_basis_points, total, n);
        lemma_pruned_keyed(children[n - 1].1, min_basis_points, total);
        let child = pruned(children[n - 1].1, min_basis_points, total);
        if !below_share(child.total_samples, min_basis_points, total) {
            assert forall|a: int| 0 <= a < all.len() implies keyed((#[trigger] all[a]).1)
                && exists|i: int| 0 <= i < n && children[i].0 == all[a].0 by {
                if a < rest.len() {
                    assert(all[a] == rest[a]);
                    let i = choose|i: int| 0 <= i < n - 1 && children[i].0 == rest[a].0;
                    assert(0 <= i < n && children[i].0 == all[a].0);
                } else {
                    assert(0 <= n - 1 < n && children[n - 1].0 == all[a].0);
                }
            }
            assert forall|a: int, b: int| 0 <= a < b < all.len() implies (#[trigger] all[a]).0 != (
            #[trigger] all[b]).0 by {
                assert(all[a] == rest[a]);
                if b < rest.len() {
                    assert(all[b] == rest[b]);
                } else {
                    let i = choose|i: int| 0 <= i < n - 1 && children[i].0 == rest[a].0;
                    assert(children[i].0 != children[n - 1].0);
                }
            }
        } else {
            assert forall|a: int| 0 <= a < all.len() implies keyed((#[trigger] all[a]).1)
                && exists|i: int| 0 <= i < n && children[i].0 == all[a].0 by {
                let i = choose|i: int| 0 <= i < n - 1 && children[i].0 == rest[a].0;
                assert(0 <= i < n && children[i].0 == all[a].0);
            }
        }
    }
}

/// Pruning files no two children under the same key.
pub proof fn lemma_pruned_keyed(t: FlameTree, min_basis_points: nat, total: nat)
    requires
        keyed(t),
    ensures
        keyed(pruned(t, min_basis_points, total)),
    decreases t, 0int,
{
    lemma_pruned_children_keyed(t.children, min_basis_points, total, t.children.len() as int);
    let kept = pruned_children(t.children, min_basis_points, total, t.children.len() as int);
    assert(pruned(t, min_basis_points, total).children == kept);
    assert forall|a: int| 0 <= a < kept.len() implies keyed((#[trigger] kept[a]).1) by {}
}

/// In every built tree the children of a node are filed under keys of their
/// own: each frame identity has one node below its caller, and no more.
pub proof fn lemma_built_tree_keyed(stacks: Seq<Seq<FrameView>>)
    ensures
        keyed(built_tree(stacks)),
{
    lemma_with_stacks_keyed(root_tree(), stacks);
    lemma_recomputed_keyed(with_stacks(root_tree(), stacks));
    lemma_pruned_keyed(recomputed(with_stacks(root_tree(), stacks)), 50, stacks.len());
}

/// Folding in samples files no two children under the same key.
pub proof fn lemma_with_stacks_keyed(t: FlameTree, stacks: Seq<Seq<FrameView>>)
    requires
        keyed(t),
    ensures
        keyed(with_stacks(t, stacks)),
    decreases stacks.len(),
{
    if stacks.len() > 0 {
        lemma_with_stacks_keyed(t, stacks.drop_last());
        lemma_with_stack_keyed(with_stacks(t, stacks.drop_last()), stacks.last());
    }
}

} // verus!
