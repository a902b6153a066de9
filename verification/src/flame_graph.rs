//! Flame graphs: stack samples folded into a weighted call tree.
//!
//! Every sample is one path from the synthetic root to a leaf. A node counts
//! the samples that end in it (`self_samples`) and, once totals have been
//! recomputed, all samples that pass through it (`total_samples`).

use crate::flame_tree::{
    child_index, frame_key, fresh_node, key_index, leaf, lemma_child_weight, lemma_key_index,
    lemma_key_index_found, lemma_recomputed, lemma_weight, child_weights, consistent,
    built_tree, keyed, lemma_built_root, lemma_built_tree_keyed, folded_children, folded_node, folded_text, hot_children,
    hot_nodes, hot_ranking, lemma_ranked_insert, lemma_with_stack, all_above, lemma_pruned,
    lemma_pruned_children_sum, lemma_pruned_total, totals_of,
    rank_position, ranked, pruned, pruned_children, recomputed,
    root_tree, share_of, untallied, weight, with_samples, with_stack, with_stacks, FlameTree,
};
use crate::clock::wall_clock_now;
use crate::sums::{lemma_sum_prefix, lemma_sum_push, lemma_sum_take_next, seq_sum};
use crate::numeric::{lower_hex, write_decimal, write_lower_hex};
use crate::split::{join_with, rows};
use crate::platform::{clone_text, frame_views, text_of, FrameView, StackFrame, StackTrace};
use crate::text::{append_chars, chars_of, string_from_chars};
use vstd::prelude::*;

verus! {

/// One node of the call tree. Children are kept in the order in which they
/// were first seen, each under the key of its frame.
#[derive(Debug)]
pub struct FlameGraphNode {
    pub function_name: String,
    pub module_name: Option<String>,
    pub file_path: Option<String>,
    pub line_number: Option<u32>,
    pub self_samples: u64,
    pub total_samples: u64,
    pub children: Vec<(String, FlameGraphNode)>,
}

/// The tree that a node and its descendants stand for.
pub open spec fn tree_of(node: FlameGraphNode) -> FlameTree
    decreases node,
{
    FlameTree {
        label: node.function_name@,
        module: text_of(node.module_name),
        file: text_of(node.file_path),
        line: node.line_number,
        self_samples: node.self_samples as nat,
        total_samples: node.total_samples as nat,
        children: Seq::new(
            node.children@.len(),
            |i: int|
                if 0 <= i < node.children@.len() {
                    (node.children@[i].0@, tree_of(node.children@[i].1))
                } else {
                    arbitrary()
                },
        ),
    }
}

impl View for FlameGraphNode {
    type V = FlameTree;

    open spec fn view(&self) -> FlameTree {
        tree_of(*self)
    }
}

impl Clone for FlameGraphNode {
    fn clone(&self) -> (node: Self)
        ensures
            node@ == self@,
        decreases self,
    {
        let mut children: Vec<(String, FlameGraphNode)> = Vec::new();
        let mut i: usize = 0;
        while i < self.children.len()
            invariant
                i <= self.children@.len(),
                children@.len() == i,
                forall|j: int|
                    0 <= j < i ==> (#[trigger] children@[j]).0@ == self.children@[j].0@
                        && children@[j].1@ == self.children@[j].1@,
            decreases self.children@.len() - i,
        {
            children.push((self.children[i].0.clone(), self.children[i].1.clone()));
            i = i + 1;
        }
        let node = FlameGraphNode {
            function_name: self.function_name.clone(),
            module_name: clone_text(&self.module_name),
            file_path: clone_text(&self.file_path),
            line_number: self.line_number,
            self_samples: self.self_samples,
            total_samples: self.total_samples,
            children,
        };
        assert(node@.children =~= self@.children);
        node
    }
}

/// Two nodes agree in everything but their children.
pub open spec fn same_head(a: FlameGraphNode, b: FlameGraphNode) -> bool {
    &&& a.function_name == b.function_name
    &&& a.module_name == b.module_name
    &&& a.file_path == b.file_path
    &&& a.line_number == b.line_number
    &&& a.self_samples == b.self_samples
    &&& a.total_samples == b.total_samples
}

impl FlameGraphNode {
    /// A node named `function_name`, without location, samples or children.
    pub fn new(function_name: String) -> (node: Self)
        ensures
            node@ == leaf(function_name@, None, None, None),
    {
        let node = FlameGraphNode {
            function_name,
            module_name: None,
            file_path: None,
            line_number: None,
            self_samples: 0,
            total_samples: 0,
            children: Vec::new(),
        };
        assert(node@.children =~= Seq::empty());
        node
    }

    /// A node with its location, without samples or children.
    pub fn with_location(
        function_name: String,
        module_name: Option<String>,
        file_path: Option<String>,
        line_number: Option<u32>,
    ) -> (node: Self)
        ensures
            node@ == leaf(function_name@, text_of(module_name), text_of(file_path), line_number),
    {
        let node = FlameGraphNode {
            function_name,
            module_name,
            file_path,
            line_number,
            self_samples: 0,
            total_samples: 0,
            children: Vec::new(),
        };
        assert(node@.children =~= Seq::empty());
        node
    }

    /// Counts `count` more samples that end in this node.
    pub fn add_sample(&mut self, count: u64)
        requires
            old(self).self_samples + count <= u64::MAX,
            old(self).total_samples + count <= u64::MAX,
        ensures
            final(self)@ == with_samples(old(self)@, count as nat),
    {
        self.self_samples = self.self_samples + count;
        self.total_samples = self.total_samples + count;
    }

    /// The index of the child filed under `key`.
    pub fn find_child(&self, key: &String) -> (found: Option<usize>)
        ensures
            found is Some <==> child_index(self@, key@) >= 0,
            found matches Some(i) ==> i == child_index(self@, key@) && i < self.children@.len(),
    {
        let mut i: usize = 0;
        while i < self.children.len()
            invariant
                i <= self.children@.len(),
                self@.children.len() == self.children@.len(),
                key_index(self@.children, key@, i as int) < 0,
            decreases self.children@.len() - i,
        {
            if self.children[i].0 == *key {
                proof {
                    lemma_key_index_found(
                        self@.children,
                        key@,
                        i as int,
                        self@.children.len() as int,
                    );
                }
                return Some(i);
            }
            i = i + 1;
        }
        None
    }

    /// The index of the child filed under `key`, which is made from `frame`
    /// and appended where there is none yet.
    pub fn child_slot(&mut self, key: String, frame: &StackFrame) -> (slot: usize)
        ensures
            slot < final(self).children@.len(),
            same_head(*old(self), *final(self)),
            child_index(old(self)@, key@) >= 0 ==> {
                &&& slot == child_index(old(self)@, key@)
                &&& final(self).children == old(self).children
            },
            child_index(old(self)@, key@) < 0 ==> {
                &&& slot == old(self).children@.len()
                &&& final(self).children@.len() == slot + 1
                &&& final(self).children@.subrange(0, slot as int) == old(self).children@
                &&& final(self).children@[slot as int].0@ == key@
                &&& final(self).children@[slot as int].1@ == fresh_node(frame@)
            },
    {
        match self.find_child(&key) {
            Some(i) => i,
            None => {
                let label = match &frame.symbol {
                    Some(symbol) => symbol.clone(),
                    None => address_label(frame.address),
                };
                let node = FlameGraphNode::with_location(
                    label,
                    clone_text(&frame.module),
                    clone_text(&frame.file),
                    frame.line,
                );
                let slot = self.children.len();
                self.children.push((key, node));
                slot
            },
        }
    }

    /// The child filed under `key`; where there is none yet, it is made from
    /// `frame` and appended. What the caller then does to the child is done
    /// to the node in that slot.
    pub fn get_or_create_child(&mut self, key: String, frame: &StackFrame) -> (child:
        &mut FlameGraphNode)
        ensures
            same_head(*old(self), *final(self)),
            child_index(old(self)@, key@) >= 0 ==> {
                let i = child_index(old(self)@, key@);
                &&& *child == old(self).children@[i].1
                &&& final(self).children@ == old(self).children@.update(
                    i,
                    (old(self).children@[i].0, *final(child)),
                )
            },
            child_index(old(self)@, key@) < 0 ==> {
                let n = old(self).children@.len() as int;
                &&& child@ == fresh_node(frame@)
                &&& final(self).children@.len() == n + 1
                &&& final(self).children@.subrange(0, n) == old(self).children@
                &&& final(self).children@[n].0@ == key@
                &&& final(self).children@[n].1 == *final(child)
            },
    {
        let slot = self.child_slot(key, frame);
        &mut self.children[slot].1
    }

    /// Folds one sample into the tree below this node. `frames[..depth]` is
    /// the part of the stack that lies below this node, innermost frame first.
    pub fn add_stack(&mut self, frames: &Vec<StackFrame>, depth: usize)
        requires
            depth <= frames@.len(),
            untallied(old(self)@),
            weight(old(self)@) < u64::MAX,
        ensures
            final(self)@ == with_stack(old(self)@, frame_views(frames@).subrange(0, depth as int)),
        decreases depth,
    {
        let ghost below = frame_views(frames@).subrange(0, depth as int);
        proof {
            lemma_weight(self@);
        }
        if depth == 0 {
            self.add_sample(1);
        } else {
            let frame = &frames[depth - 1];
            assert(below.drop_last() =~= frame_views(frames@).subrange(0, depth - 1));
            let key = create_frame_key(frame);
            let ghost found = child_index(old(self)@, key@);
            proof {
                lemma_key_index(old(self)@.children, key@, old(self)@.children.len() as int);
                if found >= 0 {
                    lemma_child_weight(old(self)@, found);
                }
            }
            let slot = self.child_slot(key, frame);
            let ghost mid = *self;
            proof {
                if found < 0 {
                    lemma_weight(fresh_node(frame@));
                }
            }
            self.children[slot].1.add_stack(frames, depth - 1);
            proof {
                let child = with_stack(mid.children@[slot as int].1@, below.drop_last());
                if found >= 0 {
                    assert(self@.children =~= old(self)@.children.update(
                        found,
                        (old(self)@.children[found].0, child),
                    ));
                } else {
                    assert(self@.children =~= old(self)@.children.push((key@, child)));
                }
            }
        }
    }
}

impl FlameGraphNode {
    /// Recomputes every total bottom-up: afterwards each node's total is its
    /// own count plus the totals of its children.
    pub fn update_totals(&mut self)
        requires
            weight(old(self)@) <= u64::MAX,
        ensures
            final(self)@ == recomputed(old(self)@),
            consistent(final(self)@),
        decreases *old(self),
    {
        proof {
            lemma_weight(old(self)@);
            lemma_recomputed(old(self)@);
        }
        let ghost before = old(self)@;
        let mut child_total: u64 = 0;
        let mut i: usize = 0;
        while i < self.children.len()
            invariant
                i <= self.children@.len(),
                before == old(self)@,
                same_head(*old(self), *self),
                self.children@.len() == old(self).children@.len(),
                forall|j: int|
                    0 <= j < i ==> self.children@[j].0 == old(self).children@[j].0 && tree_of(
                        #[trigger] self.children@[j].1,
                    ) == recomputed(before.children[j].1),
                forall|j: int|
                    i <= j < self.children@.len() ==> #[trigger] self.children@[j] == old(
                        self,
                    ).children@[j],
                child_total == seq_sum(child_weights(before).take(i as int)),
                weight(before) <= u64::MAX,
                weight(before) == before.self_samples + seq_sum(child_weights(before)),
                child_weights(before).len() == before.children.len(),
            decreases self.children@.len() - i,
        {
            proof {
                lemma_weight(before);
                lemma_child_weight(before, i as int);
                lemma_recomputed(before.children[i as int].1);
                lemma_sum_take_next(child_weights(before), i as int);
                lemma_sum_prefix(child_weights(before), i + 1);
            }
            self.children[i].1.update_totals();
            child_total = child_total + self.children[i].1.total_samples;
            i = i + 1;
        }
        assert(child_weights(before).take(i as int) =~= child_weights(before));
        self.total_samples = self.self_samples + child_total;
        assert(self@.children =~= recomputed(before).children);
    }

    /// The share of `total` that passed through this node, in hundredths of a
    /// percent; 0 where `total` is 0.
    pub fn get_percentage(&self, total: u64) -> (share: u64)
        ensures
            share == share_of(self.total_samples as nat, total as nat),
    {
        if total == 0 {
            0
        } else {
            let scaled: u128 = (self.total_samples as u128) * 10000 / (total as u128);
            if scaled > u64::MAX as u128 {
                u64::MAX
            } else {
                scaled as u64
            }
        }
    }

    /// Removes every subtree that falls below the share `min_basis_points`
    /// (hundredths of a percent) of `total`, and brings the totals up to
    /// date. The children of a node are pruned before they are tested; a
    /// child stays exactly if its total after that, times 10000, is at least
    /// `min_basis_points` times `total`. The node itself stays, with its own
    /// count plus the totals of the children that stay as its total.
    pub fn prune_small_nodes(&mut self, min_basis_points: u64, total: u64)
        requires
            consistent(old(self)@),
        ensures
            final(self)@ == pruned(old(self)@, min_basis_points as nat, total as nat),
            consistent(final(self)@),
            all_above(final(self)@, min_basis_points as nat, total as nat),
            final(self)@.total_samples <= old(self)@.total_samples,
        decreases *old(self),
    {
        assert(min_basis_points * total <= 0xffff_ffff_ffff_ffff * 0xffff_ffff_ffff_ffff)
            by (nonlinear_arith)
            requires
                0 <= min_basis_points <= 0xffff_ffff_ffff_ffff,
                0 <= total <= 0xffff_ffff_ffff_ffff,
        ;
        let limit: u128 = (min_basis_points as u128) * (total as u128);
        let ghost before = old(self)@;
        let ghost share = min_basis_points as nat;
        let ghost whole = total as nat;
        let ghost done: int = 0;
        let mut sum: u64 = 0;
        let mut i: usize = 0;
        proof {
            lemma_pruned(before, share, whole);
            lemma_pruned_total(before, share, whole);
            assert(totals_of(pruned_children(before.children, share, whole, 0)) =~= Seq::<
                nat,
            >::empty());
        }
        while i < self.children.len()
            invariant
                i <= self.children@.len(),
                0 <= done <= before.children.len(),
                before == old(self)@,
                consistent(before),
                share == min_basis_points as nat,
                whole == total as nat,
                limit == share * whole,
                same_head(*old(self), *self),
                self.children@.len() - i == before.children.len() - done,
                self@.children.subrange(0, i as int) == pruned_children(
                    before.children,
                    share,
                    whole,
                    done,
                ),
                sum == seq_sum(totals_of(pruned_children(before.children, share, whole, done))),
                self.children@.subrange(i as int, self.children@.len() as int) == old(
                    self,
                ).children@.subrange(done, before.children.len() as int),
            decreases before.children.len() - done,
        {
            let ghost entry = *self;
            let ghost kept = pruned_children(before.children, share, whole, done);
            let ghost child = pruned(before.children[done].1, share, whole);
            assert(entry.children@[i as int] == entry.children@.subrange(
                i as int,
                entry.children@.len() as int,
            )[0]);
            proof {
                assert(consistent(before.children[done].1));
                lemma_pruned_children_sum(before.children, share, whole, done + 1);
                lemma_sum_prefix(totals_of(before.children), done + 1);
            }
            self.children[i].1.prune_small_nodes(min_basis_points, total);
            if (self.children[i].1.total_samples as u128) * 10000 >= limit {
                proof {
                    assert(self@.children.subrange(0, i + 1) =~= kept.push(
                        (before.children[done].0, child),
                    ));
                    assert(self.children@.subrange(i + 1, self.children@.len() as int) =~= old(
                        self,
                    ).children@.subrange(done + 1, before.children.len() as int)) by {
                        assert(forall|j: int|
                            i < j < self.children@.len() ==> self.children@[j]
                                == entry.children@.subrange(
                                i as int,
                                entry.children@.len() as int,
                            )[j - i]);
                    }
                    assert(totals_of(kept.push((before.children[done].0, child))) =~= totals_of(
                        kept,
                    ).push(child.total_samples));
                    lemma_sum_push(totals_of(kept), child.total_samples);
                    done = done + 1;
                }
                sum = sum + self.children[i].1.total_samples;
                i = i + 1;
            } else {
                self.children.remove(i);
                proof {
                    assert(self@.children.subrange(0, i as int) =~= kept);
                    assert(self.children@.subrange(i as int, self.children@.len() as int) =~= old(
                        self,
                    ).children@.subrange(done + 1, before.children.len() as int)) by {
                        assert(forall|j: int|
                            i <= j < self.children@.len() ==> self.children@[j]
                                == entry.children@.subrange(
                                i as int,
                                entry.children@.len() as int,
                            )[j - i + 1]);
                    }
                    done = done + 1;
                }
            }
        }
        assert(self@.children =~= self@.children.subrange(0, i as int));
        self.total_samples = self.self_samples + sum;
    }
}

/// The label for a frame without symbol: its address in hexadecimal.
pub fn address_label(address: u64) -> (label: String)
    ensures
        label@ == "0x"@ + lower_hex(address as nat),
{
    let mut out = chars_of("0x");
    append_chars(&mut out, &write_lower_hex(address));
    string_from_chars(&out)
}

/// The key under which a frame's node is filed.
pub fn create_frame_key(frame: &StackFrame) -> (key: String)
    ensures
        key@ == frame_key(frame@),
{
    match &frame.symbol {
        Some(symbol) => match &frame.module {
            Some(module) => {
                let mut out = chars_of(module.as_str());
                append_chars(&mut out, &chars_of("::"));
                append_chars(&mut out, &chars_of(symbol.as_str()));
                string_from_chars(&out)
            },
            None => symbol.clone(),
        },
        None => address_label(frame.address),
    }
}

/// Collects the stack samples of one observation window and folds them into
/// a flame graph.
#[derive(Debug)]
pub struct FlameGraphBuilder {
    root: FlameGraphNode,
    total_samples: u64,
    process_name: String,
    pid: u32,
    samples: Vec<StackTrace>,
}

/// A finished flame graph.
#[derive(Debug)]
pub struct FlameGraphData {
    pub root: FlameGraphNode,
    pub total_samples: u64,
    /// Length of the observation window in milliseconds; the builder leaves
    /// it at 0 for the caller to set.
    pub total_duration_ms: u64,
    pub process_name: String,
    pub pid: u32,
    pub generated_at: std::time::SystemTime,
}

impl Clone for FlameGraphData {
    fn clone(&self) -> (data: Self)
        ensures
            data.root@ == self.root@,
            data.total_samples == self.total_samples,
            data.total_duration_ms == self.total_duration_ms,
            data.process_name@ == self.process_name@,
            data.pid == self.pid,
            data.generated_at == self.generated_at,
    {
        FlameGraphData {
            root: self.root.clone(),
            total_samples: self.total_samples,
            total_duration_ms: self.total_duration_ms,
            process_name: self.process_name.clone(),
            pid: self.pid,
            generated_at: self.generated_at.clone(),
        }
    }
}

/// The stacks of a run of samples, each innermost frame first.
pub open spec fn stacks_of(samples: Seq<StackTrace>) -> Seq<Seq<FrameView>> {
    samples.map_values(|s: StackTrace| frame_views(s.frames@))
}

impl FlameGraphBuilder {
    /// The builder is as `new` and `add_stack_trace` leave it: nothing has
    /// been folded in yet.
    pub closed spec fn well_formed(&self) -> bool {
        &&& self.root@ == root_tree()
        &&& self.total_samples == 0
        &&& forall|i: int|
            0 <= i < self.samples@.len() ==> (#[trigger] self.samples@[i]).frames@.len() > 0
    }

    /// The stacks accepted so far, in the order in which they came.
    pub closed spec fn pending(&self) -> Seq<Seq<FrameView>> {
        stacks_of(self.samples@)
    }

    /// The name of the process that is observed.
    pub closed spec fn name(&self) -> Seq<char> {
        self.process_name@
    }

    /// The id of the process that is observed.
    pub closed spec fn target(&self) -> u32 {
        self.pid
    }

    /// A builder without samples.
    pub fn new(process_name: String, pid: u32) -> (builder: Self)
        ensures
            builder.well_formed(),
            builder.pending() == Seq::<Seq<FrameView>>::empty(),
            builder.name() == process_name@,
            builder.target() == pid,
    {
        let builder = FlameGraphBuilder {
            root: FlameGraphNode::new("ROOT".to_owned()),
            total_samples: 0,
            process_name,
            pid,
            samples: Vec::new(),
        };
        builder
    }

    /// Accepts one sample. A sample without frames is ignored.
    pub fn add_stack_trace(&mut self, stack_trace: StackTrace)
        requires
            old(self).well_formed(),
        ensures
            final(self).well_formed(),
            final(self).name() == old(self).name(),
            final(self).target() == old(self).target(),
            stack_trace.frames@.len() == 0 ==> final(self).pending() == old(self).pending(),
            stack_trace.frames@.len() > 0 ==> final(self).pending() == old(self).pending().push(
                frame_views(stack_trace.frames@),
            ),
    {
        if stack_trace.frames.len() == 0 {
            return ;
        }
        self.samples.push(stack_trace);
    }

    /// Folds one sample into `root` and counts it. A sample without frames
    /// leaves both as they are.
    fn process_stack_trace(root: &mut FlameGraphNode, total_samples: &mut u64, trace: &StackTrace)
        requires
            untallied(old(root)@),
            weight(old(root)@) < u64::MAX,
            *old(total_samples) < u64::MAX,
        ensures
            trace.frames@.len() == 0 ==> *final(root) == *old(root) && *final(total_samples)
                == *old(total_samples),
            trace.frames@.len() > 0 ==> final(root)@ == with_stack(
                old(root)@,
                frame_views(trace.frames@),
            ) && *final(total_samples) == *old(total_samples) + 1,
    {
        if trace.frames.len() == 0 {
            return ;
        }
        assert(frame_views(trace.frames@).subrange(0, trace.frames@.len() as int) =~= frame_views(
            trace.frames@,
        ));
        root.add_stack(&trace.frames, trace.frames.len());
        *total_samples = *total_samples + 1;
    }

    /// Folds all accepted samples into a flame graph, stamped with the
    /// current time.
    pub fn build(self) -> (data: FlameGraphData)
        requires
            self.well_formed(),
        ensures
            data.root@ == built_tree(self.pending()),
            data.root@.label == "ROOT"@,
            data.root@.self_samples == 0,
            consistent(data.root@),
            all_above(data.root@, 50, self.pending().len()),
            keyed(data.root@),
            data.total_samples == self.pending().len(),
            data.total_duration_ms == 0,
            data.process_name@ == self.name(),
            data.pid == self.target(),
    {
        self.build_at(wall_clock_now())
    }

    /// Folds all accepted samples into a flame graph: every sample is folded
    /// in from the root, totals are recomputed bottom-up, and subtrees below
    /// 0.5% of the number of samples are pruned.
    pub fn build_at(self, generated_at: std::time::SystemTime) -> (data: FlameGraphData)
        requires
            self.well_formed(),
        ensures
            data.root@ == built_tree(self.pending()),
            data.root@.label == "ROOT"@,
            data.root@.self_samples == 0,
            consistent(data.root@),
            all_above(data.root@, 50, self.pending().len()),
            keyed(data.root@),
            data.total_samples == self.pending().len(),
            data.total_duration_ms == 0,
            data.process_name@ == self.name(),
            data.pid == self.target(),
            data.generated_at == generated_at,
    {
        let ghost stacks = self.pending();
        proof {
            assert forall|k: int| 0 <= k < stacks.len() implies (#[trigger] stacks[k]).len()
                > 0 by {
                assert(stacks[k] == frame_views(self.samples@[k].frames@));
            }
            lemma_built_root(stacks);
            lemma_built_tree_keyed(stacks);
        }
        let FlameGraphBuilder { root, total_samples, process_name, pid, samples } = self;
        let mut root = root;
        let mut total_samples = total_samples;
        let mut i: usize = 0;
        proof {
            lemma_weight(root@);
        }
        while i < samples.len()
            invariant
                i <= samples@.len(),
                stacks == stacks_of(samples@),
                forall|k: int|
                    0 <= k < samples@.len() ==> (#[trigger] samples@[k]).frames@.len() > 0,
                root@ == with_stacks(root_tree(), stacks.take(i as int)),
                untallied(root@),
                weight(root@) == i,
                total_samples == i,
            decreases samples@.len() - i,
        {
            proof {
                lemma_with_stack(root@, stacks[i as int]);
                assert(stacks.take(i + 1).drop_last() =~= stacks.take(i as int));
            }
            Self::process_stack_trace(&mut root, &mut total_samples, &samples[i]);
            i = i + 1;
        }
        assert(stacks.take(i as int) =~= stacks);
        root.update_totals();
        root.prune_small_nodes(50, total_samples);
        FlameGraphData {
            root,
            total_samples,
            total_duration_ms: 0,
            process_name,
            pid,
            generated_at,
        }
    }
}

/// The trees that a run of node references stands for.
pub open spec fn trees_of(nodes: Seq<&FlameGraphNode>) -> Seq<FlameTree> {
    nodes.map_values(|n: &FlameGraphNode| n@)
}

/// One node of the structured export, with its share of all samples.
#[derive(Debug)]
pub struct FlameNodeExport {
    pub name: String,
    pub module: Option<String>,
    pub file: Option<String>,
    pub line: Option<u32>,
    pub self_samples: u64,
    pub total_samples: u64,
    /// Share of all samples that passed through the node, in hundredths of a
    /// percent.
    pub percentage: u64,
    pub children: Vec<FlameNodeExport>,
}

/// The structured export of `t`, in a graph of `total` samples.
pub open spec fn exported(t: FlameTree, total: nat) -> ExportTree
    decreases t,
{
    ExportTree {
        name: t.label,
        module: t.module,
        file: t.file,
        line: t.line,
        self_samples: t.self_samples,
        total_samples: t.total_samples,
        percentage: share_of(t.total_samples, total),
        children: Seq::new(
            t.children.len(),
            |i: int|
                if 0 <= i < t.children.len() {
                    exported(t.children[i].1, total)
                } else {
                    arbitrary()
                },
        ),
    }
}

/// The structured export as a mathematical value.
pub struct ExportTree {
    pub name: Seq<char>,
    pub module: Option<Seq<char>>,
    pub file: Option<Seq<char>>,
    pub line: Option<u32>,
    pub self_samples: nat,
    pub total_samples: nat,
    pub percentage: nat,
    pub children: Seq<ExportTree>,
}

/// The export tree that an exported node and its descendants stand for.
pub open spec fn export_tree_of(node: FlameNodeExport) -> ExportTree
    decreases node,
{
    ExportTree {
        name: node.name@,
        module: text_of(node.module),
        file: text_of(node.file),
        line: node.line,
        self_samples: node.self_samples as nat,
        total_samples: node.total_samples as nat,
        percentage: node.percentage as nat,
        children: Seq::new(
            node.children@.len(),
            |i: int|
                if 0 <= i < node.children@.len() {
                    export_tree_of(node.children@[i])
                } else {
                    arbitrary()
                },
        ),
    }
}

impl View for FlameNodeExport {
    type V = ExportTree;

    open spec fn view(&self) -> ExportTree {
        export_tree_of(*self)
    }
}

impl FlameGraphData {
    /// The folded-stack text of the graph: for each node in which samples
    /// end, one line that holds the labels from the outermost frame to the
    /// node, joined by semicolons, then a space and the node's own count.
    /// Lines are separated by line feeds.
    pub fn export_to_folded_format(&self) -> (text: String)
        ensures
            text@ == folded_text(self.root@),
    {
        let mut lines: Vec<Vec<char>> = Vec::new();
        let top: Vec<char> = Vec::new();
        let mut i: usize = 0;
        while i < self.root.children.len()
            invariant
                i <= self.root.children@.len(),
                top@ == Seq::<char>::empty(),
                rows(lines@) == folded_children(self.root@.children, Seq::empty(), i as int),
            decreases self.root.children@.len() - i,
        {
            Self::export_node_folded(&self.root.children[i].1, &top, &mut lines);
            i = i + 1;
        }
        let text = join_with(&lines, &chars_of("\n"));
        string_from_chars(&text)
    }

    /// Appends the folded lines of `node` and its descendants to `lines`;
    /// `stack` is the stack text of the node's parent.
    pub fn export_node_folded(node: &FlameGraphNode, stack: &Vec<char>, lines: &mut Vec<Vec<char>>)
        ensures
            rows(final(lines)@) == rows(old(lines)@) + folded_node(node@, stack@),
        decreases node,
    {
        let mut current: Vec<char> = Vec::new();
        if stack.len() > 0 {
            append_chars(&mut current, stack);
            append_chars(&mut current, &chars_of(";"));
        }
        append_chars(&mut current, &chars_of(node.function_name.as_str()));
        if node.self_samples > 0 {
            let mut line: Vec<char> = Vec::new();
            append_chars(&mut line, &current);
            append_chars(&mut line, &chars_of(" "));
            append_chars(&mut line, &write_decimal(node.self_samples));
            lines.push(line);
        }
        let ghost own = rows(lines@);
        let mut i: usize = 0;
        while i < node.children.len()
            invariant
                i <= node.children@.len(),
                rows(lines@) == own + folded_children(node@.children, current@, i as int),
            decreases node.children@.len() - i,
        {
            Self::export_node_folded(&node.children[i].1, &current, lines);
            i = i + 1;
        }
    }

    /// The structured export of the graph: one object for each node, with
    /// the node's share of all samples.
    pub fn export_tree(&self) -> (tree: FlameNodeExport)
        ensures
            tree@ == exported(self.root@, self.total_samples as nat),
    {
        Self::export_node(&self.root, self.total_samples)
    }

    /// The structured export of `node` in a graph of `total` samples.
    pub fn export_node(node: &FlameGraphNode, total: u64) -> (tree: FlameNodeExport)
        ensures
            tree@ == exported(node@, total as nat),
        decreases node,
    {
        let mut children: Vec<FlameNodeExport> = Vec::new();
        let mut i: usize = 0;
        while i < node.children.len()
            invariant
                i <= node.children@.len(),
                children@.len() == i,
                forall|j: int|
                    0 <= j < i ==> (#[trigger] children@[j])@ == exported(
                        node@.children[j].1,
                        total as nat,
                    ),
            decreases node.children@.len() - i,
        {
            children.push(Self::export_node(&node.children[i].1, total));
            i = i + 1;
        }
        let tree = FlameNodeExport {
            name: node.function_name.clone(),
            module: clone_text(&node.module_name),
            file: clone_text(&node.file_path),
            line: node.line_number,
            self_samples: node.self_samples,
            total_samples: node.total_samples,
            percentage: node.get_percentage(total),
            children,
        };
        assert(tree@.children =~= exported(node@, total as nat).children);
        tree
    }

    /// The nodes below the root in which samples end, ordered by total,
    /// greatest first, and cut off after `limit` of them; each with its share
    /// of all samples in hundredths of a percent.
    pub fn get_hot_functions(&self, limit: usize) -> (hot: Vec<(&FlameGraphNode, u64)>)
        ensures
            hot@.len() == if limit <= hot_ranking(self.root@).len() {
                limit as int
            } else {
                hot_ranking(self.root@).len() as int
            },
            forall|i: int|
                0 <= i < hot@.len() ==> (#[trigger] hot@[i]).0@ == hot_ranking(self.root@)[i]
                    && hot@[i].1 == share_of(hot@[i].0@.total_samples, self.total_samples as nat),
    {
        let mut found: Vec<&FlameGraphNode> = Vec::new();
        let mut i: usize = 0;
        while i < self.root.children.len()
            invariant
                i <= self.root.children@.len(),
                trees_of(found@) == hot_children(self.root@.children, i as int),
            decreases self.root.children@.len() - i,
        {
            Self::collect_hot_functions(&self.root.children[i].1, &mut found);
            i = i + 1;
        }
        let ghost candidates = trees_of(found@);
        let mut sorted: Vec<&FlameGraphNode> = Vec::new();
        let mut k: usize = 0;
        while k < found.len()
            invariant
                k <= found@.len(),
                candidates == trees_of(found@),
                sorted@.len() == k,
                trees_of(sorted@) == ranked(candidates.take(k as int)),
            decreases found@.len() - k,
        {
            let node = found[k];
            let ghost rest = trees_of(sorted@);
            let mut position: usize = sorted.len();
            assert(rest.take(position as int) =~= rest);
            while position > 0 && sorted[position - 1].total_samples < node.total_samples
                invariant
                    position <= sorted@.len(),
                    rest == trees_of(sorted@),
                    rank_position(rest, node@) == rank_position(rest.take(position as int), node@),
                decreases position,
            {
                assert(rest.take(position as int).drop_last() =~= rest.take(position - 1));
                position = position - 1;
            }
            proof {
                lemma_ranked_insert(rest, node@);
                assert(candidates.take(k + 1).drop_last() =~= candidates.take(k as int));
            }
            sorted.insert(position, node);
            k = k + 1;
        }
        assert(candidates.take(k as int) =~= candidates);
        let mut hot: Vec<(&FlameGraphNode, u64)> = Vec::new();
        let mut n: usize = 0;
        while n < sorted.len() && n < limit
            invariant
                n <= sorted@.len(),
                n <= limit,
                hot@.len() == n,
                trees_of(sorted@) == hot_ranking(self.root@),
                forall|j: int|
                    0 <= j < n ==> (#[trigger] hot@[j]).0@ == hot_ranking(self.root@)[j]
                        && hot@[j].1 == share_of(
                        hot@[j].0@.total_samples,
                        self.total_samples as nat,
                    ),
            decreases sorted@.len() - n,
        {
            let node = sorted[n];
            hot.push((node, node.get_percentage(self.total_samples)));
            n = n + 1;
        }
        hot
    }

    /// Appends `node` and its descendants to `found`, as far as samples end
    /// in them, parents before children.
    pub fn collect_hot_functions<'a>(node: &'a FlameGraphNode, found: &mut Vec<&'a FlameGraphNode>)
        ensures
            trees_of(final(found)@) == trees_of(old(found)@) + hot_nodes(node@),
        decreases node,
    {
        if node.self_samples > 0 {
            found.push(node);
        }
        let ghost own = trees_of(found@);
        let mut i: usize = 0;
        while i < node.children.len()
            invariant
                i <= node.children@.len(),
                trees_of(found@) == own + hot_children(node@.children, i as int),
            decreases node.children@.len() - i,
        {
            Self::collect_hot_functions(&node.children[i].1, found);
            i = i + 1;
        }
    }
}

} // verus!
