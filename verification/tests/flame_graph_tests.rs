use std::time::{Duration, SystemTime};

use reaper_core::flame_graph::{
    address_label, create_frame_key, FlameGraphBuilder, FlameGraphData, FlameGraphNode,
};
use reaper_core::platform::{StackFrame, StackTrace};

fn frame(address: u64, symbol: Option<&str>, module: Option<&str>) -> StackFrame {
    StackFrame {
        address,
        symbol: symbol.map(|s| s.to_string()),
        module: module.map(|s| s.to_string()),
        file: None,
        line: None,
        offset: None,
    }
}

/// A sample whose frames are given from the outermost to the innermost.
fn sample(path: &[&str]) -> StackTrace {
    let mut frames: Vec<StackFrame> = path.iter().map(|s| frame(0, Some(s), None)).collect();
    frames.reverse();
    StackTrace {
        pid: 1,
        thread_id: None,
        timestamp: SystemTime::UNIX_EPOCH,
        frames,
        sample_duration_ms: 10,
        is_complete: true,
    }
}

fn build(samples: Vec<StackTrace>) -> FlameGraphData {
    let mut builder = FlameGraphBuilder::new("p".to_string(), 1);
    for s in samples {
        builder.add_stack_trace(s);
    }
    builder.build()
}

fn check_totals(node: &FlameGraphNode) {
    let below: u64 = node.children.iter().map(|(_, c)| c.total_samples).sum();
    assert_eq!(node.total_samples, node.self_samples + below, "at {}", node.function_name);
    for (_, c) in &node.children {
        check_totals(c);
    }
}

#[test]
fn test_flame_graph_builder() {
    let mut builder = FlameGraphBuilder::new("test_process".to_string(), 1234);

    let stack_trace = StackTrace {
        pid: 1234,
        thread_id: Some(1),
        timestamp: std::time::SystemTime::now(),
        frames: vec![
            StackFrame {
                address: 0x1000,
                symbol: Some("main".to_string()),
                module: Some("test_app".to_string()),
                file: Some("main.c".to_string()),
                line: Some(42),
                offset: None,
            },
            StackFrame {
                address: 0x2000,
                symbol: Some("foo".to_string()),
                module: Some("test_app".to_string()),
                file: Some("foo.c".to_string()),
                line: Some(10),
                offset: None,
            },
        ],
        sample_duration_ms: 100,
        is_complete: true,
    };

    builder.add_stack_trace(stack_trace);
    let flame_graph = builder.build();

    assert_eq!(flame_graph.total_samples, 1);
    assert_eq!(flame_graph.process_name, "test_process");
    assert_eq!(flame_graph.pid, 1234);

    assert!(!flame_graph.root.children.is_empty());
}

#[test]
fn test_walk_goes_from_last_frame_to_first() {
    let mut builder = FlameGraphBuilder::new("test_process".to_string(), 1234);
    builder.add_stack_trace(StackTrace {
        pid: 1234,
        thread_id: Some(1),
        timestamp: SystemTime::UNIX_EPOCH,
        frames: vec![
            StackFrame {
                address: 0x1000,
                symbol: Some("leaf".to_string()),
                module: Some("app".to_string()),
                file: Some("leaf.c".to_string()),
                line: Some(42),
                offset: None,
            },
            StackFrame {
                address: 0x2000,
                symbol: Some("outer".to_string()),
                module: None,
                file: Some("outer.c".to_string()),
                line: Some(10),
                offset: None,
            },
        ],
        sample_duration_ms: 100,
        is_complete: true,
    });
    let graph = builder.build_at(SystemTime::UNIX_EPOCH + Duration::from_secs(5));
    assert_eq!(graph.generated_at, SystemTime::UNIX_EPOCH + Duration::from_secs(5));
    assert_eq!(graph.total_duration_ms, 0);
    assert_eq!(graph.root.function_name, "ROOT");
    assert_eq!(graph.root.self_samples, 0);
    assert_eq!(graph.root.total_samples, 1);
    assert_eq!(graph.root.children.len(), 1);
    let (key, outer) = &graph.root.children[0];
    assert_eq!(key, "outer");
    assert_eq!(outer.function_name, "outer");
    assert_eq!(outer.module_name, None);
    assert_eq!(outer.file_path, Some("outer.c".to_string()));
    assert_eq!(outer.line_number, Some(10));
    assert_eq!(outer.self_samples, 0);
    assert_eq!(outer.total_samples, 1);
    let (key, leaf) = &outer.children[0];
    assert_eq!(key, "app::leaf");
    assert_eq!(leaf.function_name, "leaf");
    assert_eq!(leaf.module_name, Some("app".to_string()));
    assert_eq!(leaf.self_samples, 1);
    assert_eq!(leaf.total_samples, 1);
    assert!(leaf.children.is_empty());
}

#[test]
fn test_empty_sample_is_ignored() {
    let mut builder = FlameGraphBuilder::new("p".to_string(), 7);
    builder.add_stack_trace(StackTrace {
        pid: 7,
        thread_id: None,
        timestamp: SystemTime::UNIX_EPOCH,
        frames: vec![],
        sample_duration_ms: 1,
        is_complete: false,
    });
    let graph = builder.build();
    assert_eq!(graph.total_samples, 0);
    assert!(graph.root.children.is_empty());
    assert_eq!(graph.root.total_samples, 0);
    assert_eq!(graph.export_to_folded_format(), "");
    assert!(graph.get_hot_functions(10).is_empty());
}

#[test]
fn test_identical_samples_build_a_single_chain() {
    let n = 37u64;
    let path = ["a", "b", "c", "d"];
    let graph = build((0..n).map(|_| sample(&path)).collect());
    assert_eq!(graph.total_samples, n);
    let mut node = &graph.root;
    assert_eq!(node.total_samples, n);
    for (depth, name) in path.iter().enumerate() {
        assert_eq!(node.children.len(), 1);
        assert_eq!(node.self_samples, 0);
        node = &node.children[0].1;
        assert_eq!(node.function_name, *name);
        assert_eq!(node.total_samples, n);
        if depth + 1 == path.len() {
            assert_eq!(node.self_samples, n);
            assert!(node.children.is_empty());
        }
    }
    assert_eq!(graph.export_to_folded_format(), "a;b;c;d 37");
}

#[test]
fn test_folded_output_of_two_paths() {
    let graph = build(vec![sample(&["main", "foo"]), sample(&["main", "bar"])]);
    let text = graph.export_to_folded_format();
    let mut lines: Vec<&str> = text.lines().collect();
    lines.sort();
    assert_eq!(lines, vec!["main;bar 1", "main;foo 1"]);
    assert_eq!(text, "main;foo 1\nmain;bar 1");
}

#[test]
fn test_folded_output_counts_inner_nodes_too() {
    let graph = build(vec![
        sample(&["main"]),
        sample(&["main", "foo"]),
        sample(&["main", "foo"]),
        sample(&["other"]),
    ]);
    assert_eq!(graph.export_to_folded_format(), "main 1\nmain;foo 2\nother 1");
    check_totals(&graph.root);
    assert_eq!(graph.root.total_samples, 4);
}

#[test]
fn test_totals_are_consistent_when_nothing_is_pruned() {
    let mut samples = Vec::new();
    for i in 0..50 {
        samples.push(sample(&["main", if i % 2 == 0 { "even" } else { "odd" }, "leaf"]));
        samples.push(sample(&["main"]));
        samples.push(sample(&["idle"]));
    }
    let graph = build(samples);
    assert_eq!(graph.total_samples, 150);
    check_totals(&graph.root);
}

#[test]
fn test_small_subtrees_are_pruned() {
    // 400 samples: 0.5% of them is 2.
    let mut samples: Vec<StackTrace> = (0..397).map(|_| sample(&["hot"])).collect();
    samples.push(sample(&["rare"]));
    samples.push(sample(&["twice"]));
    samples.push(sample(&["twice"]));
    let graph = build(samples);
    assert_eq!(graph.total_samples, 400);
    let names: Vec<&str> = graph.root.children.iter().map(|(k, _)| k.as_str()).collect();
    assert_eq!(names, vec!["hot", "twice"]);
    // The root counts what is left below it.
    assert_eq!(graph.root.total_samples, 399);
    check_totals(&graph.root);
    assert_eq!(graph.export_to_folded_format(), "hot 397\ntwice 2");
}

#[test]
fn test_pruning_share_is_not_rounded() {
    // 399 samples: 0.5% is 1.995, and a single sample falls below it.
    let mut samples: Vec<StackTrace> = (0..398).map(|_| sample(&["hot"])).collect();
    samples.push(sample(&["rare"]));
    let graph = build(samples);
    assert_eq!(graph.root.children.len(), 1);
    assert_eq!(graph.root.children[0].0, "hot");
    assert_eq!(graph.root.total_samples, 398);
    check_totals(&graph.root);

    // 300 samples: 0.5% is 1.5, and a single sample falls below it.
    let mut samples: Vec<StackTrace> = (0..299).map(|_| sample(&["hot"])).collect();
    samples.push(sample(&["rare"]));
    let graph = build(samples);
    assert_eq!(graph.root.children.len(), 1);
    check_totals(&graph.root);

    // 200 samples: 0.5% is 1, which a single sample reaches.
    let mut samples: Vec<StackTrace> = (0..199).map(|_| sample(&["hot"])).collect();
    samples.push(sample(&["rare"]));
    let graph = build(samples);
    assert_eq!(graph.root.children.len(), 2);
    assert_eq!(graph.root.total_samples, 200);
    check_totals(&graph.root);
}

#[test]
fn test_totals_add_up_below_a_pruned_branch() {
    // 399 samples end in b below a, one in c below a; frames are leaf first.
    let mut samples: Vec<StackTrace> = (0..399).map(|_| sample(&["a", "b"])).collect();
    samples.push(sample(&["a", "c"]));
    let graph = build(samples);
    assert_eq!(graph.total_samples, 400);
    assert_eq!(graph.root.children.len(), 1);
    let a = &graph.root.children[0].1;
    assert_eq!(a.function_name, "a");
    assert_eq!(a.children.len(), 1);
    let b = &a.children[0].1;
    assert_eq!(b.function_name, "b");
    assert_eq!((b.self_samples, b.total_samples), (399, 399));
    assert_eq!((a.self_samples, a.total_samples), (0, 399));
    assert_eq!((graph.root.self_samples, graph.root.total_samples), (0, 399));
    check_totals(&graph.root);
}

#[test]
fn test_prune_small_nodes_tests_children_after_pruning_them() {
    // Below the node: keep (6) with the children big (5) and small (1), and
    // drop (3) with three children of 1 each. With a share of 40% of 10 the
    // limit is 4: small goes, keep stays with 5; the children of drop go,
    // which leaves drop with nothing, so it goes too.
    let mut node = FlameGraphNode::new("n".to_string());
    {
        let keep = node.get_or_create_child("keep".to_string(), &frame(0, Some("keep"), None));
        keep.get_or_create_child("big".to_string(), &frame(0, Some("big"), None)).add_sample(5);
        keep.get_or_create_child("small".to_string(), &frame(0, Some("small"), None)).add_sample(1);
    }
    {
        let drop = node.get_or_create_child("drop".to_string(), &frame(0, Some("drop"), None));
        drop.get_or_create_child("x".to_string(), &frame(0, Some("x"), None)).add_sample(1);
        drop.get_or_create_child("y".to_string(), &frame(0, Some("y"), None)).add_sample(1);
        drop.get_or_create_child("z".to_string(), &frame(0, Some("z"), None)).add_sample(1);
    }
    node.update_totals();
    assert_eq!(node.total_samples, 9);
    node.prune_small_nodes(4000, 10);
    assert_eq!(node.children.len(), 1);
    assert_eq!(node.children[0].0, "keep");
    assert_eq!(node.children[0].1.total_samples, 5);
    assert_eq!(node.children[0].1.children.len(), 1);
    assert_eq!(node.children[0].1.children[0].0, "big");
    assert_eq!(node.total_samples, 5);
    check_totals(&node);
}

#[test]
fn test_node_operations() {
    let mut node = FlameGraphNode::new("n".to_string());
    assert_eq!(node.self_samples, 0);
    assert_eq!(node.total_samples, 0);
    assert_eq!(node.module_name, None);
    node.add_sample(3);
    assert_eq!(node.self_samples, 3);
    assert_eq!(node.total_samples, 3);

    let f = frame(0xabc, None, Some("lib"));
    {
        let child = node.get_or_create_child("k".to_string(), &f);
        assert_eq!(child.function_name, "0xabc");
        assert_eq!(child.module_name, Some("lib".to_string()));
        child.add_sample(2);
    }
    {
        let again = node.get_or_create_child("k".to_string(), &frame(1, Some("x"), None));
        assert_eq!(again.function_name, "0xabc");
        assert_eq!(again.self_samples, 2);
    }
    assert_eq!(node.children.len(), 1);
    assert_eq!(node.find_child(&"k".to_string()), Some(0));
    assert_eq!(node.find_child(&"missing".to_string()), None);
    node.update_totals();
    assert_eq!(node.total_samples, 5);
    assert_eq!(node.get_percentage(10), 5000);
    assert_eq!(node.get_percentage(0), 0);
    assert_eq!(node.get_percentage(3), 16666);

    // 30% of 10 is 3: the child with total 2 goes, and its samples with it.
    node.prune_small_nodes(3000, 10);
    assert!(node.children.is_empty());
    assert_eq!(node.total_samples, 3);

    let with = FlameGraphNode::with_location(
        "f".to_string(),
        Some("m".to_string()),
        Some("f.c".to_string()),
        Some(9),
    );
    assert_eq!(with.function_name, "f");
    assert_eq!(with.module_name, Some("m".to_string()));
    assert_eq!(with.file_path, Some("f.c".to_string()));
    assert_eq!(with.line_number, Some(9));
}

#[test]
fn test_frame_keys() {
    assert_eq!(create_frame_key(&frame(0x10, Some("f"), Some("m"))), "m::f");
    assert_eq!(create_frame_key(&frame(0x10, Some("f"), None)), "f");
    assert_eq!(create_frame_key(&frame(0x10, None, Some("m"))), "0x10");
    assert_eq!(create_frame_key(&frame(0, None, None)), "0x0");
    assert_eq!(create_frame_key(&frame(u64::MAX, None, None)), "0xffffffffffffffff");
    assert_eq!(address_label(0xdeadbeef), "0xdeadbeef");
}

#[test]
fn test_hot_functions_are_ranked_by_total() {
    let mut samples = Vec::new();
    for _ in 0..3 {
        samples.push(sample(&["main", "a"]));
    }
    for _ in 0..5 {
        samples.push(sample(&["main", "b"]));
    }
    samples.push(sample(&["main"]));
    samples.push(sample(&["main", "a", "deep"]));
    let graph = build(samples);
    let hot = graph.get_hot_functions(10);
    let names: Vec<(&str, u64, u64)> =
        hot.iter().map(|(n, share)| (n.function_name.as_str(), n.total_samples, *share)).collect();
    assert_eq!(
        names,
        vec![("main", 10, 10000), ("b", 5, 5000), ("a", 4, 4000), ("deep", 1, 1000)]
    );
    let top = graph.get_hot_functions(2);
    assert_eq!(top.len(), 2);
    assert_eq!(top[0].0.function_name, "main");
    assert_eq!(top[1].0.function_name, "b");
    assert!(graph.get_hot_functions(0).is_empty());
}

#[test]
fn test_hot_functions_keep_order_among_equals() {
    let graph = build(vec![sample(&["x"]), sample(&["y"]), sample(&["z"])]);
    let hot = graph.get_hot_functions(5);
    let names: Vec<&str> = hot.iter().map(|(n, _)| n.function_name.as_str()).collect();
    assert_eq!(names, vec!["x", "y", "z"]);
}

#[test]
fn test_structured_export() {
    let graph = build(vec![sample(&["main", "foo"]), sample(&["main"]), sample(&["main"])]);
    let tree = graph.export_tree();
    assert_eq!(tree.name, "ROOT");
    assert_eq!(tree.self_samples, 0);
    assert_eq!(tree.total_samples, 3);
    assert_eq!(tree.percentage, 10000);
    assert_eq!(tree.children.len(), 1);
    let main = &tree.children[0];
    assert_eq!(main.name, "main");
    assert_eq!(main.module, None);
    assert_eq!(main.self_samples, 2);
    assert_eq!(main.total_samples, 3);
    assert_eq!(main.children.len(), 1);
    let foo = &main.children[0];
    assert_eq!(foo.name, "foo");
    assert_eq!(foo.total_samples, 1);
    assert_eq!(foo.percentage, 3333);
    assert!(foo.children.is_empty());
}
