use termusic::library::{FsNode, Node, build_tree, dir_children, find_route, node_by_route,
    refocus_id, sort_fs_nodes};

fn file(path: &str, name: &str) -> FsNode {
    FsNode {
        path: String::from(path),
        name: String::from(name),
        is_dir: false,
        children: Vec::new(),
    }
}

fn dir(path: &str, name: &str, children: Vec<FsNode>) -> FsNode {
    FsNode { path: String::from(path), name: String::from(name), is_dir: true, children }
}

fn child_names(n: &Node) -> Vec<String> {
    n.children.iter().map(|c| c.name.clone()).collect()
}

fn depth3() -> FsNode {
    dir(
        "/m",
        "m",
        vec![dir(
            "/m/a",
            "a",
            vec![dir("/m/a/b", "b", vec![file("/m/a/b/c.mp3", "c.mp3")])],
        )],
    )
}

#[test]
fn scan_with_smaller_bound_omits_the_deepest_level() {
    // three levels below the root; a bound of two omits the deepest
    let full = build_tree(depth3(), 3);
    let c = &full.children[0].children[0].children[0];
    assert_eq!(c.name, "c.mp3");

    let bounded = build_tree(depth3(), 2);
    let b = &bounded.children[0].children[0];
    assert_eq!(b.name, "b");
    assert!(b.children.is_empty());
}

#[test]
fn scan_with_zero_depth_keeps_only_the_root() {
    let t = build_tree(depth3(), 0);
    assert_eq!(t.id, "/m");
    assert!(t.children.is_empty());
}

#[test]
fn sibling_sort_is_case_folded_and_reproducible() {
    let mixed = || vec![
        file("/m/1", "\u{4e66}"),
        file("/m/2", "apple"),
        file("/m/3", "Zebra"),
    ];
    let sorted = sort_fs_nodes(mixed());
    let names: Vec<&str> = sorted.iter().map(|e| e.name.as_str()).collect();
    assert_eq!(names, vec!["apple", "Zebra", "\u{4e66}"]);

    // an unchanged listing sorts the same way on every scan
    let t1 = build_tree(dir("/m", "m", mixed()), 1);
    let t2 = build_tree(dir("/m", "m", mixed()), 1);
    assert_eq!(child_names(&t1), child_names(&t2));
    assert_eq!(child_names(&t1), vec!["apple", "Zebra", "\u{4e66}"]);
}

#[test]
fn sibling_sort_is_stable_for_equal_keys() {
    let entries = vec![
        file("/m/1", "Song"),
        file("/m/2", "apple"),
        file("/m/3", "sonG"),
        file("/m/4", "song"),
    ];
    let sorted = sort_fs_nodes(entries);
    let paths: Vec<&str> = sorted.iter().map(|e| e.path.as_str()).collect();
    // the three equal keys keep their listing order
    assert_eq!(paths, vec!["/m/2", "/m/1", "/m/3", "/m/4"]);
}

#[test]
fn dotfiles_are_filtered_out_of_the_tree() {
    let t = build_tree(
        dir("/m", "m", vec![file("/m/.hidden", ".hidden"), file("/m/a.mp3", "a.mp3")]),
        1,
    );
    assert_eq!(child_names(&t), vec!["a.mp3"]);
}

#[test]
fn routes_resolve_and_search_round_trips() {
    let t = build_tree(depth3(), 3);
    let route = find_route(&t, "/m/a/b/c.mp3").unwrap();
    assert_eq!(route, vec![0, 0, 0]);
    let node = node_by_route(&t, &route).unwrap();
    assert_eq!(node.id, "/m/a/b/c.mp3");
    assert!(find_route(&t, "/nowhere").is_none());
    assert!(node_by_route(&t, &vec![0, 5]).is_none());
}

#[test]
fn refocus_lands_on_the_node_now_occupying_the_index() {
    // root/[a, b, c]; b (index 1) was deleted: c now occupies index 1
    let before = dir(
        "/m",
        "m",
        vec![file("/m/a", "a"), file("/m/b", "b"), file("/m/c", "c")],
    );
    let old_tree = build_tree(before, 1);
    let route = find_route(&old_tree, "/m/b").unwrap();
    assert_eq!(route, vec![1]);
    let after = dir("/m", "m", vec![file("/m/a", "a"), file("/m/c", "c")]);
    let new_tree = build_tree(after, 1);
    assert_eq!(refocus_id(&new_tree, &route).unwrap(), "/m/c");
}

#[test]
fn refocus_decrements_when_the_last_spot_vanished() {
    // root/[a, b]; b deleted: index 1 is gone, the sibling a is chosen
    let after = dir("/m", "m", vec![file("/m/a", "a")]);
    let new_tree = build_tree(after, 1);
    assert_eq!(refocus_id(&new_tree, &vec![1]).unwrap(), "/m/a");
}

#[test]
fn refocus_falls_back_to_the_parent_for_a_sole_child() {
    // root/[b]; b deleted: nothing at index 0 remains, the parent wins
    let after = dir("/m", "m", Vec::new());
    let new_tree = build_tree(after, 1);
    assert_eq!(refocus_id(&new_tree, &vec![0]).unwrap(), "/m");
}

#[test]
fn dir_children_lists_sorted_files_only() {
    let listing = dir(
        "/m",
        "m",
        vec![
            dir("/m/sub", "sub", Vec::new()),
            file("/m/b.mp3", "b.mp3"),
            file("/m/A.mp3", "A.mp3"),
        ],
    );
    let children = dir_children(listing);
    assert_eq!(children, vec![String::from("/m/A.mp3"), String::from("/m/b.mp3")]);
}
