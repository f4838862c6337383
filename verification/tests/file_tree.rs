use steam_cloud_files::file_tree::{get_file_name, parse_file_path, FileTree, FileTreeNode};
use steam_cloud_files::steam_api::CloudFile;

fn create_test_file(name: &str) -> CloudFile {
    CloudFile {
        name: name.to_string(),
        size: 1024,
        timestamp: 1_700_000_000,
        is_persisted: true,
        exists: true,
        root: 0,
        root_description: String::new(),
        conflict: false,
    }
}

#[test]
fn test_parse_file_path() {
    let file1 = create_test_file("file.txt");
    assert_eq!(parse_file_path(&file1), "");

    let file2 = create_test_file("saves/file.txt");
    assert_eq!(parse_file_path(&file2), "saves");

    let file3 = create_test_file("saves/manual/file.txt");
    assert_eq!(parse_file_path(&file3), "saves/manual");
}

#[test]
fn test_get_file_name() {
    let file1 = create_test_file("file.txt");
    assert_eq!(get_file_name(&file1), "file.txt");

    let file2 = create_test_file("saves/file.txt");
    assert_eq!(get_file_name(&file2), "file.txt");

    let file3 = create_test_file("saves/manual/file.txt");
    assert_eq!(get_file_name(&file3), "file.txt");
}

#[test]
fn test_build_tree_simple() {
    let files = vec![create_test_file("file1.txt"), create_test_file("file2.txt")];

    let tree = FileTree::new(&files);
    let root = tree.root();

    assert!(root.is_folder());
    assert_eq!(root.children().unwrap().len(), 2);
}

#[test]
fn test_build_tree_with_folders() {
    let files = vec![
        create_test_file("saves/file1.txt"),
        create_test_file("saves/file2.txt"),
        create_test_file("config/settings.ini"),
    ];

    let tree = FileTree::new(&files);
    let root = tree.root();

    assert_eq!(root.children().unwrap().len(), 2);

    let saves_folder = root
        .children()
        .unwrap()
        .iter()
        .find(|c| c.name() == "saves")
        .unwrap();
    assert!(saves_folder.is_folder());
    assert_eq!(saves_folder.children().unwrap().len(), 2);
}

#[test]
fn test_folder_sorting() {
    let files = vec![
        create_test_file("file.txt"),
        create_test_file("saves/save1.txt"),
        create_test_file("config/config.ini"),
    ];

    let tree = FileTree::new(&files);
    let root = tree.root();
    let children = root.children().unwrap();

    assert!(children[0].is_folder());
    assert!(children[1].is_folder());
    assert!(!children[2].is_folder());
}

#[test]
fn test_collect_file_indices() {
    let files = vec![
        create_test_file("saves/file1.txt"),
        create_test_file("saves/file2.txt"),
        create_test_file("file3.txt"),
    ];

    let tree = FileTree::new(&files);
    let root = tree.root();

    let mut indices = Vec::new();
    root.collect_file_indices(&mut indices);

    assert_eq!(indices.len(), 3);
    assert!(indices.contains(&0));
    assert!(indices.contains(&1));
    assert!(indices.contains(&2));
}

#[test]
fn test_nested_folders() {
    let files = vec![create_test_file("a/b/c/file.txt")];

    let tree = FileTree::new(&files);
    let root = tree.root();

    let a = root.children().unwrap().iter().find(|c| c.name() == "a").unwrap();
    assert!(a.is_folder());

    let b = a.children().unwrap().iter().find(|c| c.name() == "b").unwrap();
    assert!(b.is_folder());

    let c = b.children().unwrap().iter().find(|c| c.name() == "c").unwrap();
    assert!(c.is_folder());

    assert_eq!(c.children().unwrap().len(), 1);
}

#[test]
fn tree_orders_names_and_counts_files() {
    let files = vec![
        create_test_file("zeta.txt"),
        create_test_file("b/two.txt"),
        create_test_file("alpha.txt"),
        create_test_file("a/one.txt"),
        create_test_file("a/deep/three.txt"),
    ];
    let tree = FileTree::new(&files);
    let root = tree.root();
    let names: Vec<&str> = root.children().unwrap().iter().map(|c| c.name()).collect();
    assert_eq!(names, vec!["a", "b", "alpha.txt", "zeta.txt"]);
    match root {
        FileTreeNode::Folder { name, path, file_count, total_size, .. } => {
            assert_eq!(name, "Root");
            assert_eq!(path, "");
            assert_eq!(*file_count, 5);
            assert_eq!(*total_size, 5 * 1024);
        }
        FileTreeNode::File { .. } => panic!("the top of the tree is a folder"),
    }
    let a = &root.children().unwrap()[0];
    match a {
        FileTreeNode::Folder { path, file_count, total_size, children, .. } => {
            assert_eq!(path, "a");
            assert_eq!(*file_count, 2);
            assert_eq!(*total_size, 2048);
            match &children[0] {
                FileTreeNode::Folder { path, .. } => assert_eq!(path, "a/deep"),
                FileTreeNode::File { .. } => panic!("folders come first"),
            }
        }
        FileTreeNode::File { .. } => panic!("a is a folder"),
    }
    let mut indices = Vec::new();
    root.collect_file_indices(&mut indices);
    assert_eq!(indices, vec![4, 3, 1, 2, 0]);
}

#[test]
fn leading_and_doubled_slashes_make_no_empty_folders() {
    let files = vec![create_test_file("/top.txt"), create_test_file("x//y.txt")];
    let tree = FileTree::new(&files);
    let root = tree.root();
    let children = root.children().unwrap();
    assert_eq!(children.len(), 2);
    assert_eq!(children[0].name(), "x");
    assert_eq!(children[1].name(), "top.txt");
    assert_eq!(children[0].children().unwrap()[0].name(), "y.txt");
}
