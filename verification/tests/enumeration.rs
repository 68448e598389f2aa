use shardpack::combine_task_results;
use shardpack::enumerate::plan_shards;
use shardpack::progress::ProgressReader;
use shardpack::resolve_input;

#[test]
fn plan_keeps_only_shard_names_and_sorts() {
    let names = vec![
        String::from("00000002.tar.zstd"),
        String::from("notes.txt"),
        String::from("00000000.tar.zstd"),
        String::from("archive.tar.gz"),
        String::from("00000001.tar.zstd"),
        String::from("0000000x.tar.zstd"),
    ];
    assert_eq!(plan_shards(&names), vec![0u64, 1, 2]);
}

#[test]
fn plan_of_empty_directory_is_empty() {
    let names: Vec<String> = Vec::new();
    assert_eq!(plan_shards(&names), Vec::<u64>::new());
}

#[test]
fn plan_order_is_independent_of_listing_order() {
    let a = vec![
        String::from("00000009.tar.zstd"),
        String::from("00000003.tar.zstd"),
        String::from("00000007.tar.zstd"),
    ];
    let b = vec![
        String::from("00000003.tar.zstd"),
        String::from("00000007.tar.zstd"),
        String::from("00000009.tar.zstd"),
    ];
    assert_eq!(plan_shards(&a), plan_shards(&b));
    assert_eq!(plan_shards(&a), vec![3u64, 7, 9]);
}

#[test]
fn progress_reader_accounts_exactly() {
    let mut pr = ProgressReader::new();
    assert_eq!(pr.bytes_read(), 0);
    pr.record_read(5);
    pr.record_read(0);
    pr.record_read(123);
    assert_eq!(pr.bytes_read(), 128);
}

#[test]
fn combined_outcome_requires_every_task() {
    assert!(combine_task_results(&Vec::new()));
    assert!(combine_task_results(&vec![true, true, true]));
    assert!(!combine_task_results(&vec![true, false, true]));
    assert!(!combine_task_results(&vec![false]));
}

#[test]
fn directory_input_is_its_own_prefix() {
    let (prefix, root) = resolve_input(String::from("/data/tree"), true, None);
    assert_eq!(prefix, "/data/tree");
    assert_eq!(root, "/data/tree");
}

#[test]
fn file_input_uses_parent_as_prefix() {
    let (prefix, root) =
        resolve_input(String::from("/data/tree/a.txt"), false, Some(String::from("/data/tree")));
    assert_eq!(prefix, "/data/tree");
    assert_eq!(root, "/data/tree/a.txt");
}

#[test]
fn bare_file_name_falls_back_to_current_directory() {
    let (prefix, root) = resolve_input(String::from("a.txt"), false, None);
    assert_eq!(prefix, "./");
    assert_eq!(root, "./a.txt");
}
