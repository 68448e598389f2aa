use std::io::Read;

use shardpack::shard_name::shard_file_name;

/// Build one shard's byte stream in memory: a zstd-compressed tar container
/// holding the given (relative path, content) entries, the same chain the
/// compression side writes through.
fn build_shard(entries: &[(&str, &[u8])]) -> Vec<u8> {
    let mut encoder =
        zstd::stream::write::Encoder::new(Vec::new(), 0).expect("zstd encoder over a Vec");
    encoder.multithread(1).expect("offloaded compression worker");
    let mut builder = tar::Builder::new(encoder);
    for (path, content) in entries {
        let mut header = tar::Header::new_gnu();
        header.set_size(content.len() as u64);
        header.set_mode(0o644);
        header.set_cksum();
        builder.append_data(&mut header, path, *content).expect("append entry");
    }
    let encoder = builder.into_inner().expect("finish tar container");
    encoder.finish().expect("finish zstd stream")
}

/// Decode one shard's byte stream back into its (relative path, content)
/// entries, the same chain the decompression side reads through.
fn read_shard(bytes: &[u8]) -> Result<Vec<(String, Vec<u8>)>, std::io::Error> {
    let decoder = zstd::stream::read::Decoder::new(bytes)?;
    let mut archive = tar::Archive::new(decoder);
    let mut out = Vec::new();
    for entry in archive.entries()? {
        let mut entry = entry?;
        let path = entry.path()?.to_string_lossy().into_owned();
        let mut content = Vec::new();
        entry.read_to_end(&mut content)?;
        out.push((path, content));
    }
    Ok(out)
}

#[test]
fn shard_round_trip_reproduces_tree() {
    // The concrete scenario: a.txt with 5 bytes, sub/b.txt empty, two
    // workers of which only the first received files.
    let tree: Vec<(&str, &[u8])> = vec![("a.txt", b"hello"), ("sub/b.txt", b"")];
    let shard = build_shard(&tree);
    let name = shard_file_name(0);
    assert_eq!(name, "00000000.tar.zstd");
    let restored = read_shard(&shard).expect("a valid shard decodes");
    assert_eq!(restored.len(), 2);
    assert_eq!(restored[0].0, "a.txt");
    assert_eq!(restored[0].1, b"hello");
    assert_eq!(restored[1].0, "sub/b.txt");
    assert_eq!(restored[1].1, b"");
}

#[test]
fn shards_restore_independently_of_distribution() {
    // The same tree split across shards differently restores the same
    // set of files either way.
    let one_shard = build_shard(&[("x.bin", &[1u8, 2, 3]), ("y.bin", &[4u8, 5])]);
    let shard_a = build_shard(&[("x.bin", &[1u8, 2, 3])]);
    let shard_b = build_shard(&[("y.bin", &[4u8, 5])]);
    let mut together = read_shard(&one_shard).expect("valid shard");
    let mut split = read_shard(&shard_a).expect("valid shard");
    split.extend(read_shard(&shard_b).expect("valid shard"));
    together.sort();
    split.sort();
    assert_eq!(together, split);
}

#[test]
fn large_entry_survives_the_chain() {
    let content: Vec<u8> = (0..300000usize).map(|i| (i % 239) as u8).collect();
    let shard = build_shard(&[("big.bin", &content)]);
    let restored = read_shard(&shard).expect("valid shard decodes");
    assert_eq!(restored.len(), 1);
    assert_eq!(restored[0].1, content);
}

#[test]
fn truncated_shard_fails_but_siblings_decode() {
    let good = build_shard(&[("a.txt", b"hello")]);
    let mut truncated = good.clone();
    truncated.truncate(truncated.len() / 2);
    assert!(read_shard(&truncated).is_err());
    // The sibling shard in the same input directory is unaffected.
    let sibling = read_shard(&good).expect("the intact shard still decodes");
    assert_eq!(sibling[0].1, b"hello");
}

#[test]
fn corrupted_shard_fails_but_siblings_decode() {
    let good = build_shard(&[("a.txt", b"some recognizable content here")]);
    let mut corrupt = good.clone();
    for b in corrupt[4..12].iter_mut() {
        *b ^= 0xff;
    }
    assert!(read_shard(&corrupt).is_err());
    let sibling = read_shard(&good).expect("the intact shard still decodes");
    assert_eq!(sibling[0].1, b"some recognizable content here");
}
