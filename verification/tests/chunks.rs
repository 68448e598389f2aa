use shardpack::chunk::Chunk;
use shardpack::offload::pump_through;

#[test]
fn chunk_absorbs_and_drains_in_order() {
    let mut c = Chunk::with_capacity(8);
    let src = vec![1u8, 2, 3, 4, 5, 6];
    c.absorb(&src, 1, 4);
    assert_eq!(c.len(), 4);
    let first = c.take_front(3);
    assert_eq!(first, vec![2u8, 3, 4]);
    let rest = c.take_front(10);
    assert_eq!(rest, vec![5u8]);
    assert!(c.is_empty());
}

#[test]
fn chunk_clear_keeps_capacity() {
    let mut c = Chunk::with_capacity(4);
    let src = vec![9u8, 9];
    c.absorb(&src, 0, 2);
    c.clear();
    assert!(c.is_empty());
    assert_eq!(c.capacity(), 4);
    assert_eq!(c.remaining(), 4);
}

#[test]
fn chunk_take_front_is_exact_on_short_chunk() {
    let mut c = Chunk::with_capacity(16);
    let src = vec![7u8];
    c.absorb(&src, 0, 1);
    let got = c.take_front(16);
    assert_eq!(got, vec![7u8]);
}

fn source_of_len(n: usize) -> Vec<u8> {
    (0..n).map(|i| (i % 251) as u8).collect()
}

#[test]
fn pump_reproduces_empty_source() {
    let src = source_of_len(0);
    assert_eq!(pump_through(&src, 4, 1), src);
}

#[test]
fn pump_reproduces_one_byte() {
    let src = source_of_len(1);
    assert_eq!(pump_through(&src, 4, 3), src);
}

#[test]
fn pump_reproduces_capacity_minus_one() {
    let src = source_of_len(3);
    assert_eq!(pump_through(&src, 4, 2), src);
}

#[test]
fn pump_reproduces_exact_capacity() {
    let src = source_of_len(4);
    assert_eq!(pump_through(&src, 4, 4), src);
}

#[test]
fn pump_reproduces_capacity_plus_one() {
    let src = source_of_len(5);
    assert_eq!(pump_through(&src, 4, 1), src);
}

#[test]
fn pump_reproduces_five_times_capacity() {
    let src = source_of_len(20);
    assert_eq!(pump_through(&src, 4, 7), src);
}

#[test]
fn pump_is_read_size_independent() {
    let src = source_of_len(1000);
    for read_size in [1usize, 2, 64, 67, 1000, 5000] {
        assert_eq!(pump_through(&src, 64, read_size), src);
    }
}
