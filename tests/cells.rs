use bitvec::vec::BitVec;
use tvm_cells::bits::Bits;
use tvm_cells::cell::Cell;
use tvm_cells::slice::{Int257, Slice};
use tvm_cells::{Error, Prefixes};

fn cursor(bits: &[bool]) -> Slice {
    Slice::new(Bits::from_bools(&bits.to_vec())).unwrap()
}

fn bools(s: &Slice) -> Vec<bool> {
    s.data().to_bools()
}

fn pattern(n: usize) -> Vec<bool> {
    (0..n).map(|i| i % 3 == 0 || i % 7 == 2).collect()
}

fn leaf() -> Cell {
    Cell::new(cursor(&[])).unwrap()
}

#[test]
fn create_accepts_up_to_1023_bits() {
    for n in [0usize, 1, 8, 257, 1022, 1023] {
        let s = Slice::new(Bits::from_bools(&pattern(n))).unwrap();
        assert_eq!(s.len() as usize, n);
        assert_eq!(bools(&s), pattern(n));
    }
}

#[test]
fn create_refuses_more_than_1023_bits() {
    for n in [1024usize, 1025, 2000] {
        let r = Slice::new(Bits::from_bools(&pattern(n)));
        assert!(matches!(r, Err(Error::CapacityExceeded)));
    }
}

#[test]
fn from_bitslice_copies_and_bounds() {
    let b = Bits::from_bools(&pattern(40));
    let s = Slice::from_bitslice(&b).unwrap();
    assert_eq!(bools(&s), pattern(40));
    assert_eq!(b.to_bools(), pattern(40));
    let big = Bits::from_bools(&pattern(1024));
    assert!(matches!(Slice::from_bitslice(&big), Err(Error::CapacityExceeded)));
}

#[test]
fn load_bits_splits_the_cursor() {
    let all = pattern(100);
    let mut s = cursor(&all);
    let head = s.load_bits(37).unwrap();
    assert_eq!(bools(&head), all[..37].to_vec());
    assert_eq!(s.len(), 63);
    assert_eq!(bools(&s), all[37..].to_vec());
    let rest = s.load_bits(63).unwrap();
    assert_eq!(bools(&rest), all[37..].to_vec());
    assert_eq!(s.len(), 0);
}

#[test]
fn load_bits_zero_takes_nothing() {
    let mut s = cursor(&pattern(5));
    let head = s.load_bits(0).unwrap();
    assert_eq!(head.len(), 0);
    assert_eq!(bools(&s), pattern(5));
}

#[test]
fn preload_bits_twice_is_the_same() {
    let s = cursor(&pattern(20));
    let a = s.preload_bits(11).unwrap();
    let b = s.preload_bits(11).unwrap();
    assert_eq!(bools(&a), bools(&b));
    assert_eq!(bools(&a), pattern(20)[..11].to_vec());
    assert_eq!(s.len(), 20);
    assert_eq!(bools(&s), pattern(20));
}

#[test]
fn preload_bits_underflow() {
    let s = cursor(&pattern(3));
    assert!(matches!(s.preload_bits(4), Err(Error::Underflow)));
}

#[test]
fn failed_load_leaves_cursor_unchanged() {
    let mut s = cursor(&pattern(10));
    assert!(matches!(s.load_bits(11), Err(Error::Underflow)));
    assert_eq!(s.len(), 10);
    assert_eq!(bools(&s), pattern(10));
}

#[test]
fn skip_bits_drops_the_front() {
    let mut s = cursor(&pattern(12));
    s.skip_bits(5).unwrap();
    assert_eq!(bools(&s), pattern(12)[5..].to_vec());
    assert!(matches!(s.skip_bits(8), Err(Error::Underflow)));
    assert_eq!(bools(&s), pattern(12)[5..].to_vec());
}

fn sample_int() -> Int257 {
    let mut bytes = [0u8; 33];
    for (i, b) in bytes.iter_mut().enumerate() {
        *b = (i as u8).wrapping_mul(37).wrapping_add(11);
    }
    bytes[32] &= 1;
    Int257(bytes)
}

fn int_bits(v: &Int257) -> Vec<bool> {
    (0..257).map(|i| (v.0[i / 8] >> (i % 8)) & 1 == 1).collect()
}

#[test]
fn store_int_then_load_int_round_trips() {
    let v = sample_int();
    let mut s = cursor(&[]);
    s.store_int(v).unwrap();
    assert_eq!(s.len(), 257);
    assert_eq!(bools(&s), int_bits(&v));
    let w = s.load_int().unwrap();
    assert_eq!(w, v);
    assert_eq!(s.len(), 0);
}

#[test]
fn store_int_writes_least_significant_bit_first() {
    let mut bytes = [0u8; 33];
    bytes[0] = 0b0000_0110;
    let mut s = cursor(&[]);
    s.store_int(Int257(bytes)).unwrap();
    let got = bools(&s);
    assert_eq!(&got[..4], &[false, true, true, false]);
    assert!(got[4..].iter().all(|b| !b));
}

#[test]
fn preload_int_keeps_the_cursor() {
    let v = sample_int();
    let mut s = cursor(&[true]);
    s.store_int(v).unwrap();
    s.skip_bits(1).unwrap();
    let w = s.preload_int().unwrap();
    assert_eq!(w, v);
    assert_eq!(s.len(), 257);
}

#[test]
fn load_int_underflow() {
    let mut s = cursor(&pattern(256));
    assert!(matches!(s.load_int(), Err(Error::Underflow)));
    assert_eq!(s.len(), 256);
    assert!(matches!(s.preload_int(), Err(Error::Underflow)));
}

#[test]
fn store_int_capacity() {
    let mut s = cursor(&pattern(766));
    s.store_int(sample_int()).unwrap();
    assert_eq!(s.len(), 1023);
    let mut t = cursor(&pattern(767));
    assert!(matches!(t.store_int(sample_int()), Err(Error::CapacityExceeded)));
    assert_eq!(bools(&t), pattern(767));
}

#[test]
fn store_slice_appends() {
    let mut s = cursor(&[true, false]);
    s.store_slice(cursor(&[false, false, true])).unwrap();
    assert_eq!(bools(&s), vec![true, false, false, false, true]);
    let mut full = cursor(&pattern(1000));
    assert!(matches!(full.store_slice(cursor(&pattern(24))), Err(Error::CapacityExceeded)));
    assert_eq!(full.len(), 1000);
    full.store_slice(cursor(&pattern(23))).unwrap();
    assert_eq!(full.len(), 1023);
}

#[test]
fn store_int_as_slice_reads_bytes_lsb_first() {
    let mut s = cursor(&[]);
    s.store_int_as_slice(&[0b1010_0001, 0xff], 10).unwrap();
    assert_eq!(
        bools(&s),
        vec![true, false, false, false, false, true, false, true, true, true]
    );
    let mut t = cursor(&pattern(1020));
    assert!(matches!(t.store_int_as_slice(&[0xff], 4), Err(Error::CapacityExceeded)));
    t.store_int_as_slice(&[0xff], 3).unwrap();
    assert_eq!(t.len(), 1023);
}

#[test]
fn store_bool_at_the_bound() {
    let mut s = cursor(&pattern(1022));
    s.store_bool(true).unwrap();
    assert_eq!(s.len(), 1023);
    assert!(matches!(s.store_bool(true), Err(Error::CapacityExceeded)));
    assert_eq!(s.len(), 1023);
}

#[test]
fn nine_bools_scenario() {
    let mut s = Slice::new(Bits::from_bools(&Vec::new())).unwrap();
    for _ in 0..8 {
        s.store_bool(false).unwrap();
    }
    s.store_bool(true).unwrap();
    assert_eq!(s.len(), 9);
    let p = s.preload_bits(9).unwrap();
    assert_eq!(
        bools(&p),
        vec![false, false, false, false, false, false, false, false, true]
    );
}

#[test]
fn cell_starts_empty_and_takes_four_children() {
    let mut c = Cell::new(cursor(&pattern(9))).unwrap();
    assert_eq!(c.ref_len(), 0);
    assert_eq!(c.level(), 1);
    for _ in 0..4 {
        c.store_ref(leaf()).unwrap();
    }
    assert_eq!(c.ref_len(), 4);
    assert!(matches!(c.store_ref(leaf()), Err(Error::TooManyChildren)));
    assert_eq!(c.ref_len(), 4);
    assert_eq!(c.get_refs().len(), 4);
    assert_eq!(bools(&c.data), pattern(9));
}

#[test]
fn children_keep_their_order() {
    let mut c = leaf();
    for n in 1..4 {
        c.store_ref(Cell::new(cursor(&pattern(n))).unwrap()).unwrap();
    }
    let lens: Vec<u16> = c.get_refs().iter().map(|k| k.data.len()).collect();
    assert_eq!(lens, vec![1, 2, 3]);
}

#[test]
fn synthetic_tree_levels() {
    let a = leaf();
    let mut b = leaf();
    b.store_ref(leaf()).unwrap();
    assert_eq!(a.level(), 1);
    assert_eq!(b.level(), 2);
    let mut root = leaf();
    root.store_ref(a).unwrap();
    root.store_ref(b).unwrap();
    assert_eq!(root.level(), 3);
    assert_eq!(root.get_refs()[0].level(), 1);
    assert_eq!(root.get_refs()[1].level(), 2);
}

#[test]
fn level_follows_the_deepest_branch() {
    let mut chain = leaf();
    for _ in 0..5 {
        let mut parent = leaf();
        parent.store_ref(chain).unwrap();
        chain = parent;
    }
    let mut root = leaf();
    root.store_ref(leaf()).unwrap();
    root.store_ref(chain).unwrap();
    root.store_ref(leaf()).unwrap();
    assert_eq!(root.level(), 7);
}

#[test]
fn container_magic_values() {
    assert_eq!(Prefixes::SerializedBocIdx.value(), 0x68ff65f3);
    assert_eq!(Prefixes::SerializedBocIdxCrc32c.value(), 0xacc3a728);
    assert_eq!(Prefixes::SerializedBoc.value(), 0xb5ee9c72);
    assert_eq!(Prefixes::SerializedBoc.to_be_bytes(), [0xb5, 0xee, 0x9c, 0x72]);
}

#[test]
fn cursor_over_a_bit_vector() {
    let s = Slice::new(Bits(BitVec::<u8>::from_slice(&[0b0000_0101]))).unwrap();
    assert_eq!(s.len(), 8);
    assert_eq!(
        bools(&s),
        vec![true, false, true, false, false, false, false, false]
    );
    assert_eq!(s.to_bitslice().0.len(), 8);
}

#[test]
fn clone_copies_the_bits() {
    let s = cursor(&pattern(30));
    let mut t = s.clone();
    t.store_bool(true).unwrap();
    assert_eq!(bools(&s), pattern(30));
    assert_eq!(t.len(), 31);
}
