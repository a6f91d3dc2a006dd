use dispatch_bench::bench::make_buffer;
use dispatch_bench::codec::RddContainer;
use dispatch_bench::ops::{Mapper, Mul2Mapper, Pow2Mapper, RetZeroMapper};
use dispatch_bench::transform::{FnPtrMapper, GenericsMapper, MapRdd};

fn mul2(x: usize) -> usize {
    x.wrapping_add(x)
}

fn pow2_scaled(x: usize) -> usize {
    x.wrapping_mul(x) / 100
}

fn ret_zero(_x: usize) -> usize {
    0
}

#[test]
fn mul2_matches_formula() {
    let m = Mul2Mapper();
    assert_eq!(m.work(0), 0);
    assert_eq!(m.work(1), 2);
    assert_eq!(m.work(15), 30);
    assert_eq!(m.work(usize::MAX / 2), usize::MAX - 1);
    // doubling wraps modulo the word size
    assert_eq!(m.work(usize::MAX), usize::MAX.wrapping_add(usize::MAX));
    assert_eq!(m.work(usize::MAX), usize::MAX - 1);
}

#[test]
fn pow2_matches_formula_with_truncation() {
    let p = Pow2Mapper();
    assert_eq!(p.work(0), 0);
    assert_eq!(p.work(1), 0);
    assert_eq!(p.work(9), 0);
    assert_eq!(p.work(10), 1);
    assert_eq!(p.work(15), 2);
    assert_eq!(p.work(99), 98);
    assert_eq!(p.work(100), 100);
    // squaring wraps modulo the word size: MAX * MAX == 1 (mod 2^BITS)
    assert_eq!(p.work(usize::MAX), 0);
    assert_eq!(p.work(1 << (usize::BITS / 2)), 0);
}

#[test]
fn ret_zero_matches_formula() {
    let z = RetZeroMapper();
    assert_eq!(z.work(0), 0);
    assert_eq!(z.work(1), 0);
    assert_eq!(z.work(usize::MAX), 0);
}

#[test]
fn generic_run_preserves_length_and_order() {
    let g = GenericsMapper::new(Mul2Mapper());
    let v = vec![1, 2, 3, 4, 5];
    let r = g.run(v.clone());
    assert_eq!(r.len(), v.len());
    for (i, x) in v.iter().enumerate() {
        assert_eq!(r[i], x * 2);
    }
    let empty = g.run(Vec::new());
    assert_eq!(empty.len(), 0);
}

#[test]
fn fnptr_run_preserves_length_and_order() {
    let m = FnPtrMapper::new(12345, 345);
    let v = vec![9, 10, 11];
    let f: fn(usize) -> usize = pow2_scaled;
    let r = m.run(f, v.clone());
    assert_eq!(r.len(), v.len());
    assert_eq!(r, vec![0, 1, 1]);
}

#[test]
fn apply_is_idempotent_across_equal_buffers() {
    let g = GenericsMapper::new(Pow2Mapper());
    let v1 = vec![15, 0, 7, usize::MAX];
    let v2 = vec![15, 0, 7, usize::MAX];
    assert_eq!(g.run(v1), g.run(v2));

    let m = FnPtrMapper::new(777, 111);
    let f: fn(usize) -> usize = mul2;
    let w1 = vec![3, 4, 5];
    let w2 = vec![3, 4, 5];
    assert_eq!(m.run(f, w1), m.run(f, w2));
}

#[test]
fn offset_encoding_round_trips() {
    // target above the anchor
    let m = FnPtrMapper::new(0x4000, 0x1000);
    assert_eq!(m.f, 0x3000);
    assert_eq!(m.target_addr(0x1000), 0x4000);
    // target below the anchor: the offset wraps, the round trip still holds
    let n = FnPtrMapper::new(0x1000, 0x4000);
    assert_eq!(n.target_addr(0x4000), 0x1000);
    // extreme addresses
    let e = FnPtrMapper::new(3, usize::MAX);
    assert_eq!(e.target_addr(usize::MAX), 3);
}

#[test]
fn end_to_end_fifteen_buffer() {
    let buf = || vec![15, 15, 15];

    let gen_mul2 = RddContainer::GenMul2(GenericsMapper::new(Mul2Mapper()));
    let gen_pow2 = RddContainer::GenPow2(GenericsMapper::new(Pow2Mapper()));
    let gen_zero = RddContainer::GenRetZero(GenericsMapper::new(RetZeroMapper()));
    let fn_mul2 = RddContainer::FnPtr(FnPtrMapper::new(100, 40));
    let fn_pow2 = RddContainer::FnPtr(FnPtrMapper::new(200, 40));
    let fn_zero = RddContainer::FnPtr(FnPtrMapper::new(300, 40));

    let id = |x: usize| x;
    assert_eq!(gen_mul2.run(id, buf()), vec![30, 30, 30]);
    assert_eq!(gen_pow2.run(id, buf()), vec![2, 2, 2]);
    assert_eq!(gen_zero.run(id, buf()), vec![0, 0, 0]);

    let r_mul2 = fn_mul2.run(mul2 as fn(usize) -> usize, buf());
    let r_pow2 = fn_pow2.run(pow2_scaled as fn(usize) -> usize, buf());
    let r_zero = fn_zero.run(ret_zero as fn(usize) -> usize, buf());
    assert_eq!(r_mul2, vec![30, 30, 30]);
    assert_eq!(r_pow2, vec![2, 2, 2]);
    assert_eq!(r_zero, vec![0, 0, 0]);

    // the two dispatch strategies agree on every operation
    assert_eq!(gen_mul2.run(id, buf()), r_mul2);
    assert_eq!(gen_pow2.run(id, buf()), r_pow2);
    assert_eq!(gen_zero.run(id, buf()), r_zero);
}

#[test]
fn make_buffer_fills_every_slot() {
    let v = make_buffer(1000, 15);
    assert_eq!(v.len(), 1000);
    assert!(v.iter().all(|&x| x == 15));
    let none = make_buffer(0, 7);
    assert!(none.is_empty());
}
