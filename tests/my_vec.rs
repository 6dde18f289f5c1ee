use std::cell::Cell;
use std::rc::Rc;

use myvec::MyVec;

struct DropCounter {
    drops: Rc<Cell<usize>>,
    value: usize,
}

impl Drop for DropCounter {
    fn drop(&mut self) {
        self.drops.set(self.drops.get() + 1);
    }
}

#[test]
fn it_works() {
    let mut vec: MyVec<usize> = MyVec::new();
    vec.push(1usize);
    vec.push(2);
    vec.push(3);
    vec.push(3);
    vec.push(3);

    assert_eq!(vec.capacity(), 8);
    assert_eq!(vec.len(), 5);
}

#[test]
fn five_appends_read_back() {
    let mut vec: MyVec<usize> = MyVec::new();
    for x in [1usize, 2, 3, 3, 3] {
        vec.push(x);
    }
    assert_eq!(vec.len(), 5);
    assert_eq!(vec.capacity(), 8);
    assert_eq!(vec.get(2), Some(&3));
    assert_eq!(vec.get(5), None);
}

#[test]
fn new_is_empty_without_capacity() {
    let vec: MyVec<u32> = MyVec::new();
    assert_eq!(vec.len(), 0);
    assert_eq!(vec.capacity(), 0);
    assert_eq!(vec.get(0), None);
}

#[test]
fn fourth_append_fills_fifth_grows() {
    let mut vec: MyVec<u8> = MyVec::new();
    vec.push(10);
    assert_eq!(vec.capacity(), 4);
    for x in 11u8..14 {
        vec.push(x);
    }
    assert_eq!(vec.len(), 4);
    assert_eq!(vec.capacity(), 4);
    vec.push(14);
    assert_eq!(vec.len(), 5);
    assert_eq!(vec.capacity(), 8);
}

#[test]
fn len_counts_appends() {
    let mut vec: MyVec<u64> = MyVec::new();
    for n in 1..=100u64 {
        vec.push(n * 7);
        assert_eq!(vec.len() as u64, n);
    }
}

#[test]
fn capacity_is_least_growth_step() {
    let mut vec: MyVec<i32> = MyVec::new();
    for n in 1..=300usize {
        vec.push(n as i32);
        let mut expected = 4usize;
        while expected < n {
            expected *= 2;
        }
        assert_eq!(vec.capacity(), expected);
    }
    assert_eq!(vec.capacity(), 512);
}

#[test]
fn values_survive_growth() {
    let mut vec: MyVec<String> = MyVec::new();
    for i in 0..70usize {
        vec.push(format!("item {}", i));
    }
    assert_eq!(vec.capacity(), 128);
    for i in 0..70usize {
        assert_eq!(vec.get(i), Some(&format!("item {}", i)));
    }
}

#[test]
fn out_of_range_is_none() {
    let mut vec: MyVec<u16> = MyVec::new();
    for x in 0..9u16 {
        vec.push(x);
    }
    assert_eq!(vec.capacity(), 16);
    for i in 9..20usize {
        assert_eq!(vec.get(i), None);
    }
    assert_eq!(vec.get(usize::MAX), None);
    assert_eq!(vec.get(8), Some(&8));
}

#[test]
fn disposal_drops_each_element_once() {
    let drops = Rc::new(Cell::new(0usize));
    {
        let mut vec: MyVec<DropCounter> = MyVec::new();
        for value in 0..11usize {
            vec.push(DropCounter { drops: Rc::clone(&drops), value });
        }
        assert_eq!(drops.get(), 0);
        assert_eq!(vec.get(10).map(|d| d.value), Some(10));
    }
    assert_eq!(drops.get(), 11);
    assert_eq!(Rc::strong_count(&drops), 1);
}

#[test]
fn disposal_of_empty_drops_nothing() {
    let drops = Rc::new(Cell::new(0usize));
    {
        let vec: MyVec<DropCounter> = MyVec::new();
        assert_eq!(vec.capacity(), 0);
    }
    assert_eq!(drops.get(), 0);
    assert_eq!(Rc::strong_count(&drops), 1);
}
