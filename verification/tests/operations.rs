use std::rc::Rc;

use smallvec::{
    SmallVec, SmallVec1, SmallVec16, SmallVec2, SmallVec24, SmallVec32, SmallVec4, SmallVec8,
    SmallVecN, SmallVecPrivate, VecLike,
};

fn filled<const N: usize>(n: u32) -> SmallVecN<u32, N> {
    let mut v = SmallVecN::new();
    for i in 0..n {
        v.push(i);
    }
    v
}

#[test]
fn new_is_empty_and_inline() {
    let v: SmallVec4<u32> = SmallVec4::new();
    assert_eq!(v.len(), 0);
    assert!(v.is_empty());
    assert_eq!(v.cap(), 4);
    assert_eq!(v.inline_size(), 4);
    assert!(!v.spilled());
    assert_eq!(v.as_slice(), &[] as &[u32]);
}

#[test]
fn sizes_differ_in_the_inline_region() {
    assert_eq!(SmallVec1::<u8>::new().inline_size(), 1);
    assert_eq!(SmallVec2::<u8>::new().inline_size(), 2);
    assert_eq!(SmallVec4::<u8>::new().inline_size(), 4);
    assert_eq!(SmallVec8::<u8>::new().inline_size(), 8);
    assert_eq!(SmallVec16::<u8>::new().inline_size(), 16);
    assert_eq!(SmallVec24::<u8>::new().inline_size(), 24);
    assert_eq!(SmallVec32::<u8>::new().inline_size(), 32);
}

#[test]
fn inline_until_full() {
    let mut v = filled::<4>(4);
    assert!(!v.spilled());
    assert_eq!(v.cap(), 4);
    v.push(4);
    assert!(v.spilled());
    assert_eq!(v.cap(), 8);
    assert_eq!(v.as_slice(), &[0, 1, 2, 3, 4]);
}

#[test]
fn capacity_doubles() {
    let mut v: SmallVec24<u32> = SmallVec24::new();
    let mut caps = Vec::new();
    for i in 0..100 {
        v.push(i);
        if caps.last() != Some(&v.cap()) {
            caps.push(v.cap());
        }
    }
    assert_eq!(caps, vec![24, 48, 96, 192]);
    assert!(v.cap() <= 2 * v.len());
}

#[test]
fn vector_without_inline_region_grows_to_one() {
    let mut v: SmallVecN<u32, 0> = SmallVecN::new();
    v.push(7);
    assert_eq!(v.cap(), 1);
    assert!(v.spilled());
    v.push(8);
    assert_eq!(v.cap(), 2);
    assert_eq!(v.as_slice(), &[7, 8]);
}

#[test]
fn pop_undoes_push() {
    let mut v = filled::<2>(2);
    v.push(9);
    assert_eq!(v.pop(), Some(9));
    assert_eq!(v.as_slice(), &[0, 1]);
    assert_eq!(v.cap(), 4);
    assert!(v.spilled());
}

#[test]
fn pop_of_nothing() {
    let mut v = filled::<2>(3);
    assert_eq!(v.pop(), Some(2));
    assert_eq!(v.pop(), Some(1));
    assert_eq!(v.pop(), Some(0));
    assert_eq!(v.pop(), None);
    assert_eq!(v.pop(), None);
    assert_eq!(v.cap(), 4);
}

#[test]
fn grow_keeps_the_elements() {
    let mut v = filled::<4>(3);
    v.grow(10);
    assert_eq!(v.cap(), 10);
    assert!(v.spilled());
    assert_eq!(v.as_slice(), &[0, 1, 2]);
    v.grow(20);
    assert_eq!(v.cap(), 20);
    assert_eq!(v.as_slice(), &[0, 1, 2]);
    for i in 3..20 {
        v.push(i);
    }
    assert_eq!(v.cap(), 20);
    assert_eq!(v.len(), 20);
}

#[test]
fn empty_vector_takes_a_capacity_that_fits_inline() {
    let mut v = filled::<4>(5);
    while v.pop().is_some() {}
    assert!(v.spilled());
    v.grow(3);
    assert_eq!(v.cap(), 3);
    assert!(!v.spilled());
    assert!(v.is_empty());
    for i in 0..3 {
        v.push(i);
    }
    assert!(!v.spilled());
    v.push(3);
    assert_eq!(v.cap(), 6);
    assert!(v.spilled());
    assert_eq!(v.as_slice(), &[0, 1, 2, 3]);
}

#[test]
fn grow_beyond_memory_only_notes_the_capacity() {
    let mut v = filled::<2>(2);
    v.grow(usize::MAX);
    assert_eq!(v.cap(), usize::MAX);
    v.push(2);
    assert_eq!(v.as_slice(), &[0, 1, 2]);
}

#[test]
fn get_and_get_mut() {
    let mut v = filled::<2>(3);
    assert_eq!(*v.get(0), 0);
    assert_eq!(*v.get(2), 2);
    *v.get_mut(1) = 17;
    assert_eq!(v.as_slice(), &[0, 17, 2]);
    let mut w = filled::<4>(2);
    *w.get_mut(0) = 5;
    assert_eq!(w.as_slice(), &[5, 1]);
}

#[test]
fn slices_read_ranges() {
    let v = filled::<2>(5);
    assert_eq!(v.slice(1, 4), &[1, 2, 3]);
    assert_eq!(v.slice(5, 5), &[] as &[u32]);
    assert_eq!(v.begin(), v.as_slice());
    assert_eq!(v.end(), 5);
}

#[test]
fn written_slices_read_back() {
    let mut v = filled::<2>(5);
    v.slice_mut(1, 3)[0] = 10;
    v.slice_mut(1, 3)[1] = 20;
    assert_eq!(v.as_slice(), &[0, 10, 20, 3, 4]);
    v.slice_from_mut(3)[1] = 40;
    assert_eq!(v.slice_from_mut(3).len(), 2);
    assert_eq!(v.as_slice(), &[0, 10, 20, 3, 40]);
    v.as_slice_mut().reverse();
    assert_eq!(v.as_slice(), &[40, 3, 20, 10, 0]);
    assert_eq!(v.end_mut(), 5);
}

#[test]
fn iter_goes_both_ways() {
    let v = filled::<2>(4);
    let mut it = v.iter();
    assert_eq!(it.next(), Some(&0));
    assert_eq!(it.next_back(), Some(&3));
    assert_eq!(it.next_back(), Some(&2));
    assert_eq!(it.next(), Some(&1));
    assert_eq!(it.next(), None);
    assert_eq!(it.next_back(), None);
    let forward: Vec<u32> = v.iter().cloned().collect();
    assert_eq!(forward, vec![0, 1, 2, 3]);
    let backward: Vec<u32> = v.iter().rev().cloned().collect();
    assert_eq!(backward, vec![3, 2, 1, 0]);
}

#[test]
fn elements_without_size_are_held_but_not_walked() {
    let mut v: SmallVec2<()> = SmallVec2::new();
    for _ in 0..5 {
        v.push(());
    }
    assert_eq!(v.len(), 5);
    assert_eq!(v.cap(), 8);
    assert_eq!(v.as_slice(), &[(), (), (), (), ()]);
    assert_eq!(v.iter().count(), 0);
    assert_eq!(v.iter().rev().count(), 0);
    assert_eq!(v.mut_iter().count(), 0);
    assert_eq!(v.len(), 5);
    assert_eq!(v.clone().len(), 0);
    assert_eq!(v.clone().cap(), 2);
    assert_eq!(v.pop(), Some(()));
    assert_eq!(v.len(), 4);
}

#[test]
fn mut_iter_writes_in_order() {
    for n in 0..6 {
        let mut v = filled::<2>(n);
        for x in v.mut_iter() {
            *x = *x * 10;
        }
        let expected: Vec<u32> = (0..n).map(|x| x * 10).collect();
        assert_eq!(v.as_slice(), &expected[..]);
    }
    let mut v = filled::<2>(3);
    let mut it = v.mut_iter();
    *it.next().unwrap() = 8;
    assert_eq!(v.as_slice(), &[8, 1, 2]);
}

#[test]
fn into_iter_takes_everything_out() {
    for n in 0..6 {
        let mut v = filled::<2>(n);
        let taken: Vec<u32> = v.into_iter().collect();
        let expected: Vec<u32> = (0..n).collect();
        assert_eq!(taken, expected);
        assert!(v.is_empty());
        assert_eq!(v.cap(), 2);
        assert!(!v.spilled());
        v.push(77);
        assert_eq!(v.as_slice(), &[77]);
    }
}

#[test]
fn into_iter_lets_go_of_what_is_not_asked_for() {
    let item = Rc::new(());
    let mut v: SmallVec2<Rc<()>> = SmallVec2::new();
    for _ in 0..5 {
        v.push(item.clone());
    }
    assert_eq!(Rc::strong_count(&item), 6);
    {
        let mut it = v.into_iter();
        let one = it.next().unwrap();
        assert_eq!(Rc::strong_count(&one), 6);
    }
    assert_eq!(Rc::strong_count(&item), 1);
    assert!(v.is_empty());
}

#[test]
fn dropping_a_vector_lets_go_of_its_elements() {
    let item = Rc::new(());
    for n in 0..6 {
        let mut v: SmallVec2<Rc<()>> = SmallVec2::new();
        for _ in 0..n {
            v.push(item.clone());
        }
        assert_eq!(Rc::strong_count(&item), n + 1);
        drop(v);
        assert_eq!(Rc::strong_count(&item), 1);
    }
}

#[test]
fn push_all_move_appends_in_order() {
    let mut v = filled::<4>(3);
    let mut w: SmallVec2<u32> = SmallVec2::new();
    w.push(10);
    w.push(11);
    w.push(12);
    v.push_all_move(w);
    assert_eq!(v.as_slice(), &[0, 1, 2, 10, 11, 12]);
    assert_eq!(v.cap(), 8);
    v.push_all_move(SmallVec1::new());
    assert_eq!(v.len(), 6);
}

#[test]
fn moving_all_is_pushing_one_by_one() {
    let mut v = filled::<2>(1);
    v.push_all_move(filled::<4>(6));
    let mut w = filled::<2>(1);
    for i in 0..6 {
        w.push(i);
    }
    assert_eq!(v.as_slice(), w.as_slice());
    assert_eq!(v.cap(), w.cap());
}

#[test]
fn extend_takes_the_bound_of_the_iterator() {
    let mut v = filled::<2>(1);
    v.extend(vec![7, 8, 9, 10].into_iter());
    assert_eq!(v.as_slice(), &[0, 7, 8, 9, 10]);
    assert_eq!(v.cap(), 5);
    let mut w = filled::<2>(1);
    w.extend(vec![7, 8, 9, 10].into_iter().filter(|_| true));
    assert_eq!(w.as_slice(), &[0, 7, 8, 9, 10]);
    assert_eq!(w.cap(), 8);
    let mut x = filled::<8>(1);
    x.extend(vec![7, 8].into_iter());
    assert_eq!(x.cap(), 8);
    assert!(!x.spilled());
}

#[test]
fn extend_with_a_given_bound() {
    let mut v = filled::<2>(1);
    v.extend_bounded(vec![5, 6].into_iter(), 9);
    assert_eq!(v.as_slice(), &[0, 5, 6]);
    assert_eq!(v.cap(), 10);
    let mut w = filled::<2>(1);
    w.extend_bounded(vec![5, 6, 7, 8, 9].into_iter(), 2);
    assert_eq!(w.as_slice(), &[0, 5, 6, 7, 8, 9]);
    assert_eq!(w.cap(), 6);
}

#[test]
fn from_iter_takes_the_bound_of_the_iterator() {
    let v: SmallVec2<u32> = SmallVec2::from_iter(vec![1, 2, 3].into_iter());
    assert_eq!(v.as_slice(), &[1, 2, 3]);
    assert_eq!(v.cap(), 3);
    let w: SmallVec4<u32> = SmallVec4::from_iter(vec![1, 2, 3].into_iter());
    assert_eq!(w.as_slice(), &[1, 2, 3]);
    assert_eq!(w.cap(), 4);
    let x: SmallVec2<u32> = SmallVec2::from_iter_bounded(vec![1, 2, 3].into_iter(), 0);
    assert_eq!(x.as_slice(), &[1, 2, 3]);
    assert_eq!(x.cap(), 4);
}

#[test]
fn clone_is_pushed_together_anew() {
    let mut v: SmallVec2<String> = SmallVec2::new();
    for s in ["a", "b", "c"] {
        v.push(s.to_owned());
    }
    v.grow(50);
    let mut w = v.clone();
    assert_eq!(w.as_slice(), v.as_slice());
    assert_eq!(w.cap(), 4);
    w.get_mut(0).push('x');
    assert_eq!(v.get(0), "a");
    assert_eq!(w.get(0), "ax");
}

#[test]
fn vec_like_of_both_kinds() {
    fn run<V: VecLike<u32>>(v: &mut V) -> Vec<u32> {
        v.vec_push(1);
        v.vec_push(2);
        v.vec_push(3);
        v.vec_slice_mut(1, 2)[0] = 20;
        v.vec_slice_from_mut(2)[0] = 30;
        assert_eq!(v.vec_len(), 3);
        v.vec_slice_mut(0, 3).to_vec()
    }
    let mut plain: Vec<u32> = Vec::new();
    assert_eq!(run(&mut plain), vec![1, 20, 30]);
    assert_eq!(plain, vec![1, 20, 30]);
    let mut small: SmallVec2<u32> = SmallVec2::new();
    assert_eq!(run(&mut small), vec![1, 20, 30]);
    assert_eq!(small.as_slice(), &[1, 20, 30]);
    assert_eq!(small.cap(), 4);
    small.vec_slice_from_mut(1)[0] = 21;
    assert_eq!(small.as_slice(), &[1, 21, 30]);
    assert_eq!(small.cap(), 4);
}

#[test]
fn parts_are_where_the_capacity_tells() {
    let mut v = filled::<2>(2);
    assert_eq!(v.data(0), &[0, 1]);
    assert_eq!(v.data(1), &[1]);
    assert!(v.ptr().is_empty());
    v.mut_data(1)[0] = 6;
    assert_eq!(v.as_slice(), &[0, 6]);
    v.mut_data(1)[0] = 1;
    let w = filled::<4>(1);
    assert_eq!(w.data(1), &[] as &[u32]);
    assert_eq!(w.data(3), &[] as &[u32]);
    v.push(2);
    assert!(v.data(0).is_empty());
    assert_eq!(v.ptr(), &vec![0, 1, 2]);
    assert!(v.mut_data(0).is_empty());
    assert!(v.mut_region().is_empty());
    assert_eq!(v.begin_mut(), &mut vec![0, 1, 2]);
}

#[test]
fn parts_change_one_at_a_time() {
    let mut v: SmallVec2<u32> = SmallVec2::new();
    v.set_ptr(vec![4, 5, 6]);
    v.set_cap(3);
    v.set_len(3);
    assert!(v.spilled());
    assert_eq!(v.as_slice(), &[4, 5, 6]);
    v.mut_ptr().truncate(1);
    v.set_len(1);
    assert_eq!(v.as_slice(), &[4]);
    assert_eq!(v.cap(), 3);
}
