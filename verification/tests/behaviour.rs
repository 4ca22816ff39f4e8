use get_move::{chain, Chain, Get, GetExt, Iter};

fn forward<G: Get>(mut it: Iter<'_, G>) -> Vec<G::Output> {
    let mut out = Vec::new();
    while let Some(v) = it.next() {
        out.push(v);
    }
    out
}

fn backward<G: Get>(mut it: Iter<'_, G>) -> Vec<G::Output> {
    let mut out = Vec::new();
    while let Some(v) = it.next_back() {
        out.push(v);
    }
    out
}

#[test]
fn chain_of_two_arrays() {
    let c = [1, 2, 3].chain([4, 5, 6]);
    assert_eq!(c.len(), 6);
    assert_eq!(forward(c.iter()), vec![1, 2, 3, 4, 5, 6]);
    assert_eq!(backward(c.iter()), vec![6, 5, 4, 3, 2, 1]);
    assert_eq!(c.get_move(3), Some(4));
    assert_eq!(c.get_move(6), None);
}

#[test]
fn empty_first_container() {
    let a: [i32; 0] = [];
    let c = a.chain([7]);
    assert_eq!(c.len(), 1);
    assert_eq!(c.get_move(0), Some(7));
    assert_eq!(c.get_move(1), None);
    assert_eq!(forward(c.iter()), vec![7]);
    assert!(!c.is_empty());
}

#[test]
fn chain_maps_each_position_to_its_container() {
    let a = [10u8, 20];
    let b = [30u8, 40, 50];
    let c = a.chain(b);
    for i in 0..8usize {
        let expected = if i < a.len() { a.get_move(i) } else { b.get_move(i - a.len()) };
        assert_eq!(c.get_move(i), expected);
    }
    assert_eq!(c.get_move(1), Some(20));
    assert_eq!(c.get_move(2), Some(30));
    assert_eq!(c.get_move(4), Some(50));
    assert_eq!(c.get_move(5), None);
    assert_eq!(c.get_move(usize::MAX), None);
}

#[test]
fn chain_length_is_the_sum() {
    let a: [u16; 4] = [1, 2, 3, 4];
    let b: [u16; 0] = [];
    assert_eq!(Get::len(&a.chain(b)), 4);
    assert_eq!(Get::len(&b.chain(a)), 4);
    assert_eq!(Get::len(&a.chain(a)), 8);
    assert_eq!(Get::len(&b.chain(b)), 0);
    assert!(b.chain(b).is_empty());
}

#[test]
fn chaining_is_associative() {
    let a = [1, 2];
    let b = [3];
    let c = [4, 5, 6];
    let left = a.chain(b).chain(c);
    let right = a.chain(b.chain(c));
    assert_eq!(left.len(), 6);
    assert_eq!(right.len(), 6);
    for i in 0..8usize {
        assert_eq!(left.get_move(i), right.get_move(i));
    }
    assert_eq!(forward(left.iter()), vec![1, 2, 3, 4, 5, 6]);
    assert_eq!(forward(right.iter()), vec![1, 2, 3, 4, 5, 6]);
}

#[test]
fn forward_iteration_follows_indexing() {
    let data = [9u32, 8, 7, 6];
    let s: &[u32] = &data;
    let walked = forward(GetExt::iter(&s));
    assert_eq!(walked.len(), Get::len(&s));
    for i in 0..walked.len() {
        assert_eq!(Some(walked[i]), s.get_move(i));
    }
    assert_eq!(walked, vec![9, 8, 7, 6]);
}

#[test]
fn backward_iteration_is_the_reverse() {
    let data = [9u32, 8, 7, 6];
    let s: &[u32] = &data;
    let mut fwd = forward(GetExt::iter(&s));
    fwd.reverse();
    assert_eq!(backward(GetExt::iter(&s)), fwd);
    assert_eq!(backward(GetExt::iter(&s)), vec![6, 7, 8, 9]);
}

#[test]
fn length_counts_down_from_either_end() {
    let c = [1, 2].chain([3, 4, 5]);
    let mut it = c.iter();
    assert_eq!(it.len(), c.len());
    assert_eq!(it.size_hint(), (5, Some(5)));
    assert_eq!(it.next(), Some(1));
    assert_eq!(it.len(), 4);
    assert_eq!(it.size_hint(), (4, Some(4)));
    assert_eq!(it.next_back(), Some(5));
    assert_eq!(it.len(), 3);
    assert_eq!(it.next_back(), Some(4));
    assert_eq!(it.next(), Some(2));
    assert_eq!(it.size_hint(), (1, Some(1)));
    assert!(!it.is_empty());
    assert_eq!(it.next(), Some(3));
    assert_eq!(it.len(), 0);
    assert_eq!(it.size_hint(), (0, Some(0)));
    assert!(it.is_empty());
    assert_eq!(it.next(), None);
    assert_eq!(it.next_back(), None);
    assert_eq!(it.len(), 0);
}

#[test]
fn nth_skips_and_yields() {
    let a = [10, 11, 12, 13, 14];
    let mut it = a.iter();
    assert_eq!(it.nth(0), Some(10));
    assert_eq!(it.len(), 4);
    assert_eq!(it.nth(2), Some(13));
    assert_eq!(it.len(), 1);
    assert_eq!(it.next(), Some(14));
    assert_eq!(it.nth(0), None);
}

#[test]
fn nth_at_the_remaining_length_yields_nothing() {
    let a = [10, 11, 12];
    let mut it = a.iter();
    assert_eq!(it.nth(3), None);
    assert!(it.is_empty());
    assert_eq!(it.len(), 0);
    assert_eq!(it.next(), None);
}

#[test]
fn nth_past_the_end_exhausts() {
    let a = [10, 11, 12];
    let mut it = a.iter();
    assert_eq!(it.next_back(), Some(12));
    assert_eq!(it.nth(7), None);
    assert!(it.is_empty());
    assert_eq!(it.next(), None);
    assert_eq!(it.next_back(), None);
    assert_eq!(it.nth(usize::MAX), None);
}

#[test]
fn index_move_inside_the_range() {
    let c = chain([1u64, 2], [3u64]);
    assert_eq!(c.index_move(0), 1);
    assert_eq!(c.index_move(2), 3);
    let s: &[u64] = &[5, 6];
    assert_eq!(s.index_move(1), 6);
}

#[test]
fn slices_and_arrays_report_absence_past_the_end() {
    let data = [1i8, -2, 3];
    let s: &[i8] = &data[..2];
    assert_eq!(Get::len(&s), 2);
    assert_eq!(s.get_move(0), Some(1));
    assert_eq!(s.get_move(1), Some(-2));
    assert_eq!(s.get_move(2), None);
    assert_eq!(Get::len(&data), 3);
    assert_eq!(data.get_move(2), Some(3));
    assert_eq!(data.get_move(3), None);
    let empty: &[i8] = &[];
    assert!(Get::is_empty(&empty));
    assert_eq!(empty.get_move(0), None);
    assert!(GetExt::iter(&empty).is_empty());
}

#[test]
fn slice_chained_with_array() {
    let data = [1, 2];
    let s: &[i32] = &data;
    let c: Chain<&[i32], [i32; 1]> = Chain::new(s, [3]);
    assert_eq!(c.len(), 3);
    assert_eq!(forward(c.iter()), vec![1, 2, 3]);
    assert_eq!(backward(c.iter()), vec![3, 2, 1]);
}

#[test]
fn a_copy_resumes_from_the_same_place() {
    let a = [1, 2, 3, 4];
    let mut it = a.iter();
    assert_eq!(it.next(), Some(1));
    let snapshot = it;
    assert_eq!(it.next(), Some(2));
    assert_eq!(it.next_back(), Some(4));
    assert_eq!(forward(snapshot), vec![2, 3, 4]);
    assert_eq!(forward(it.clone()), vec![3]);
    assert_eq!(it.len(), 1);
}
