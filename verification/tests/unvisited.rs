use unvisited_iterator::IntoUnvisitedIterator;
use unvisited_iterator::UnvisitedIterator;

#[test]
fn from_value_initializes_correctly() {
    let iter = UnvisitedIterator::from_value(1);
    assert_eq!(iter.pending_len(), 1);
    assert!(iter.pending_contains(1));
    assert!(iter.produced_is_empty());
}

#[test]
fn from_iter_initializes_correctly() {
    let iter = UnvisitedIterator::from_iter(vec![1, 2, 3]);
    assert_eq!(iter.pending_len(), 3);
    assert!(iter.pending_contains(1));
    assert!(iter.pending_contains(2));
    assert!(iter.pending_contains(3));
    assert!(iter.produced_is_empty());
}

#[test]
fn next_returns_unvisited_elements() {
    let mut iter = UnvisitedIterator::from_iter(vec![1, 2, 3]);
    assert_eq!(iter.next(), Some(1));
    assert_eq!(iter.next(), Some(2));
    assert_eq!(iter.next(), Some(3));
    assert_eq!(iter.next(), None);
}

#[test]
fn next_skips_visited_elements() {
    let mut iter = UnvisitedIterator::from_iter(vec![1, 2, 1, 3]);
    assert_eq!(iter.next(), Some(1));
    assert_eq!(iter.next(), Some(2));
    assert_eq!(iter.next(), Some(3));
    assert_eq!(iter.next(), None);
}

#[test]
fn push_front_adds_element_to_front() {
    let mut iter = UnvisitedIterator::from_value(1);
    iter.push_front(2);
    assert_eq!(iter.pending_front(), Some(2));
}

#[test]
fn push_back_adds_element_to_back() {
    let mut iter = UnvisitedIterator::from_value(1);
    iter.push_back(2);
    assert_eq!(iter.pending_back(), Some(2));
}

#[test]
fn single_value_produced_once_then_end() {
    let mut iter = UnvisitedIterator::from_value(1);
    assert_eq!(iter.next(), Some(1));
    assert_eq!(iter.next(), None);
}

#[test]
fn push_front_is_produced_before_seed() {
    let mut iter = UnvisitedIterator::from_value(1);
    iter.push_front(2);
    assert_eq!(iter.next(), Some(2));
    assert_eq!(iter.next(), Some(1));
    assert_eq!(iter.next(), None);
}

#[test]
fn push_back_is_produced_after_seed() {
    let mut iter = UnvisitedIterator::from_value(1);
    iter.push_back(2);
    assert_eq!(iter.next(), Some(1));
    assert_eq!(iter.next(), Some(2));
    assert_eq!(iter.next(), None);
}

#[test]
fn exhausted_worklist_is_revived_only_by_fresh_values() {
    let mut iter = UnvisitedIterator::from_iter(vec![1, 2, 3]);
    assert_eq!(iter.next(), Some(1));
    assert_eq!(iter.next(), Some(2));
    assert_eq!(iter.next(), Some(3));
    assert_eq!(iter.next(), None);
    iter.push_back(2);
    assert_eq!(iter.next(), None);
    iter.push_back(4);
    assert_eq!(iter.next(), Some(4));
}

#[test]
fn empty_source_is_exhausted_immediately() {
    let mut iter = UnvisitedIterator::from_iter(vec![]);
    assert_eq!(iter.pending_len(), 0);
    assert_eq!(iter.pending_front(), None);
    assert_eq!(iter.pending_back(), None);
    assert_eq!(iter.next(), None);
    assert_eq!(iter.next(), None);
}

#[test]
fn no_value_is_produced_twice_across_mixed_operations() {
    let mut iter = UnvisitedIterator::from_iter(vec![5, 6]);
    let mut seen = Vec::new();
    assert_eq!(iter.next(), Some(5));
    seen.push(5);
    iter.push_front(5);
    iter.push_front(7);
    iter.push_back(6);
    iter.push_back(5);
    loop {
        match iter.next() {
            Some(v) => {
                assert!(!seen.contains(&v));
                seen.push(v);
            }
            None => break,
        }
    }
    assert_eq!(seen, vec![5, 7, 6]);
}

#[test]
fn repeated_duplicates_collapse_to_one_production() {
    let mut iter = UnvisitedIterator::from_iter(vec![9, 9, 9, 9]);
    assert_eq!(iter.next(), Some(9));
    assert_eq!(iter.next(), None);
}

#[test]
fn skip_visited_adapts_a_sequence() {
    let mut iter = vec![1, 2, 1, 3].skip_visited();
    assert_eq!(iter.pending_len(), 4);
    assert!(iter.produced_is_empty());
    assert_eq!(iter.next(), Some(1));
    assert_eq!(iter.next(), Some(2));
    assert_eq!(iter.next(), Some(3));
    assert_eq!(iter.next(), None);
}

#[test]
fn duplicates_already_pending_do_not_block_later_values() {
    let mut iter = UnvisitedIterator::from_value(1);
    iter.push_back(1);
    iter.push_back(2);
    iter.push_front(2);
    assert_eq!(iter.pending_len(), 4);
    assert_eq!(iter.next(), Some(2));
    assert_eq!(iter.next(), Some(1));
    assert_eq!(iter.next(), None);
}
