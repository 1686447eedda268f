use band_aid::{drain, EmptyProducer, MyIter, OnceProducer, Producer, VecProducer};

#[test]
fn vec_producer_yields_front_to_back() {
    let mut p = VecProducer::new(vec![7, 8, 9]);
    assert_eq!(Some(7), p.next());
    assert_eq!(Some(8), p.next());
    assert_eq!(Some(9), p.next());
    assert_eq!(None, p.next());
    assert_eq!(None, p.next());
}

#[test]
fn once_producer_yields_one_element() {
    let mut p = OnceProducer::new(42);
    assert_eq!(Some(42), p.next());
    assert_eq!(None, p.next());
    assert_eq!(None, p.next());
}

#[test]
fn empty_producer_yields_nothing() {
    let mut p = EmptyProducer::<i32>::new();
    assert_eq!(None, p.next());
    assert_eq!(None, p.next());
}

#[test]
fn drain_collects_everything_in_order() {
    assert_eq!(vec![7, 8, 9], drain(VecProducer::new(vec![7, 8, 9])));
    assert_eq!(Vec::<i32>::new(), drain(VecProducer::new(vec![])));
}

#[test]
fn sum_delegates_to_left() {
    let mut s: MyIter<VecProducer<i32>, OnceProducer<i32>> =
        MyIter::A(VecProducer::new(vec![1, 2]));
    assert_eq!(Some(1), s.next());
    assert_eq!(Some(2), s.next());
    assert_eq!(None, s.next());
}

#[test]
fn sum_delegates_to_right() {
    let mut s: MyIter<VecProducer<i32>, OnceProducer<i32>> = MyIter::B(OnceProducer::new(5));
    assert_eq!(Some(5), s.next());
    assert_eq!(None, s.next());
}
