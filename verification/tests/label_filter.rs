use metrix::instruments::{AcceptsLabel, LabelPredicate, LP};
use metrix::instruments::{LabelFilter, LabelFilterInternal};

#[test]
fn label_filter_empty_filter() {
    let filter = LabelFilter::accept_none();
    assert!(!filter.accepts(&1));
}

#[test]
fn label_filter_accept_all_filter() {
    let filter = LabelFilter::accept_all();
    assert!(filter.accepts(&1));
    assert!(filter.accepts(&2));
    assert!(filter.accepts(&3));
}

#[test]
fn label_filter_accept_one_filter() {
    let filter: LabelFilter<_> = 1.into();
    assert!(!filter.accepts(&0));
    assert!(filter.accepts(&1));
    assert!(!filter.accepts(&2));
    assert!(!filter.accepts(&3));
    assert!(!filter.accepts(&4));
    assert!(!filter.accepts(&5));
    assert!(!filter.accepts(&6));
}

#[test]
fn label_filter_accept_two_filter() {
    let filter: LabelFilter<_> = (1, 2).into();
    assert!(!filter.accepts(&0));
    assert!(filter.accepts(&1));
    assert!(filter.accepts(&2));
    assert!(!filter.accepts(&3));
    assert!(!filter.accepts(&4));
    assert!(!filter.accepts(&5));
    assert!(!filter.accepts(&6));
}

#[test]
fn label_filter_accept_three_filter() {
    let filter: LabelFilter<_> = (1, 2, 3).into();
    assert!(!filter.accepts(&0));
    assert!(filter.accepts(&1));
    assert!(filter.accepts(&2));
    assert!(filter.accepts(&3));
    assert!(!filter.accepts(&4));
    assert!(!filter.accepts(&5));
    assert!(!filter.accepts(&6));
}

#[test]
fn label_filter_accept_four_filter() {
    let filter: LabelFilter<_> = (1, 2, 3, 4).into();
    assert!(!filter.accepts(&0));
    assert!(filter.accepts(&1));
    assert!(filter.accepts(&2));
    assert!(filter.accepts(&3));
    assert!(filter.accepts(&4));
    assert!(!filter.accepts(&5));
    assert!(!filter.accepts(&6));
}

#[test]
fn label_filter_accept_five_filter() {
    let filter: LabelFilter<_> = (1, 2, 3, 4, 5).into();
    assert!(!filter.accepts(&0));
    assert!(filter.accepts(&1));
    assert!(filter.accepts(&2));
    assert!(filter.accepts(&3));
    assert!(filter.accepts(&4));
    assert!(filter.accepts(&5));
    assert!(!filter.accepts(&6));
}

#[test]
fn label_filter_accept_many_filter() {
    let filter: LabelFilter<_> = vec![1, 2, 3, 4, 5].into();
    assert!(!filter.accepts(&0));
    assert!(filter.accepts(&1));
    assert!(filter.accepts(&2));
    assert!(filter.accepts(&3));
    assert!(filter.accepts(&4));
    assert!(filter.accepts(&5));
    assert!(!filter.accepts(&6));
}

#[test]
fn label_filter_many_filters() {
    let max = 20;
    for n in 1..max {
        let mut labels = Vec::new();
        for i in 1..=n {
            labels.push(i);
        }

        let filter: LabelFilter<_> = labels.into();

        assert!(!filter.accepts(&0));
        assert!(!filter.accepts(&max));

        for i in 1..=n {
            assert!(filter.accepts(&i));
        }
    }
}

#[test]
fn empty_filter() {
    let filter = LabelFilterInternal::AcceptNone;
    assert!(!filter.accepts(&1));
}

#[test]
fn accept_all_filter() {
    let filter = LabelFilterInternal::AcceptAll;
    assert!(filter.accepts(&1));
    assert!(filter.accepts(&2));
    assert!(filter.accepts(&3));
}

#[test]
fn accept_one_filter() {
    let filter = LabelFilterInternal::One(1);
    assert!(!filter.accepts(&0));
    assert!(filter.accepts(&1));
    assert!(!filter.accepts(&2));
    assert!(!filter.accepts(&3));
    assert!(!filter.accepts(&4));
    assert!(!filter.accepts(&5));
    assert!(!filter.accepts(&6));
}

#[test]
fn accept_two_filter() {
    let filter = LabelFilterInternal::Two(1, 2);
    assert!(!filter.accepts(&0));
    assert!(filter.accepts(&1));
    assert!(filter.accepts(&2));
    assert!(!filter.accepts(&3));
    assert!(!filter.accepts(&4));
    assert!(!filter.accepts(&5));
    assert!(!filter.accepts(&6));
}

#[test]
fn accept_three_filter() {
    let filter = LabelFilterInternal::Three(1, 2, 3);
    assert!(!filter.accepts(&0));
    assert!(filter.accepts(&1));
    assert!(filter.accepts(&2));
    assert!(filter.accepts(&3));
    assert!(!filter.accepts(&4));
    assert!(!filter.accepts(&5));
    assert!(!filter.accepts(&6));
}

#[test]
fn accept_four_filter() {
    let filter = LabelFilterInternal::Four(1, 2, 3, 4);
    assert!(!filter.accepts(&0));
    assert!(filter.accepts(&1));
    assert!(filter.accepts(&2));
    assert!(filter.accepts(&3));
    assert!(filter.accepts(&4));
    assert!(!filter.accepts(&5));
    assert!(!filter.accepts(&6));
}

#[test]
fn accept_five_filter() {
    let filter = LabelFilterInternal::Five(1, 2, 3, 4, 5);
    assert!(!filter.accepts(&0));
    assert!(filter.accepts(&1));
    assert!(filter.accepts(&2));
    assert!(filter.accepts(&3));
    assert!(filter.accepts(&4));
    assert!(filter.accepts(&5));
    assert!(!filter.accepts(&6));
}

#[test]
fn accept_many_filter() {
    let filter = LabelFilterInternal::Many(vec![1, 2, 3, 4, 5]);
    assert!(!filter.accepts(&0));
    assert!(filter.accepts(&1));
    assert!(filter.accepts(&2));
    assert!(filter.accepts(&3));
    assert!(filter.accepts(&4));
    assert!(filter.accepts(&5));
    assert!(!filter.accepts(&6));
}

#[test]
fn many_filters() {
    let max = 20;
    for n in 1..max {
        let mut labels = Vec::new();
        for i in 1..=n {
            labels.push(i);
        }

        let filter = LabelFilterInternal::many(labels);

        assert!(!filter.accepts(&0));
        assert!(!filter.accepts(&max));

        for i in 1..=n {
            assert!(filter.accepts(&i));
        }
    }
}

/// A predicate that accepts even labels.
struct Even;

impl AcceptsLabel<u32> for Even {
    fn accepts_label(&self, label: &u32) -> bool {
        label % 2 == 0
    }
}

#[test]
fn a_wrapped_predicate_decides_for_the_filter() {
    assert!(LabelPredicate(Even).accepts_label(&2));
    assert!(!LP(Even).accepts_label(&3));
    let filter = LabelFilter::predicate(LP(Even));
    assert!(filter.accepts(&4));
    assert!(!filter.accepts(&5));
}
