use futures::Tokens;

#[test]
fn all_may_contain_anything() {
    let all = Tokens::all();
    assert!(all.may_contain(&Tokens::from_id(7)));
    assert!(Tokens::from_id(7).may_contain(&all));
    assert!(all.may_contain(&Tokens::all()));
}

#[test]
fn all_may_contain_even_an_empty_set() {
    let none = Tokens::from_id(1).intersect(&Tokens::from_id(2));
    assert!(Tokens::all().may_contain(&none));
    assert!(none.may_contain(&Tokens::all()));
}

#[test]
fn singletons_meet_only_themselves() {
    assert!(Tokens::from_id(3).may_contain(&Tokens::from_id(3)));
    assert!(!Tokens::from_id(3).may_contain(&Tokens::from_id(4)));
    assert!(Tokens::from_id(0).may_contain(&Tokens::from_id(0)));
    assert!(Tokens::from_id(usize::MAX).may_contain(&Tokens::from_id(usize::MAX)));
    assert!(!Tokens::from_id(usize::MAX).may_contain(&Tokens::from_id(0)));
}

#[test]
fn union_holds_both_operands() {
    let u = Tokens::from_id(1).union(&Tokens::from_id(2));
    assert!(u.may_contain(&Tokens::from_id(1)));
    assert!(u.may_contain(&Tokens::from_id(2)));
    assert!(!u.may_contain(&Tokens::from_id(3)));
    assert!(Tokens::from_id(2).may_contain(&u));
}

#[test]
fn union_with_all_is_all() {
    let u = Tokens::from_id(1).union(&Tokens::all());
    assert!(u.may_contain(&Tokens::from_id(99)));
    let none = Tokens::from_id(1).intersect(&Tokens::from_id(2));
    assert!(u.may_contain(&none));
}

#[test]
fn intersection_keeps_what_is_shared() {
    let a = Tokens::from_id(1).union(&Tokens::from_id(2));
    let b = Tokens::from_id(2).union(&Tokens::from_id(3));
    let i = a.intersect(&b);
    assert!(i.may_contain(&Tokens::from_id(2)));
    assert!(!i.may_contain(&Tokens::from_id(1)));
    assert!(!i.may_contain(&Tokens::from_id(3)));
}

#[test]
fn intersection_of_disjoint_sets_meets_nothing() {
    let i = Tokens::from_id(1).intersect(&Tokens::from_id(2));
    assert!(!i.may_contain(&Tokens::from_id(1)));
    assert!(!i.may_contain(&Tokens::from_id(2)));
    assert!(!i.may_contain(&i));
}

#[test]
fn intersection_with_all_is_all() {
    let i = Tokens::from_id(1).intersect(&Tokens::all());
    assert!(i.may_contain(&Tokens::from_id(2)));
    let j = Tokens::all().intersect(&Tokens::from_id(1));
    assert!(j.may_contain(&Tokens::from_id(2)));
}

#[test]
fn a_negative_answer_means_disjoint() {
    let a = Tokens::from_id(1).union(&Tokens::from_id(5));
    let b = Tokens::from_id(2).union(&Tokens::from_id(6));
    assert!(!a.may_contain(&b));
    for id in [1usize, 5] {
        assert!(!b.may_contain(&Tokens::from_id(id)));
    }
    for id in [2usize, 6] {
        assert!(!a.may_contain(&Tokens::from_id(id)));
    }
}

#[test]
fn duplicate_is_the_same_set() {
    let a = Tokens::from_id(1).union(&Tokens::from_id(5));
    let d = a.duplicate();
    assert!(d.may_contain(&Tokens::from_id(1)));
    assert!(d.may_contain(&Tokens::from_id(5)));
    assert!(!d.may_contain(&Tokens::from_id(2)));
    assert!(Tokens::all().duplicate().may_contain(&Tokens::from_id(2)));
}
