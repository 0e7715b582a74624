use option_operations::Error;
use option_operations::div::OptionCheckedDiv;
use option_operations::div::OptionDiv;
use option_operations::div::OptionDivAssign;
use option_operations::div::OptionOverflowingDiv;
use option_operations::div::OptionWrappingDiv;
use option_operations::my_int::MyInt;

#[test]
fn div_my() {
    assert_eq!(MyInt(5).opt_div(MyInt(1)), Some(MyInt(5)));
    assert_eq!(Some(MyInt(10)).opt_div(MyInt(2)), Some(MyInt(5)));
    assert_eq!(MyInt(0).opt_div(Some(MyInt(1))), Some(MyInt(0)));
    assert_eq!(
        MyInt(i64::MAX).opt_div(&Some(MyInt(2))),
        Some(MyInt(i64::MAX / 2))
    );
    assert_eq!(MyInt(1).opt_div(None::<MyInt>), None);
    assert_eq!(None::<MyInt>.opt_div(MyInt(1)), None);
}

#[test]
#[should_panic]
fn div_by_zero_my() {
    let _ = Some(MyInt(10)).opt_div(Some(MyInt(0)));
}

#[test]
fn div_i64() {
    assert_eq!(MyInt(5).opt_div(5), Some(MyInt(1)));
    assert_eq!(Some(MyInt(10)).opt_div(MyInt(2)), Some(MyInt(5)));
    assert_eq!(MyInt(0).opt_div(Some(1)), Some(MyInt(0)));
    assert_eq!(MyInt(i64::MAX).opt_div(Some(2)), Some(MyInt(i64::MAX / 2)));
    assert_eq!(MyInt(1).opt_div(Option::<i64>::None), None);
    assert_eq!(Option::<MyInt>::None.opt_div(MyInt(1)), None);
}

#[test]
#[should_panic]
fn div_by_zero_i64() {
    let _ = Some(MyInt(10)).opt_div(Some(0));
}

#[test]
fn div_assign_my() {
    let mut my = MyInt(5);
    my.opt_div_assign(MyInt(1));
    assert_eq!(my, MyInt(5));

    let mut some = Some(MyInt(10));
    some.opt_div_assign(MyInt(5));
    assert_eq!(some, Some(MyInt(2)));

    let mut my = MyInt(0);
    my.opt_div_assign(Some(MyInt(1)));
    assert_eq!(my, MyInt(0));

    let mut my = MyInt(i64::MAX);
    my.opt_div_assign(&Some(MyInt(2)));
    assert_eq!(my, MyInt(i64::MAX / 2));

    let mut my = MyInt(1);
    my.opt_div_assign(None::<MyInt>);
    assert_eq!(my, MyInt(1));

    let mut some = Some(MyInt(2));
    some.opt_div_assign(Some(MyInt(1)));
    assert_eq!(some, Some(MyInt(2)));

    let mut some = Some(MyInt(10));
    some.opt_div_assign(&Some(MyInt(2)));
    assert_eq!(some, Some(MyInt(5)));

    let mut some = Some(MyInt(1));
    some.opt_div_assign(None::<MyInt>);
    assert_eq!(some, Some(MyInt(1)));

    let mut none = None::<MyInt>;
    none.opt_div_assign(Some(MyInt(1)));
    assert_eq!(none, None);

    let mut none = None::<MyInt>;
    none.opt_div_assign(None::<MyInt>);
    assert_eq!(none, None);
}

#[test]
#[should_panic]
fn div_assign_by_zero_my() {
    let mut some = Some(MyInt(10));
    some.opt_div_assign(Some(MyInt(0)));
}

#[test]
fn div_assign_i64() {
    let mut my = MyInt(5);
    my.opt_div_assign(1);
    assert_eq!(my, MyInt(5));

    let mut some = Some(MyInt(10));
    some.opt_div_assign(5);
    assert_eq!(some, Some(MyInt(2)));

    let mut my = MyInt(0);
    my.opt_div_assign(1);
    assert_eq!(my, MyInt(0));

    let mut my = MyInt(i64::MAX);
    my.opt_div_assign(2);
    assert_eq!(my, MyInt(i64::MAX / 2));

    let mut my = MyInt(1);
    my.opt_div_assign(Option::<i64>::None);
    assert_eq!(my, MyInt(1));

    let mut some = Some(MyInt(2));
    some.opt_div_assign(1);
    assert_eq!(some, Some(MyInt(2)));

    let mut some = Some(MyInt(1));
    some.opt_div_assign(Option::<i64>::None);
    assert_eq!(some, Some(MyInt(1)));

    let mut none = None::<MyInt>;
    none.opt_div_assign(1);
    assert_eq!(none, None);

    let mut none = None::<MyInt>;
    none.opt_div_assign(Option::<i64>::None);
    assert_eq!(none, None);
}

#[test]
#[should_panic]
fn div_assign_by_zero_i64() {
    let mut some = Some(MyInt(10));
    some.opt_div_assign(Some(0));
}

#[test]
fn checked_div() {
    assert_eq!(MyInt(2).opt_checked_div(MyInt(1)), Ok(Some(MyInt(2))));
    assert_eq!(MyInt(10).opt_checked_div(Some(MyInt(5))), Ok(Some(MyInt(2))));
    assert_eq!(MyInt(0).opt_checked_div(&Some(MyInt(1))), Ok(Some(MyInt(0))));
    assert_eq!(
        MyInt(i64::MAX).opt_checked_div(MyInt(2)),
        Ok(Some(MyInt(i64::MAX / 2)))
    );
    assert_eq!(
        MyInt(i64::MAX).opt_checked_div(MyInt(0)),
        Err(Error::DivisionByZero)
    );
    assert_eq!(
        MyInt(i64::MIN).opt_checked_div(MyInt(-1)),
        Err(Error::Overflow)
    );

    assert_eq!(Some(MyInt(2)).opt_checked_div(MyInt(1)), Ok(Some(MyInt(2))));
    assert_eq!(
        Some(MyInt(10)).opt_checked_div(Some(MyInt(2))),
        Ok(Some(MyInt(5)))
    );
    assert_eq!(
        Some(MyInt(0)).opt_checked_div(&Some(MyInt(1))),
        Ok(Some(MyInt(0)))
    );

    assert_eq!(
        Some(MyInt(i64::MAX)).opt_checked_div(MyInt(2)),
        Ok(Some(MyInt(i64::MAX / 2)))
    );
    assert_eq!(
        Some(MyInt(i64::MAX)).opt_checked_div(MyInt(0)),
        Err(Error::DivisionByZero)
    );
    assert_eq!(
        Some(MyInt(i64::MIN)).opt_checked_div(MyInt(-1)),
        Err(Error::Overflow)
    );
    assert_eq!(
        Some(MyInt(i64::MAX)).opt_checked_div(0),
        Err(Error::DivisionByZero)
    );
    assert_eq!(
        Some(MyInt(i64::MIN)).opt_checked_div(-1),
        Err(Error::Overflow)
    );
    assert_eq!(
        Some(MyInt(i64::MAX)).opt_checked_div(Some(0)),
        Err(Error::DivisionByZero)
    );
    assert_eq!(
        Some(MyInt(i64::MIN)).opt_checked_div(Some(-1)),
        Err(Error::Overflow)
    );
    assert_eq!(
        Some(MyInt(i64::MAX)).opt_checked_div(Some(MyInt(0))),
        Err(Error::DivisionByZero)
    );
    assert_eq!(
        Some(MyInt(i64::MIN)).opt_checked_div(Some(MyInt(-1))),
        Err(Error::Overflow)
    );
    assert_eq!(MyInt(i64::MIN).opt_checked_div(None::<MyInt>), Ok(None));
    assert_eq!(
        None::<MyInt>.opt_checked_div(Some(MyInt(i64::MIN))),
        Ok(None)
    );
}

#[test]
fn overflowing_div() {
    assert_eq!(
        MyInt(2).opt_overflowing_div(MyInt(1)),
        Some((MyInt(2), false))
    );
    assert_eq!(
        MyInt(0).opt_overflowing_div(MyInt(1)),
        Some((MyInt(0), false))
    );
    assert_eq!(
        MyInt(i64::MAX).opt_overflowing_div(MyInt(2)),
        Some((MyInt(i64::MAX / 2), false))
    );
    assert_eq!(
        MyInt(i64::MIN).opt_overflowing_div(MyInt(-1)),
        Some((MyInt(i64::MIN), true))
    );
    assert_eq!(
        Some(MyInt(i64::MIN)).opt_overflowing_div(MyInt(-1)),
        Some((MyInt(i64::MIN), true))
    );
    assert_eq!(
        Some(MyInt(i64::MIN)).opt_overflowing_div(-1),
        Some((MyInt(i64::MIN), true))
    );
    assert_eq!(
        Some(MyInt(i64::MIN)).opt_overflowing_div(Some(-1)),
        Some((MyInt(i64::MIN), true))
    );
    assert_eq!(
        Some(MyInt(i64::MIN)).opt_overflowing_div(&Some(-1)),
        Some((MyInt(i64::MIN), true))
    );
    assert_eq!(
        MyInt(i64::MIN).opt_overflowing_div(Some(MyInt(-1))),
        Some((MyInt(i64::MIN), true))
    );
    assert_eq!(
        MyInt(i64::MIN).opt_overflowing_div(&Some(MyInt(-1))),
        Some((MyInt(i64::MIN), true))
    );
    assert_eq!(MyInt(i64::MIN).opt_overflowing_div(None::<MyInt>), None);
    assert_eq!(
        None::<MyInt>.opt_overflowing_div(MyInt(i64::MIN)),
        None
    );
}

#[test]
fn wrapping_div() {
    assert_eq!(MyInt(2).opt_wrapping_div(MyInt(1)), Some(MyInt(2)));
    assert_eq!(MyInt(0).opt_wrapping_div(MyInt(1)), Some(MyInt(0)));
    assert_eq!(
        MyInt(i64::MIN).opt_wrapping_div(MyInt(-1)),
        Some(MyInt(i64::MIN))
    );
    assert_eq!(
        Some(MyInt(i64::MIN)).opt_wrapping_div(MyInt(-1)),
        Some(MyInt(i64::MIN))
    );
    assert_eq!(
        Some(MyInt(i64::MIN)).opt_wrapping_div(-1),
        Some(MyInt(i64::MIN))
    );
    assert_eq!(
        Some(MyInt(i64::MIN)).opt_wrapping_div(Some(-1)),
        Some(MyInt(i64::MIN))
    );
    assert_eq!(
        Some(MyInt(i64::MIN)).opt_wrapping_div(&Some(-1)),
        Some(MyInt(i64::MIN))
    );
    assert_eq!(
        MyInt(i64::MIN).opt_wrapping_div(Some(MyInt(-1))),
        Some(MyInt(i64::MIN))
    );
    assert_eq!(
        MyInt(i64::MIN).opt_wrapping_div(&Some(MyInt(-1))),
        Some(MyInt(i64::MIN))
    );
    assert_eq!(MyInt(i64::MIN).opt_wrapping_div(None::<MyInt>), None);
    assert_eq!(None::<MyInt>.opt_wrapping_div(MyInt(i64::MIN)), None);
}
