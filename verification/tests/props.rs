use option_operations::Error;
use option_operations::div::OptionCheckedDiv;
use option_operations::div::OptionDiv;
use option_operations::div::OptionDivAssign;
use option_operations::div::OptionOverflowingDiv;
use option_operations::div::OptionWrappingDiv;
use option_operations::duration::Duration;

#[test]
fn absence_dominates_every_shape() {
    assert_eq!(7i64.opt_div(None::<i64>), None);
    assert_eq!(7i64.opt_div(&None::<i64>), None);
    assert_eq!(None::<i64>.opt_div(7i64), None);
    assert_eq!(None::<i64>.opt_div(Some(7i64)), None);
    assert_eq!(Some(7i64).opt_div(None::<i64>), None);
    assert_eq!(Some(7i64).opt_div(&None::<i64>), None);
    assert_eq!(None::<i64>.opt_div(None::<i64>), None);

    assert_eq!(7i64.opt_checked_div(None::<i64>), Ok(None));
    assert_eq!(7i64.opt_checked_div(&None::<i64>), Ok(None));
    assert_eq!(None::<i64>.opt_checked_div(7i64), Ok(None));
    assert_eq!(Some(7i64).opt_checked_div(None::<i64>), Ok(None));
    assert_eq!(None::<i64>.opt_checked_div(None::<i64>), Ok(None));
    // Absence wins even over a zero divisor: it is checked first.
    assert_eq!(None::<i64>.opt_checked_div(Some(0i64)), Ok(None));

    assert_eq!(7i64.opt_overflowing_div(None::<i64>), None);
    assert_eq!(None::<i64>.opt_overflowing_div(7i64), None);
    assert_eq!(Some(7i64).opt_overflowing_div(&None::<i64>), None);

    assert_eq!(7i64.opt_wrapping_div(None::<i64>), None);
    assert_eq!(None::<i64>.opt_wrapping_div(7i64), None);
    assert_eq!(Some(7i64).opt_wrapping_div(&None::<i64>), None);

    let mut lhs: i64 = 7;
    lhs.opt_div_assign(None::<i64>);
    assert_eq!(lhs, 7);
    let mut lhs: i64 = 7;
    lhs.opt_div_assign(&None::<i64>);
    assert_eq!(lhs, 7);
    let mut lhs = None::<i64>;
    lhs.opt_div_assign(7i64);
    assert_eq!(lhs, None);
    let mut lhs = Some(7i64);
    lhs.opt_div_assign(None::<i64>);
    assert_eq!(lhs, Some(7));
}

#[test]
fn plain_agrees_with_base_division() {
    let pairs = [(10i64, 3i64), (-10, 3), (10, -3), (-10, -3), (0, 5), (i64::MAX, 1)];
    let mut i = 0;
    while i < pairs.len() {
        let (a, b) = pairs[i];
        assert_eq!(a.opt_div(b), Some(a / b));
        assert_eq!(a.opt_div(Some(b)), Some(a / b));
        assert_eq!(Some(a).opt_div(b), Some(a / b));
        assert_eq!(Some(a).opt_div(Some(b)), Some(a / b));
        i += 1;
    }
}

#[test]
fn checked_returns_exactly_one_outcome() {
    assert_eq!(10i64.opt_checked_div(2i64), Ok(Some(5)));
    assert_eq!(10i64.opt_checked_div(0i64), Err(Error::DivisionByZero));
    assert_eq!(i64::MIN.opt_checked_div(-1i64), Err(Error::Overflow));
    assert_eq!(None::<i64>.opt_checked_div(2i64), Ok(None));
    // A zero divisor is reported before overflow could be assessed.
    assert_eq!(i64::MIN.opt_checked_div(0i64), Err(Error::DivisionByZero));
}

#[test]
fn overflowing_matches_wrapping() {
    let pairs = [(10i64, 3i64), (i64::MIN, -1), (i64::MIN, 1), (-7, 2), (i64::MAX, -1)];
    let mut i = 0;
    while i < pairs.len() {
        let (a, b) = pairs[i];
        let (wrapped, flag) = a.opt_overflowing_div(b).unwrap();
        assert_eq!(Some(wrapped), a.opt_wrapping_div(b));
        assert_eq!(flag, a == i64::MIN && b == -1);
        i += 1;
    }
}

#[test]
fn reference_and_value_agree() {
    let rhs = Some(7i64);
    assert_eq!(21i64.opt_div(&rhs), 21i64.opt_div(rhs));
    assert_eq!(21i64.opt_checked_div(&rhs), 21i64.opt_checked_div(rhs));
    assert_eq!(21i64.opt_overflowing_div(&rhs), 21i64.opt_overflowing_div(rhs));
    assert_eq!(21i64.opt_wrapping_div(&rhs), 21i64.opt_wrapping_div(rhs));
    assert_eq!(Some(21i64).opt_div(&rhs), Some(21i64).opt_div(rhs));
    assert_eq!(Some(21i64).opt_checked_div(&rhs), Some(21i64).opt_checked_div(rhs));
    // The referenced binding is left intact.
    assert_eq!(rhs, Some(7));

    let mut by_ref: i64 = 21;
    by_ref.opt_div_assign(&rhs);
    let mut by_val: i64 = 21;
    by_val.opt_div_assign(rhs);
    assert_eq!(by_ref, by_val);
    assert_eq!(by_ref, 3);
}

#[test]
fn unsigned_never_overflows() {
    assert_eq!(u64::MAX.opt_checked_div(1u64), Ok(Some(u64::MAX)));
    assert_eq!(u64::MAX.opt_overflowing_div(1u64), Some((u64::MAX, false)));
    assert_eq!(u64::MAX.opt_wrapping_div(1u64), Some(u64::MAX));
    assert_eq!(0u64.opt_checked_div(0u64), Err(Error::DivisionByZero));
    assert_eq!(255u8.opt_div(5u8), Some(51));
    assert_eq!(Some(100u32).opt_div(Some(7u32)), Some(14));
}

#[test]
fn other_primitive_widths() {
    assert_eq!(i8::MIN.opt_wrapping_div(-1i8), Some(i8::MIN));
    assert_eq!(i8::MIN.opt_overflowing_div(-1i8), Some((i8::MIN, true)));
    assert_eq!(i8::MIN.opt_checked_div(-1i8), Err(Error::Overflow));
    assert_eq!(i16::MIN.opt_checked_div(-1i16), Err(Error::Overflow));
    assert_eq!(i32::MIN.opt_checked_div(-1i32), Err(Error::Overflow));
    assert_eq!(i128::MIN.opt_checked_div(-1i128), Err(Error::Overflow));
    assert_eq!(isize::MIN.opt_checked_div(-1isize), Err(Error::Overflow));
    assert_eq!(usize::MAX.opt_checked_div(0usize), Err(Error::DivisionByZero));
    assert_eq!(u128::MAX.opt_div(Some(2u128)), Some(u128::MAX / 2));

    let mut lhs: i32 = -9;
    lhs.opt_div_assign(Some(2i32));
    assert_eq!(lhs, -4);
}

#[test]
fn duration_checked_div() {
    let d = Duration::new(10, 500_000_000);
    assert_eq!(d.opt_checked_div(2u32), Ok(Some(Duration::new(5, 250_000_000))));
    assert_eq!(d.opt_checked_div(0u32), Err(Error::DivisionByZero));
    assert_eq!(Some(d).opt_checked_div(2u32), Ok(Some(Duration::new(5, 250_000_000))));
    assert_eq!(d.opt_checked_div(Some(2u32)), Ok(Some(Duration::new(5, 250_000_000))));
    assert_eq!(d.opt_checked_div(&Some(2u32)), Ok(Some(Duration::new(5, 250_000_000))));
    assert_eq!(d.opt_checked_div(None::<u32>), Ok(None));
    assert_eq!(None::<Duration>.opt_checked_div(2u32), Ok(None));

    // Whole seconds carry into the nanosecond remainder.
    let odd = Duration::new(3, 0);
    assert_eq!(odd.opt_checked_div(2u32), Ok(Some(Duration::new(1, 500_000_000))));

    // The quotient truncates at nanosecond resolution.
    let tiny = Duration::new(0, 3);
    assert_eq!(tiny.opt_checked_div(2u32), Ok(Some(Duration::new(0, 1))));

    // A divisor of at least one only shrinks the span: no overflow.
    let huge = Duration::new(u64::MAX, 999_999_999);
    assert_eq!(huge.opt_checked_div(1u32), Ok(Some(huge)));
}

#[test]
fn duration_accessors() {
    let d = Duration::new(7, 123_456_789);
    assert_eq!(d.as_secs(), 7);
    assert_eq!(d.subsec_nanos(), 123_456_789);
}
