use tui_core::dimens::{
    calc_percentage, unit_add, unit_sub, Percent, Position, RequestedSizePercent, Size,
};
use tui_core::errors::LayoutErrorType;

#[test]
fn test_percent_try_from_accepts_exactly_0_to_100() {
    for n in 0..=100 {
        let percent = Percent::try_from(n).unwrap();
        assert_eq!(percent.value as i32, n);
    }
    for n in [-1, -100, 101, 1000, i32::MIN, i32::MAX] {
        let result = Percent::try_from(n);
        assert_eq!(result.unwrap_err().err_type, LayoutErrorType::InvalidPercentage);
    }
}

#[test]
fn test_percent_try_and_convert() {
    assert_eq!(Percent::try_and_convert(42), Some(Percent { value: 42 }));
    assert_eq!(Percent::try_and_convert(-1), None);
    assert_eq!(Percent::try_and_convert(101), None);
}

#[test]
fn test_percent_try_from_pair() {
    let (w, h) = Percent::try_from_pair((50, 100)).unwrap();
    assert_eq!(w.value, 50);
    assert_eq!(h.value, 100);
    assert!(Percent::try_from_pair((50, 101)).is_err());
    assert!(Percent::try_from_pair((-2, 10)).is_err());
}

#[test]
fn test_percent_as_some() {
    let p = Percent { value: 7 };
    assert_eq!(p.as_some(), Some(p));
    let req = RequestedSizePercent { width: p, height: p };
    assert_eq!(req.as_some(), Some(req));
}

#[test]
fn test_calc_percentage_floors() {
    assert_eq!(calc_percentage(Percent { value: 50 }, 500), 250);
    assert_eq!(calc_percentage(Percent { value: 100 }, 500), 500);
    assert_eq!(calc_percentage(Percent { value: 0 }, 500), 0);
    // 33% of 10 is 3.3, floored to 3.
    assert_eq!(calc_percentage(Percent { value: 33 }, 10), 3);
    // 67% of 3 is 2.01, floored to 2.
    assert_eq!(calc_percentage(Percent { value: 67 }, 3), 2);
    assert_eq!(calc_percentage(Percent { value: 99 }, 65535), 64879);
}

#[test]
fn test_requested_size_percent_try_from() {
    let req = RequestedSizePercent::try_from((50, 100)).unwrap();
    assert_eq!(req.width.value, 50);
    assert_eq!(req.height.value, 100);
    let bad = RequestedSizePercent::try_from((200, 10));
    assert_eq!(bad.unwrap_err().err_type, LayoutErrorType::InvalidPercentage);
    let from_pair = RequestedSizePercent::from((Percent { value: 1 }, Percent { value: 2 }));
    assert_eq!(from_pair.width.value, 1);
    assert_eq!(from_pair.height.value, 2);
}

#[test]
fn test_saturating_unit_arithmetic() {
    assert_eq!(unit_add(65530, 10), u16::MAX);
    assert_eq!(unit_add(1, 2), 3);
    assert_eq!(unit_sub(3, 5), 0);
    assert_eq!(unit_sub(5, 3), 2);
}

#[test]
fn test_position_and_size_algebra() {
    let p = Position { col: 10, row: 20 };
    let s = Size { width: 5, height: 7 };
    assert_eq!(p.add_size(s), Position { col: 15, row: 27 });
    assert_eq!(p.add_pos(Position { col: 1, row: 2 }), Position { col: 11, row: 22 });
    assert_eq!(p.sub_pos(Position { col: 11, row: 2 }), Position { col: 0, row: 18 });
    assert_eq!(p.add_scalar(3), Position { col: 13, row: 23 });
    assert_eq!(s.add_scalar(1), Size { width: 6, height: 8 });
    assert_eq!(s.sub_scalar(6), Size { width: 0, height: 1 });
    assert_eq!(
        Size { width: 500, height: 500 }.scale(Percent { value: 50 }, Percent { value: 100 }),
        Size { width: 250, height: 500 }
    );
}
