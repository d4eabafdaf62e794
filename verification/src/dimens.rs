//! Value types for the geometry algebra: percentages, sizes and positions.
//! All coordinates are non-negative and live in terminal character cells.
//! Component-wise arithmetic saturates: additions clamp at the largest
//! representable cell coordinate and subtractions clamp at zero, so the
//! geometry can never underflow or overflow silently.

use vstd::prelude::*;

use crate::errors::{CommonResult, LayoutError, LayoutErrorType};

verus! {

/// The base unit of terminal geometry: one character cell.
pub type UnitType = u16;

/// Saturating component addition on cell coordinates.
pub open spec fn sat_add_unit(a: UnitType, b: UnitType) -> UnitType {
    if a + b > u16::MAX {
        u16::MAX
    } else {
        (a + b) as UnitType
    }
}

/// Saturating component subtraction on cell coordinates (clamps at zero).
pub open spec fn sat_sub_unit(a: UnitType, b: UnitType) -> UnitType {
    if a < b {
        0 as UnitType
    } else {
        (a - b) as UnitType
    }
}

/// Executable saturating addition, proved against [`sat_add_unit`].
pub fn unit_add(a: UnitType, b: UnitType) -> (r: UnitType)
    ensures
        r == sat_add_unit(a, b),
{
    if b > u16::MAX - a {
        u16::MAX
    } else {
        a + b
    }
}

/// Executable saturating subtraction, proved against [`sat_sub_unit`].
pub fn unit_sub(a: UnitType, b: UnitType) -> (r: UnitType)
    ensures
        r == sat_sub_unit(a, b),
{
    if a < b {
        0
    } else {
        a - b
    }
}

/// An integer value between 0 and 100 (inclusive).
#[derive(Copy, Clone, PartialEq, Eq, Structural, Debug, Default)]
pub struct Percent {
    pub value: u8,
}

impl Percent {
    /// A percentage is only meaningful within `[0, 100]`.
    pub open spec fn is_valid(&self) -> bool {
        self.value <= 100
    }

    /// Converts a wider integer to a `Percent`; succeeds iff the value lies
    /// in `[0, 100]`.
    pub fn try_and_convert(item: i32) -> (r: Option<Percent>)
        ensures
            r is Some <==> 0 <= item <= 100,
            r is Some ==> r->0.value == item && r->0.is_valid(),
    {
        if item < 0 || item > 100 {
            return None;
        }
        Some(Percent { value: item as u8 })
    }

    /// Converts a wider integer to a `Percent`; fails with
    /// [`LayoutErrorType::InvalidPercentage`] iff the value lies outside
    /// `[0, 100]`.
    pub fn try_from(arg: i32) -> (r: CommonResult<Percent>)
        ensures
            r is Ok <==> 0 <= arg <= 100,
            r is Ok ==> r->Ok_0.value == arg && r->Ok_0.is_valid(),
            r is Err ==> r->Err_0.err_type == LayoutErrorType::InvalidPercentage,
    {
        match Percent::try_and_convert(arg) {
            Some(percent) => Ok(percent),
            None => Err(LayoutError::new(LayoutErrorType::InvalidPercentage)),
        }
    }

    /// Converts a pair of wider integers into a pair of `Percent`s; fails with
    /// [`LayoutErrorType::InvalidPercentage`] iff either component lies
    /// outside `[0, 100]`.
    pub fn try_from_pair(pair: (i32, i32)) -> (r: CommonResult<(Percent, Percent)>)
        ensures
            r is Ok <==> (0 <= pair.0 <= 100 && 0 <= pair.1 <= 100),
            r is Ok ==> r->Ok_0.0.value == pair.0 && r->Ok_0.1.value == pair.1,
            r is Ok ==> r->Ok_0.0.is_valid() && r->Ok_0.1.is_valid(),
            r is Err ==> r->Err_0.err_type == LayoutErrorType::InvalidPercentage,
    {
        let first = Percent::try_and_convert(pair.0);
        let second = Percent::try_and_convert(pair.1);
        match (first, second) {
            (Some(first_pc), Some(second_pc)) => Ok((first_pc, second_pc)),
            _ => Err(LayoutError::new(LayoutErrorType::InvalidPercentage)),
        }
    }

    /// Wrap `self` in `Option`.
    pub fn as_some(&self) -> (r: Option<Percent>)
        ensures
            r == Some(*self),
    {
        Some(*self)
    }
}

/// `floor(percentage / 100 * value)`, as a mathematical value.
pub open spec fn spec_calc_percentage(percentage: Percent, value: UnitType) -> UnitType {
    ((percentage.value as int * value as int) / 100) as UnitType
}

/// Return the calculated percentage of the given value, rounded down.
pub fn calc_percentage(percentage: Percent, value: UnitType) -> (r: UnitType)
    requires
        percentage.is_valid(),
    ensures
        r == spec_calc_percentage(percentage, value),
        r as int == (percentage.value as int * value as int) / 100,
        r <= value,
{
    let p = percentage.value as u32;
    let v = value as u32;
    proof {
        assert(p * v <= 100 * 65535) by (nonlinear_arith)
            requires
                p <= 100,
                v <= 65535,
        ;
        assert(p * v / 100 <= v) by (nonlinear_arith)
            requires
                p <= 100,
                0 <= v,
        ;
    }
    let result: u32 = (p * v) / 100;
    result as u16
}

/// A box's desired share of its container, one percentage per axis.
#[derive(Copy, Clone, PartialEq, Eq, Structural, Debug, Default)]
pub struct RequestedSizePercent {
    pub width: Percent,
    pub height: Percent,
}

impl RequestedSizePercent {
    pub open spec fn is_valid(&self) -> bool {
        self.width.is_valid() && self.height.is_valid()
    }

    /// Builds from a pair of wider integers; fails with
    /// [`LayoutErrorType::InvalidPercentage`] iff either component lies
    /// outside `[0, 100]`.
    pub fn try_from(arg: (i32, i32)) -> (r: CommonResult<RequestedSizePercent>)
        ensures
            r is Ok <==> (0 <= arg.0 <= 100 && 0 <= arg.1 <= 100),
            r is Ok ==> r->Ok_0.width.value == arg.0 && r->Ok_0.height.value == arg.1,
            r is Ok ==> r->Ok_0.is_valid(),
            r is Err ==> r->Err_0.err_type == LayoutErrorType::InvalidPercentage,
    {
        match Percent::try_from_pair(arg) {
            Ok(pair) => Ok(
                RequestedSizePercent { width: pair.0, height: pair.1 },
            ),
            Err(e) => Err(e),
        }
    }

    /// Builds from an already validated pair of percentages.
    pub fn from(pair: (Percent, Percent)) -> (r: RequestedSizePercent)
        ensures
            r.width == pair.0,
            r.height == pair.1,
    {
        RequestedSizePercent { width: pair.0, height: pair.1 }
    }

    /// Wrap `self` in `Option`.
    pub fn as_some(&self) -> (r: Option<RequestedSizePercent>)
        ensures
            r == Some(*self),
    {
        Some(*self)
    }
}

/// A rectangle's extent: width (columns) and height (rows).
#[derive(Copy, Clone, PartialEq, Eq, Structural, Debug, Default)]
pub struct Size {
    pub width: UnitType,
    pub height: UnitType,
}

/// An absolute or box-relative cell coordinate: column then row.
#[derive(Copy, Clone, PartialEq, Eq, Structural, Debug, Default)]
pub struct Position {
    pub col: UnitType,
    pub row: UnitType,
}

impl Size {
    pub fn new(width: UnitType, height: UnitType) -> (r: Size)
        ensures
            r.width == width,
            r.height == height,
    {
        Size { width, height }
    }

    /// Shrinks both axes by the same amount, clamping at zero.
    pub fn sub_scalar(self, amount: UnitType) -> (r: Size)
        ensures
            r.width == sat_sub_unit(self.width, amount),
            r.height == sat_sub_unit(self.height, amount),
    {
        Size { width: unit_sub(self.width, amount), height: unit_sub(self.height, amount) }
    }

    /// Grows both axes by the same amount, saturating.
    pub fn add_scalar(self, amount: UnitType) -> (r: Size)
        ensures
            r.width == sat_add_unit(self.width, amount),
            r.height == sat_add_unit(self.height, amount),
    {
        Size { width: unit_add(self.width, amount), height: unit_add(self.height, amount) }
    }

    /// Scales each axis by the corresponding percentage, rounding down.
    pub fn scale(self, width_pc: Percent, height_pc: Percent) -> (r: Size)
        requires
            width_pc.is_valid(),
            height_pc.is_valid(),
        ensures
            r.width == spec_calc_percentage(width_pc, self.width),
            r.height == spec_calc_percentage(height_pc, self.height),
    {
        Size {
            width: calc_percentage(width_pc, self.width),
            height: calc_percentage(height_pc, self.height),
        }
    }
}

impl Position {
    pub fn new(col: UnitType, row: UnitType) -> (r: Position)
        ensures
            r.col == col,
            r.row == row,
    {
        Position { col, row }
    }

    /// Moves by a size: columns advance by the width, rows by the height.
    pub fn add_size(self, other: Size) -> (r: Position)
        ensures
            r.col == sat_add_unit(self.col, other.width),
            r.row == sat_add_unit(self.row, other.height),
    {
        Position { col: unit_add(self.col, other.width), row: unit_add(self.row, other.height) }
    }

    /// Component-wise translation by another position.
    pub fn add_pos(self, other: Position) -> (r: Position)
        ensures
            r.col == sat_add_unit(self.col, other.col),
            r.row == sat_add_unit(self.row, other.row),
    {
        Position { col: unit_add(self.col, other.col), row: unit_add(self.row, other.row) }
    }

    /// Component-wise subtraction, clamping each axis at zero.
    pub fn sub_pos(self, other: Position) -> (r: Position)
        ensures
            r.col == sat_sub_unit(self.col, other.col),
            r.row == sat_sub_unit(self.row, other.row),
    {
        Position { col: unit_sub(self.col, other.col), row: unit_sub(self.row, other.row) }
    }

    /// Shifts both axes by the same amount, saturating.
    pub fn add_scalar(self, amount: UnitType) -> (r: Position)
        ensures
            r.col == sat_add_unit(self.col, amount),
            r.row == sat_add_unit(self.row, amount),
    {
        Position { col: unit_add(self.col, amount), row: unit_add(self.row, amount) }
    }

    /// Wrap `self` in `Option`.
    pub fn as_some(&self) -> (r: Option<Position>)
        ensures
            r == Some(*self),
    {
        Some(*self)
    }
}

} // verus!
