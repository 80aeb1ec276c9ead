//! Angles in whole degrees and products of a row with a 3x3 matrix.

use vstd::prelude::*;
use vstd::std_specs::ops::{AddSpec, MulSpec};
use std::ops::{Add, Mul};

verus! {

/// The number of degrees in a full turn.
pub const FULL_TURN: i32 = 360;

/// The angle in `0..360` that points the same way as `degrees`.
pub open spec fn sanitized_degrees(degrees: int) -> int {
    degrees % 360
}

/// Brings an angle in whole degrees into `0..360`.
pub fn sanitize_degrees_int(degrees: i32) -> (sanitized: u32)
    ensures
        sanitized as int == sanitized_degrees(degrees as int),
        sanitized < 360,
{
    let remainder: i32 = degrees % FULL_TURN;
    if remainder < 0 {
        (remainder + FULL_TURN) as u32
    } else {
        remainder as u32
    }
}

/// Sanitizing is idempotent, and turning by whole turns changes nothing.
pub proof fn lemma_sanitized_degrees(degrees: int, turns: int)
    ensures
        0 <= sanitized_degrees(degrees) < 360,
        sanitized_degrees(sanitized_degrees(degrees)) == sanitized_degrees(degrees),
        sanitized_degrees(degrees + 360 * turns) == sanitized_degrees(degrees),
        0 <= degrees < 360 ==> sanitized_degrees(degrees) == degrees,
{
    assert((degrees + 360 * turns) % 360 == degrees % 360) by (nonlinear_arith);
}

/// Whether the three products and two sums of one entry of the result can be
/// formed.
pub open spec fn dot_defined<T: Mul<Output = T> + Add<Output = T> + Copy>(
    row: [T; 3],
    line: [T; 3],
) -> bool {
    &&& row[0].mul_req(line[0])
    &&& row[1].mul_req(line[1])
    &&& row[2].mul_req(line[2])
    &&& row[0].mul_spec(line[0]).add_req(row[1].mul_spec(line[1]))
    &&& row[0].mul_spec(line[0]).add_spec(row[1].mul_spec(line[1])).add_req(
        row[2].mul_spec(line[2]),
    )
}

/// The sum of the products of the entries of `row` and `line`, taken from
/// left to right.
pub open spec fn dot<T: Mul<Output = T> + Add<Output = T> + Copy>(row: [T; 3], line: [T; 3]) -> T {
    row[0].mul_spec(line[0]).add_spec(row[1].mul_spec(line[1])).add_spec(row[2].mul_spec(line[2]))
}

/// Multiplies `row` with each line of `matrix`.
pub fn matrix_multiply<T>(row: [T; 3], matrix: [[T; 3]; 3]) -> (product: [T; 3]) where
    T: Mul<Output = T> + Add<Output = T> + Copy,

    requires
        T::obeys_mul_spec(),
        T::obeys_add_spec(),
        dot_defined(row, matrix[0]),
        dot_defined(row, matrix[1]),
        dot_defined(row, matrix[2]),
    ensures
        product[0] == dot(row, matrix[0]),
        product[1] == dot(row, matrix[1]),
        product[2] == dot(row, matrix[2]),
{
    let a = row[0] * matrix[0][0] + row[1] * matrix[0][1] + row[2] * matrix[0][2];
    let b = row[0] * matrix[1][0] + row[1] * matrix[1][1] + row[2] * matrix[1][2];
    let c = row[0] * matrix[2][0] + row[1] * matrix[2][1] + row[2] * matrix[2][2];
    [a, b, c]
}

} // verus!
