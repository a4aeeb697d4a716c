//! Body-mass index as an exact ratio, and its classification.
//!
//! Weights are whole milligrams and heights whole micrometres, so that a
//! body-mass index in kg/m² is the ratio of two integers and every comparison
//! with a threshold is exact.

use vstd::prelude::*;

verus! {

/// Milligrams in a kilogram, and micrometres in a metre.
pub const MICRO: i64 = 1_000_000;

/// The three bands of the body-mass index.
#[derive(Clone, Copy, Debug, PartialEq, Eq, Structural)]
pub enum BmiCategory {
    /// Below 18.5.
    Underweight,
    /// From 18.5 up to, but not including, 25.
    Normal,
    /// 25 and above.
    Overweight,
}

impl BmiCategory {
    /// The category's number: 0, 1 or 2, from the lightest band up.
    pub open spec fn spec_code(self) -> u8 {
        match self {
            BmiCategory::Underweight => 0,
            BmiCategory::Normal => 1,
            BmiCategory::Overweight => 2,
        }
    }

    /// The category's number: 0, 1 or 2, from the lightest band up.
    pub fn code(self) -> (c: u8)
        ensures
            c == self.spec_code(),
    {
        match self {
            BmiCategory::Underweight => 0,
            BmiCategory::Normal => 1,
            BmiCategory::Overweight => 2,
        }
    }
}

/// A body-mass index in kg/m², held exactly as a numerator over a positive
/// denominator.
#[derive(Clone, Copy, Debug)]
pub struct Bmi {
    num: i64,
    den: u64,
}

/// The numerator and denominator of the body-mass index for a weight in
/// milligrams and a height in micrometres: the weight in kg over the square
/// of the height in m where the height is positive, and zero where it is not.
pub open spec fn bmi_ratio(weight_mg: int, height_um: int) -> (int, int) {
    if height_um > 0 {
        (weight_mg * MICRO, height_um * height_um)
    } else {
        (0, 1)
    }
}

/// The band that the ratio `num / den` falls into, for a positive `den`.
pub open spec fn category_of(num: int, den: int) -> BmiCategory {
    if 2 * num < 37 * den {
        BmiCategory::Underweight
    } else if num < 25 * den {
        BmiCategory::Normal
    } else {
        BmiCategory::Overweight
    }
}

/// The band of the body-mass index for a weight in milligrams and a height
/// in micrometres.
pub open spec fn spec_bmi_category(weight_mg: int, height_um: int) -> BmiCategory {
    category_of(bmi_ratio(weight_mg, height_um).0, bmi_ratio(weight_mg, height_um).1)
}

/// The band depends on the value of the ratio alone, not on the numerator and
/// denominator that it is written with.
pub proof fn lemma_category_of_equal_ratios(n1: int, d1: int, n2: int, d2: int)
    requires
        d1 > 0,
        d2 > 0,
        n1 * d2 == n2 * d1,
    ensures
        category_of(n1, d1) == category_of(n2, d2),
{
    assert(2 * n1 < 37 * d1 <==> 2 * n2 < 37 * d2) by (nonlinear_arith)
        requires
            d1 > 0,
            d2 > 0,
            n1 * d2 == n2 * d1,
    ;
    assert(n1 < 25 * d1 <==> n2 < 25 * d2) by (nonlinear_arith)
        requires
            d1 > 0,
            d2 > 0,
            n1 * d2 == n2 * d1,
    ;
}

/// A greater ratio never falls into a lower band.
pub proof fn lemma_category_of_monotone(n1: int, d1: int, n2: int, d2: int)
    requires
        d1 > 0,
        d2 > 0,
        n1 * d2 <= n2 * d1,
    ensures
        category_of(n1, d1).spec_code() <= category_of(n2, d2).spec_code(),
{
    assert(2 * n2 < 37 * d2 ==> 2 * n1 < 37 * d1) by (nonlinear_arith)
        requires
            d1 > 0,
            d2 > 0,
            n1 * d2 <= n2 * d1,
    ;
    assert(n2 < 25 * d2 ==> n1 < 25 * d1) by (nonlinear_arith)
        requires
            d1 > 0,
            d2 > 0,
            n1 * d2 <= n2 * d1,
    ;
}

/// The two products that a comparison of `num / den` with `n / d` is made of
/// stay far inside the range of `i128`.
proof fn lemma_cross_products_fit(num: int, den: int, n: int, d: int)
    requires
        i64::MIN <= num <= i64::MAX,
        0 <= den <= u64::MAX,
        0 <= n <= u8::MAX,
        0 <= d <= u8::MAX,
    ensures
        i128::MIN <= num * d <= i128::MAX,
        i128::MIN <= n * den <= i128::MAX,
{
    assert(-0x8000_0000_0000_0000 * 0xff <= num * d <= 0x8000_0000_0000_0000 * 0xff)
        by (nonlinear_arith)
        requires
            -0x8000_0000_0000_0000 <= num <= 0x8000_0000_0000_0000,
            0 <= d <= 0xff,
    ;
    assert(0 <= n * den <= 0xff * 0xffff_ffff_ffff_ffff) by (nonlinear_arith)
        requires
            0 <= den <= 0xffff_ffff_ffff_ffff,
            0 <= n <= 0xff,
    ;
}

impl Bmi {
    #[verifier::type_invariant]
    spec fn positive_denominator(self) -> bool {
        self.den > 0
    }

    /// The numerator of the ratio.
    pub closed spec fn num(self) -> int {
        self.num as int
    }

    /// The denominator of the ratio.
    pub closed spec fn den(self) -> int {
        self.den as int
    }

    /// Both parts of the ratio.
    pub open spec fn ratio(self) -> (int, int) {
        (self.num(), self.den())
    }

    /// The ratio `num / den`, which exists where `den` is not zero.
    pub fn new(num: i64, den: u64) -> (r: Option<Bmi>)
        ensures
            r is Some <==> den != 0,
            r matches Some(b) ==> b.num() == num && b.den() == den,
    {
        if den == 0 {
            None
        } else {
            Some(Bmi { num, den })
        }
    }

    /// The numerator of the ratio.
    pub fn numerator(&self) -> (n: i64)
        ensures
            n == self.num(),
    {
        self.num
    }

    /// The denominator of the ratio, which is positive.
    pub fn denominator(&self) -> (d: u64)
        ensures
            d == self.den(),
            d > 0,
    {
        proof {
            use_type_invariant(self);
        }
        self.den
    }

    /// Whether the index is less than `n / d`, for a positive `d`.
    pub open spec fn is_below(self, n: int, d: int) -> bool {
        self.num() * d < n * self.den()
    }

    /// Whether the index is greater than `n / d`, for a positive `d`.
    pub open spec fn is_above(self, n: int, d: int) -> bool {
        self.num() * d > n * self.den()
    }

    /// Whether the index is less than `n / d`.
    pub(crate) fn below(&self, n: u8, d: u8) -> (r: bool)
        requires
            d > 0,
        ensures
            r == self.is_below(n as int, d as int),
    {
        proof {
            lemma_cross_products_fit(self.num as int, self.den as int, n as int, d as int);
        }
        let lhs: i128 = (self.num as i128) * (d as i128);
        let rhs: i128 = (n as i128) * (self.den as i128);
        lhs < rhs
    }

    /// Whether the index is greater than `n / d`.
    pub(crate) fn above(&self, n: u8, d: u8) -> (r: bool)
        requires
            d > 0,
        ensures
            r == self.is_above(n as int, d as int),
    {
        proof {
            lemma_cross_products_fit(self.num as int, self.den as int, n as int, d as int);
        }
        let lhs: i128 = (self.num as i128) * (d as i128);
        let rhs: i128 = (n as i128) * (self.den as i128);
        lhs > rhs
    }

    /// The band that the index falls into.
    pub fn category(&self) -> (c: BmiCategory)
        ensures
            c == category_of(self.num(), self.den()),
    {
        if self.below(37, 2) {
            BmiCategory::Underweight
        } else if self.below(25, 1) {
            BmiCategory::Normal
        } else {
            BmiCategory::Overweight
        }
    }
}

/// The body-mass index of a weight in milligrams and a height in
/// micrometres: exactly the weight in kg over the square of the height in m.
/// A height that is not positive gives the index zero.
pub fn calculate_bmi(weight_mg: i32, height_um: i32) -> (bmi: Bmi)
    ensures
        height_um > 0 ==> bmi.num() == weight_mg * MICRO && bmi.den() == height_um * height_um,
        height_um <= 0 ==> bmi.num() == 0 && bmi.den() == 1,
        bmi.ratio() == bmi_ratio(weight_mg as int, height_um as int),
{
    if height_um <= 0 {
        return Bmi { num: 0, den: 1 };
    }
    let w: i64 = weight_mg as i64;
    let h: u64 = height_um as u64;
    assert(-0x8000_0000 * MICRO <= w * MICRO <= 0x8000_0000 * MICRO) by (nonlinear_arith)
        requires
            -0x8000_0000 <= w <= 0x8000_0000,
    ;
    assert(0 < h * h <= 0x8000_0000 * 0x8000_0000) by (nonlinear_arith)
        requires
            0 < h <= 0x8000_0000,
    ;
    Bmi { num: w * MICRO, den: h * h }
}

} // verus!
