//! Expressions over values: constants, predicates, comparisons and arithmetic.
use vstd::prelude::*;
use std::marker::PhantomData;
use std::sync::Arc;
use crate::base::EvalError;
use crate::variables::RValue;

verus! {

/// A shared expression evaluates as the expression it shares.
impl<T, R: RValue<T>> RValue<T> for Arc<R> {
    open spec fn eval_result(&self, r: Result<T, EvalError>) -> bool {
        (**self).eval_result(r)
    }

    fn eval(&self) -> (r: Result<T, EvalError>) {
        let inner: &R = &**self;
        inner.eval()
    }
}

/// An expression that always evaluates to the same value.
#[derive(Debug, Clone, Copy)]
pub struct Constant<T> {
    value: T,
}

impl<T: Copy> Constant<T> {
    /// The constant `value`.
    pub fn new(value: T) -> (c: Constant<T>)
        ensures
            c.spec_value() == value,
    {
        Constant { value }
    }

    /// The value of the constant.
    pub closed spec fn spec_value(&self) -> T {
        self.value
    }
}

impl<T: Copy + Send + Sync> RValue<T> for Constant<T> {
    /// A constant evaluates to its value.
    open spec fn eval_result(&self, r: Result<T, EvalError>) -> bool {
        r == Ok::<T, EvalError>(self.spec_value())
    }

    fn eval(&self) -> (r: Result<T, EvalError>)
        ensures
            r == Ok::<T, EvalError>(self.spec_value()),
    {
        Ok(self.value)
    }
}

/// A user-defined function that evaluates to true or false.
pub struct Predicate<F: Fn() -> Result<bool, EvalError> + Send + Sync> {
    predicate: F,
}

impl<F: Fn() -> Result<bool, EvalError> + Send + Sync> Predicate<F> {
    /// The user's predicate may always be called: its precondition holds without arguments.
    #[verifier::type_invariant]
    spec fn callable(&self) -> bool {
        self.predicate.requires(())
    }

    /// A predicate that calls `predicate` on evaluation; the predicate's own precondition
    /// must hold, as it is called whenever the expression is evaluated.
    pub fn new(predicate: F) -> (p: Predicate<F>)
        requires
            predicate.requires(()),
        ensures
            p.spec_predicate() == predicate,
    {
        Predicate { predicate }
    }

    /// The user's predicate.
    pub closed spec fn spec_predicate(&self) -> F {
        self.predicate
    }
}

/// Call the user's predicate, whose precondition holds: its result is one the closure's own
/// contract admits (for a closure without contract, any result).
#[verifier::external_body]
fn call_predicate<F: Fn() -> Result<bool, EvalError>>(predicate: &F) -> (r: Result<bool, EvalError>)
    requires
        predicate.requires(()),
    ensures
        predicate.ensures((), r),
{
    predicate()
}

impl<F: Fn() -> Result<bool, EvalError> + Send + Sync> RValue<bool> for Predicate<F> {
    /// What the user's predicate gives: a result its contract admits.
    open spec fn eval_result(&self, r: Result<bool, EvalError>) -> bool {
        self.spec_predicate().ensures((), r)
    }

    fn eval(&self) -> (r: Result<bool, EvalError>) {
        proof {
            use_type_invariant(self);
        }
        call_predicate(&self.predicate)
    }
}

/// The checked sum of two state values.
pub open spec fn spec_add(a: i64, b: i64) -> Result<i64, EvalError> {
    if a + b > i64::MAX {
        Err(EvalError::Overflow)
    } else if a + b < i64::MIN {
        Err(EvalError::Underflow)
    } else {
        Ok((a + b) as i64)
    }
}

/// The checked difference of two state values.
pub open spec fn spec_sub(a: i64, b: i64) -> Result<i64, EvalError> {
    if a - b > i64::MAX {
        Err(EvalError::Overflow)
    } else if a - b < i64::MIN {
        Err(EvalError::Underflow)
    } else {
        Ok((a - b) as i64)
    }
}

/// The checked product of two state values.
pub open spec fn spec_mul(a: i64, b: i64) -> Result<i64, EvalError> {
    if a * b > i64::MAX {
        Err(EvalError::Overflow)
    } else if a * b < i64::MIN {
        Err(EvalError::Underflow)
    } else {
        Ok((a * b) as i64)
    }
}

/// Integer division rounded toward zero.
pub open spec fn trunc_div(a: int, b: int) -> int {
    let q = abs(a) / abs(b);
    if (a >= 0) == (b > 0) { q } else { -q }
}

/// The absolute value.
pub open spec fn abs(a: int) -> int {
    if a < 0 { -a } else { a }
}

/// The checked quotient, rounded toward zero as integer division does.
pub open spec fn spec_div(a: i64, b: i64) -> Result<i64, EvalError> {
    if b == 0 {
        Err(EvalError::DivisionByZero)
    } else if a == i64::MIN && b == -1 {
        Err(EvalError::Overflow)
    } else {
        Ok(trunc_div(a as int, b as int) as i64)
    }
}

/// The checked negation of a state value.
pub open spec fn spec_neg(a: i64) -> Result<i64, EvalError> {
    if a == i64::MIN {
        Err(EvalError::Overflow)
    } else {
        Ok((-a) as i64)
    }
}

/// Checked arithmetic on state values gives the mathematical result where it fits and an
/// error where it does not: a sum is the sum, in either order; a difference added back to
/// what was taken away gives the first value; a product is the product, in either order,
/// with 0 absorbing and 1 neutral; a negation added to the value gives 0; overflow and
/// underflow are reported exactly where the mathematical result lies above or below the range.
pub proof fn lemma_checked_arith_laws(a: i64, b: i64)
    ensures
        spec_add(a, b) == spec_add(b, a),
        spec_add(a, b) matches Ok(c) ==> c == a + b,
        (spec_add(a, b) is Ok) <==> (i64::MIN <= a + b <= i64::MAX),
        spec_add(a, b) == Err::<i64, EvalError>(EvalError::Overflow) <==> a + b > i64::MAX,
        spec_add(a, b) == Err::<i64, EvalError>(EvalError::Underflow) <==> a + b < i64::MIN,
        spec_add(a, 0) == Ok::<i64, EvalError>(a),
        spec_sub(a, b) matches Ok(c) ==> c + b == a,
        (spec_sub(a, b) is Ok) <==> (i64::MIN <= a - b <= i64::MAX),
        spec_sub(a, a) == Ok::<i64, EvalError>(0),
        spec_mul(a, b) == spec_mul(b, a),
        spec_mul(a, b) matches Ok(c) ==> c == a * b,
        spec_mul(a, 0) == Ok::<i64, EvalError>(0),
        spec_mul(a, 1) == Ok::<i64, EvalError>(a),
        spec_neg(a) matches Ok(c) ==> c + a == 0,
        (spec_neg(a) is Err) <==> a == i64::MIN,
{
    assert(a * b == b * a) by (nonlinear_arith);
    assert(a * 0 == 0) by (nonlinear_arith);
    assert(a * 1 == a) by (nonlinear_arith);
}

/// Checked division of state values: dividing by 0 is the only division-by-zero error, and the
/// one overflow is the smallest value divided by -1. A quotient `q` rounds toward zero: `q`
/// times the divisor lies between 0 and the dividend, less than one divisor away from it, and
/// a value divided by 1 is itself.
pub proof fn lemma_checked_div_laws(a: i64, b: i64)
    ensures
        (spec_div(a, b) == Err::<i64, EvalError>(EvalError::DivisionByZero)) <==> b == 0,
        (spec_div(a, b) == Err::<i64, EvalError>(EvalError::Overflow)) <==> (a == i64::MIN && b == -1),
        spec_div(a, 1) == Ok::<i64, EvalError>(a),
        spec_div(a, b) matches Ok(q) ==> {
            &&& abs(q * b) <= abs(a as int)
            &&& abs(a - q * b) < abs(b as int)
            &&& (q * b == 0 || ((q * b < 0) == (a < 0)))
        },
{
    if b != 0 && !(a == i64::MIN && b == -1) {
        let x = abs(a as int);
        let d = abs(b as int);
        let q0 = x / d;
        vstd::arithmetic::div_mod::lemma_fundamental_div_mod(x, d);
        vstd::arithmetic::div_mod::lemma_mod_bound(x, d);
        let r = x % d;
        assert(x == d * q0 + r);
        assert(q0 >= 0) by (nonlinear_arith) requires x >= 0, d > 0, q0 == x / d;
        let q = trunc_div(a as int, b as int);
        assert(q == q0 || q == -q0);
        assert(abs(q * b) == q0 * d) by (nonlinear_arith)
            requires q == q0 || q == -q0, q0 >= 0, d == abs(b as int), abs(b as int) == (if b < 0 { -b } else { b as int });
        assert(abs(a - q * b) == r) by (nonlinear_arith)
            requires
                x == d * q0 + r, 0 <= r < d, q0 >= 0,
                x == (if a < 0 { -a } else { a as int }), d == (if b < 0 { -b } else { b as int }),
                q == (if (a >= 0) == (b > 0) { q0 } else { -q0 });
        assert(q * b == 0 || ((q * b < 0) == (a < 0))) by (nonlinear_arith)
            requires
                x == d * q0 + r, 0 <= r < d, q0 >= 0,
                x == (if a < 0 { -a } else { a as int }), d == (if b < 0 { -b } else { b as int }),
                q == (if (a >= 0) == (b > 0) { q0 } else { -q0 });
        assert(q == trunc_div(a as int, b as int));
        assert(q0 <= x) by (nonlinear_arith) requires x == d * q0 + r, r >= 0, d >= 1, q0 >= 0;
        assert(d >= 2 ==> 2 * q0 <= x) by (nonlinear_arith) requires x == d * q0 + r, r >= 0, q0 >= 0;
        assert(i64::MIN <= q <= i64::MAX);
    }
    assert(trunc_div(a as int, 1) == a) by {
        vstd::arithmetic::div_mod::lemma_div_basics(abs(a as int));
    }
}

/// Sum of two values; `Overflow` or `Underflow` where it leaves the range.
pub fn add_values(a: i64, b: i64) -> (r: Result<i64, EvalError>)
    ensures
        r == spec_add(a, b),
{
    match a.checked_add(b) {
        Some(v) => Ok(v),
        None => if b > 0 { Err(EvalError::Overflow) } else { Err(EvalError::Underflow) },
    }
}

/// Difference of two values; `Overflow` or `Underflow` where it leaves the range.
pub fn sub_values(a: i64, b: i64) -> (r: Result<i64, EvalError>)
    ensures
        r == spec_sub(a, b),
{
    match a.checked_sub(b) {
        Some(v) => Ok(v),
        None => if b < 0 { Err(EvalError::Overflow) } else { Err(EvalError::Underflow) },
    }
}

/// Product of two values; `Overflow` or `Underflow` where it leaves the range.
pub fn mul_values(a: i64, b: i64) -> (r: Result<i64, EvalError>)
    ensures
        r == spec_mul(a, b),
{
    match a.checked_mul(b) {
        Some(v) => Ok(v),
        None => {
            if (a > 0) == (b > 0) {
                proof {
                    assert(a * b > i64::MAX) by (nonlinear_arith)
                        requires (a > 0) == (b > 0), a * b > i64::MAX || a * b < i64::MIN, a != 0, b != 0;
                }
                Err(EvalError::Overflow)
            } else {
                proof {
                    assert(a * b < i64::MIN) by (nonlinear_arith)
                        requires (a > 0) != (b > 0), a * b > i64::MAX || a * b < i64::MIN;
                }
                Err(EvalError::Underflow)
            }
        },
    }
}

/// Quotient of two values; `DivisionByZero` for a zero divisor, `Overflow` for `MIN / -1`.
pub fn div_values(a: i64, b: i64) -> (r: Result<i64, EvalError>)
    ensures
        r == spec_div(a, b),
{
    if b == 0 {
        Err(EvalError::DivisionByZero)
    } else if a == i64::MIN && b == -1 {
        Err(EvalError::Overflow)
    } else {
        let aa: i128 = if a < 0 { -(a as i128) } else { a as i128 };
        let bb: i128 = if b < 0 { -(b as i128) } else { b as i128 };
        let q: i128 = aa / bb;
        proof {
            assert(0 <= q <= aa) by (nonlinear_arith) requires q == aa / bb, aa >= 0, bb >= 1;
        }
        if (a >= 0) == (b > 0) {
            proof {
                if q > i64::MAX {
                    // only MIN / -1 leaves the range, and it was excluded above
                    if bb >= 2 {
                        assert(q * 2 <= aa) by (nonlinear_arith) requires q == aa / bb, bb >= 2, aa >= 0;
                    }
                    assert(bb == 1);
                }
            }
            Ok(q as i64)
        } else {
            Ok((-q) as i64)
        }
    }
}

/// Negation of a value; `Overflow` for `MIN`.
pub fn neg_value(a: i64) -> (r: Result<i64, EvalError>)
    ensures
        r == spec_neg(a),
{
    if a == i64::MIN {
        Err(EvalError::Overflow)
    } else {
        Ok(-a)
    }
}


/// Whether both operands are equal.
#[verifier::reject_recursive_types(T)]
pub struct Eq<T, U> {
    lhs: Box<dyn RValue<T>>,
    rhs: Box<dyn RValue<T>>,
    _phantom: PhantomData<U>,
}

impl<T, U> Eq<T, U> {
    /// Whether `r` is a result that the left operand may give.
    pub closed spec fn lhs_result(&self, r: Result<T, EvalError>) -> bool {
        self.lhs.eval_result(r)
    }

    /// Whether `r` is a result that the right operand may give.
    pub closed spec fn rhs_result(&self, r: Result<T, EvalError>) -> bool {
        self.rhs.eval_result(r)
    }
}

impl<T: 'static, U> Eq<T, U> {
    /// A new comparison of the two operands.
    pub fn new<L: RValue<T> + 'static, R: RValue<T> + 'static>(lhs: Arc<L>, rhs: Arc<R>) -> (e: Eq<T, U>)
        ensures
            forall|r: Result<T, EvalError>| e.lhs_result(r) == lhs.eval_result(r),
            forall|r: Result<T, EvalError>| e.rhs_result(r) == rhs.eval_result(r),
    {
        Eq { lhs: Box::new(lhs), rhs: Box::new(rhs), _phantom: PhantomData }
    }
}

impl<U: Send + Sync> RValue<bool> for Eq<i64, U> {
    /// The left operand's failure, or the right one's after the left gave a value, or the
    /// operation on the two values.
    open spec fn eval_result(&self, r: Result<bool, EvalError>) -> bool {
        ||| exists|e: EvalError| #[trigger] self.lhs_result(Err(e)) && r == Err::<bool, EvalError>(e)
        ||| exists|a: i64, e: EvalError|
            #[trigger] self.lhs_result(Ok(a)) && #[trigger] self.rhs_result(Err(e))
                && r == Err::<bool, EvalError>(e)
        ||| exists|a: i64, b: i64|
            #[trigger] self.lhs_result(Ok(a)) && #[trigger] self.rhs_result(Ok(b))
                && r == Ok::<bool, EvalError>(a == b)
    }

    /// Evaluate both operands, left first; the first failure is the result.
    fn eval(&self) -> (r: Result<bool, EvalError>) {
        match self.lhs.eval() {
            Err(e) => {
                assert(self.lhs_result(Err(e)));
                Err(e)
            },
            Ok(a) => match self.rhs.eval() {
                Err(e) => {
                    assert(self.lhs_result(Ok(a)) && self.rhs_result(Err(e)));
                    Err(e)
                },
                Ok(b) => {
                    assert(self.lhs_result(Ok(a)) && self.rhs_result(Ok(b)));
                    Ok(a == b)
                },
            },
        }
    }
}

impl<U: Send + Sync> RValue<bool> for Eq<bool, U> {
    /// The left operand's failure, or the right one's after the left gave a value, or the
    /// operation on the two values.
    open spec fn eval_result(&self, r: Result<bool, EvalError>) -> bool {
        ||| exists|e: EvalError| #[trigger] self.lhs_result(Err(e)) && r == Err::<bool, EvalError>(e)
        ||| exists|a: bool, e: EvalError|
            #[trigger] self.lhs_result(Ok(a)) && #[trigger] self.rhs_result(Err(e))
                && r == Err::<bool, EvalError>(e)
        ||| exists|a: bool, b: bool|
            #[trigger] self.lhs_result(Ok(a)) && #[trigger] self.rhs_result(Ok(b))
                && r == Ok::<bool, EvalError>(a == b)
    }

    /// Evaluate both operands, left first; the first failure is the result.
    fn eval(&self) -> (r: Result<bool, EvalError>) {
        match self.lhs.eval() {
            Err(e) => {
                assert(self.lhs_result(Err(e)));
                Err(e)
            },
            Ok(a) => match self.rhs.eval() {
                Err(e) => {
                    assert(self.lhs_result(Ok(a)) && self.rhs_result(Err(e)));
                    Err(e)
                },
                Ok(b) => {
                    assert(self.lhs_result(Ok(a)) && self.rhs_result(Ok(b)));
                    Ok(a == b)
                },
            },
        }
    }
}

/// Whether the operands differ.
#[verifier::reject_recursive_types(T)]
pub struct Neq<T, U> {
    lhs: Box<dyn RValue<T>>,
    rhs: Box<dyn RValue<T>>,
    _phantom: PhantomData<U>,
}

impl<T, U> Neq<T, U> {
    /// Whether `r` is a result that the left operand may give.
    pub closed spec fn lhs_result(&self, r: Result<T, EvalError>) -> bool {
        self.lhs.eval_result(r)
    }

    /// Whether `r` is a result that the right operand may give.
    pub closed spec fn rhs_result(&self, r: Result<T, EvalError>) -> bool {
        self.rhs.eval_result(r)
    }
}

impl<T: 'static, U> Neq<T, U> {
    /// A new comparison of the two operands.
    pub fn new<L: RValue<T> + 'static, R: RValue<T> + 'static>(lhs: Arc<L>, rhs: Arc<R>) -> (e: Neq<T, U>)
        ensures
            forall|r: Result<T, EvalError>| e.lhs_result(r) == lhs.eval_result(r),
            forall|r: Result<T, EvalError>| e.rhs_result(r) == rhs.eval_result(r),
    {
        Neq { lhs: Box::new(lhs), rhs: Box::new(rhs), _phantom: PhantomData }
    }
}

impl<U: Send + Sync> RValue<bool> for Neq<i64, U> {
    /// The left operand's failure, or the right one's after the left gave a value, or the
    /// operation on the two values.
    open spec fn eval_result(&self, r: Result<bool, EvalError>) -> bool {
        ||| exists|e: EvalError| #[trigger] self.lhs_result(Err(e)) && r == Err::<bool, EvalError>(e)
        ||| exists|a: i64, e: EvalError|
            #[trigger] self.lhs_result(Ok(a)) && #[trigger] self.rhs_result(Err(e))
                && r == Err::<bool, EvalError>(e)
        ||| exists|a: i64, b: i64|
            #[trigger] self.lhs_result(Ok(a)) && #[trigger] self.rhs_result(Ok(b))
                && r == Ok::<bool, EvalError>(a != b)
    }

    /// Evaluate both operands, left first; the first failure is the result.
    fn eval(&self) -> (r: Result<bool, EvalError>) {
        match self.lhs.eval() {
            Err(e) => {
                assert(self.lhs_result(Err(e)));
                Err(e)
            },
            Ok(a) => match self.rhs.eval() {
                Err(e) => {
                    assert(self.lhs_result(Ok(a)) && self.rhs_result(Err(e)));
                    Err(e)
                },
                Ok(b) => {
                    assert(self.lhs_result(Ok(a)) && self.rhs_result(Ok(b)));
                    Ok(a != b)
                },
            },
        }
    }
}

impl<U: Send + Sync> RValue<bool> for Neq<bool, U> {
    /// The left operand's failure, or the right one's after the left gave a value, or the
    /// operation on the two values.
    open spec fn eval_result(&self, r: Result<bool, EvalError>) -> bool {
        ||| exists|e: EvalError| #[trigger] self.lhs_result(Err(e)) && r == Err::<bool, EvalError>(e)
        ||| exists|a: bool, e: EvalError|
            #[trigger] self.lhs_result(Ok(a)) && #[trigger] self.rhs_result(Err(e))
                && r == Err::<bool, EvalError>(e)
        ||| exists|a: bool, b: bool|
            #[trigger] self.lhs_result(Ok(a)) && #[trigger] self.rhs_result(Ok(b))
                && r == Ok::<bool, EvalError>(a != b)
    }

    /// Evaluate both operands, left first; the first failure is the result.
    fn eval(&self) -> (r: Result<bool, EvalError>) {
        match self.lhs.eval() {
            Err(e) => {
                assert(self.lhs_result(Err(e)));
                Err(e)
            },
            Ok(a) => match self.rhs.eval() {
                Err(e) => {
                    assert(self.lhs_result(Ok(a)) && self.rhs_result(Err(e)));
                    Err(e)
                },
                Ok(b) => {
                    assert(self.lhs_result(Ok(a)) && self.rhs_result(Ok(b)));
                    Ok(a != b)
                },
            },
        }
    }
}

/// Whether the left operand is less than the right one.
#[verifier::reject_recursive_types(T)]
pub struct Lt<T, U> {
    lhs: Box<dyn RValue<T>>,
    rhs: Box<dyn RValue<T>>,
    _phantom: PhantomData<U>,
}

impl<T, U> Lt<T, U> {
    /// Whether `r` is a result that the left operand may give.
    pub closed spec fn lhs_result(&self, r: Result<T, EvalError>) -> bool {
        self.lhs.eval_result(r)
    }

    /// Whether `r` is a result that the right operand may give.
    pub closed spec fn rhs_result(&self, r: Result<T, EvalError>) -> bool {
        self.rhs.eval_result(r)
    }
}

impl<T: 'static, U> Lt<T, U> {
    /// A new comparison of the two operands.
    pub fn new<L: RValue<T> + 'static, R: RValue<T> + 'static>(lhs: Arc<L>, rhs: Arc<R>) -> (e: Lt<T, U>)
        ensures
            forall|r: Result<T, EvalError>| e.lhs_result(r) == lhs.eval_result(r),
            forall|r: Result<T, EvalError>| e.rhs_result(r) == rhs.eval_result(r),
    {
        Lt { lhs: Box::new(lhs), rhs: Box::new(rhs), _phantom: PhantomData }
    }
}

impl<U: Send + Sync> RValue<bool> for Lt<i64, U> {
    /// The left operand's failure, or the right one's after the left gave a value, or the
    /// operation on the two values.
    open spec fn eval_result(&self, r: Result<bool, EvalError>) -> bool {
        ||| exists|e: EvalError| #[trigger] self.lhs_result(Err(e)) && r == Err::<bool, EvalError>(e)
        ||| exists|a: i64, e: EvalError|
            #[trigger] self.lhs_result(Ok(a)) && #[trigger] self.rhs_result(Err(e))
                && r == Err::<bool, EvalError>(e)
        ||| exists|a: i64, b: i64|
            #[trigger] self.lhs_result(Ok(a)) && #[trigger] self.rhs_result(Ok(b))
                && r == Ok::<bool, EvalError>(a < b)
    }

    /// Evaluate both operands, left first; the first failure is the result.
    fn eval(&self) -> (r: Result<bool, EvalError>) {
        match self.lhs.eval() {
            Err(e) => {
                assert(self.lhs_result(Err(e)));
                Err(e)
            },
            Ok(a) => match self.rhs.eval() {
                Err(e) => {
                    assert(self.lhs_result(Ok(a)) && self.rhs_result(Err(e)));
                    Err(e)
                },
                Ok(b) => {
                    assert(self.lhs_result(Ok(a)) && self.rhs_result(Ok(b)));
                    Ok(a < b)
                },
            },
        }
    }
}

/// Whether the left operand is at most the right one.
#[verifier::reject_recursive_types(T)]
pub struct Lte<T, U> {
    lhs: Box<dyn RValue<T>>,
    rhs: Box<dyn RValue<T>>,
    _phantom: PhantomData<U>,
}

impl<T, U> Lte<T, U> {
    /// Whether `r` is a result that the left operand may give.
    pub closed spec fn lhs_result(&self, r: Result<T, EvalError>) -> bool {
        self.lhs.eval_result(r)
    }

    /// Whether `r` is a result that the right operand may give.
    pub closed spec fn rhs_result(&self, r: Result<T, EvalError>) -> bool {
        self.rhs.eval_result(r)
    }
}

impl<T: 'static, U> Lte<T, U> {
    /// A new comparison of the two operands.
    pub fn new<L: RValue<T> + 'static, R: RValue<T> + 'static>(lhs: Arc<L>, rhs: Arc<R>) -> (e: Lte<T, U>)
        ensures
            forall|r: Result<T, EvalError>| e.lhs_result(r) == lhs.eval_result(r),
            forall|r: Result<T, EvalError>| e.rhs_result(r) == rhs.eval_result(r),
    {
        Lte { lhs: Box::new(lhs), rhs: Box::new(rhs), _phantom: PhantomData }
    }
}

impl<U: Send + Sync> RValue<bool> for Lte<i64, U> {
    /// The left operand's failure, or the right one's after the left gave a value, or the
    /// operation on the two values.
    open spec fn eval_result(&self, r: Result<bool, EvalError>) -> bool {
        ||| exists|e: EvalError| #[trigger] self.lhs_result(Err(e)) && r == Err::<bool, EvalError>(e)
        ||| exists|a: i64, e: EvalError|
            #[trigger] self.lhs_result(Ok(a)) && #[trigger] self.rhs_result(Err(e))
                && r == Err::<bool, EvalError>(e)
        ||| exists|a: i64, b: i64|
            #[trigger] self.lhs_result(Ok(a)) && #[trigger] self.rhs_result(Ok(b))
                && r == Ok::<bool, EvalError>(a <= b)
    }

    /// Evaluate both operands, left first; the first failure is the result.
    fn eval(&self) -> (r: Result<bool, EvalError>) {
        match self.lhs.eval() {
            Err(e) => {
                assert(self.lhs_result(Err(e)));
                Err(e)
            },
            Ok(a) => match self.rhs.eval() {
                Err(e) => {
                    assert(self.lhs_result(Ok(a)) && self.rhs_result(Err(e)));
                    Err(e)
                },
                Ok(b) => {
                    assert(self.lhs_result(Ok(a)) && self.rhs_result(Ok(b)));
                    Ok(a <= b)
                },
            },
        }
    }
}

/// Whether the left operand is greater than the right one.
#[verifier::reject_recursive_types(T)]
pub struct Gt<T, U> {
    lhs: Box<dyn RValue<T>>,
    rhs: Box<dyn RValue<T>>,
    _phantom: PhantomData<U>,
}

impl<T, U> Gt<T, U> {
    /// Whether `r` is a result that the left operand may give.
    pub closed spec fn lhs_result(&self, r: Result<T, EvalError>) -> bool {
        self.lhs.eval_result(r)
    }

    /// Whether `r` is a result that the right operand may give.
    pub closed spec fn rhs_result(&self, r: Result<T, EvalError>) -> bool {
        self.rhs.eval_result(r)
    }
}

impl<T: 'static, U> Gt<T, U> {
    /// A new comparison of the two operands.
    pub fn new<L: RValue<T> + 'static, R: RValue<T> + 'static>(lhs: Arc<L>, rhs: Arc<R>) -> (e: Gt<T, U>)
        ensures
            forall|r: Result<T, EvalError>| e.lhs_result(r) == lhs.eval_result(r),
            forall|r: Result<T, EvalError>| e.rhs_result(r) == rhs.eval_result(r),
    {
        Gt { lhs: Box::new(lhs), rhs: Box::new(rhs), _phantom: PhantomData }
    }
}

impl<U: Send + Sync> RValue<bool> for Gt<i64, U> {
    /// The left operand's failure, or the right one's after the left gave a value, or the
    /// operation on the two values.
    open spec fn eval_result(&self, r: Result<bool, EvalError>) -> bool {
        ||| exists|e: EvalError| #[trigger] self.lhs_result(Err(e)) && r == Err::<bool, EvalError>(e)
        ||| exists|a: i64, e: EvalError|
            #[trigger] self.lhs_result(Ok(a)) && #[trigger] self.rhs_result(Err(e))
                && r == Err::<bool, EvalError>(e)
        ||| exists|a: i64, b: i64|
            #[trigger] self.lhs_result(Ok(a)) && #[trigger] self.rhs_result(Ok(b))
                && r == Ok::<bool, EvalError>(a > b)
    }

    /// Evaluate both operands, left first; the first failure is the result.
    fn eval(&self) -> (r: Result<bool, EvalError>) {
        match self.lhs.eval() {
            Err(e) => {
                assert(self.lhs_result(Err(e)));
                Err(e)
            },
            Ok(a) => match self.rhs.eval() {
                Err(e) => {
                    assert(self.lhs_result(Ok(a)) && self.rhs_result(Err(e)));
                    Err(e)
                },
                Ok(b) => {
                    assert(self.lhs_result(Ok(a)) && self.rhs_result(Ok(b)));
                    Ok(a > b)
                },
            },
        }
    }
}

/// Whether the left operand is at least the right one.
#[verifier::reject_recursive_types(T)]
pub struct Gte<T, U> {
    lhs: Box<dyn RValue<T>>,
    rhs: Box<dyn RValue<T>>,
    _phantom: PhantomData<U>,
}

impl<T, U> Gte<T, U> {
    /// Whether `r` is a result that the left operand may give.
    pub closed spec fn lhs_result(&self, r: Result<T, EvalError>) -> bool {
        self.lhs.eval_result(r)
    }

    /// Whether `r` is a result that the right operand may give.
    pub closed spec fn rhs_result(&self, r: Result<T, EvalError>) -> bool {
        self.rhs.eval_result(r)
    }
}

impl<T: 'static, U> Gte<T, U> {
    /// A new comparison of the two operands.
    pub fn new<L: RValue<T> + 'static, R: RValue<T> + 'static>(lhs: Arc<L>, rhs: Arc<R>) -> (e: Gte<T, U>)
        ensures
            forall|r: Result<T, EvalError>| e.lhs_result(r) == lhs.eval_result(r),
            forall|r: Result<T, EvalError>| e.rhs_result(r) == rhs.eval_result(r),
    {
        Gte { lhs: Box::new(lhs), rhs: Box::new(rhs), _phantom: PhantomData }
    }
}

impl<U: Send + Sync> RValue<bool> for Gte<i64, U> {
    /// The left operand's failure, or the right one's after the left gave a value, or the
    /// operation on the two values.
    open spec fn eval_result(&self, r: Result<bool, EvalError>) -> bool {
        ||| exists|e: EvalError| #[trigger] self.lhs_result(Err(e)) && r == Err::<bool, EvalError>(e)
        ||| exists|a: i64, e: EvalError|
            #[trigger] self.lhs_result(Ok(a)) && #[trigger] self.rhs_result(Err(e))
                && r == Err::<bool, EvalError>(e)
        ||| exists|a: i64, b: i64|
            #[trigger] self.lhs_result(Ok(a)) && #[trigger] self.rhs_result(Ok(b))
                && r == Ok::<bool, EvalError>(a >= b)
    }

    /// Evaluate both operands, left first; the first failure is the result.
    fn eval(&self) -> (r: Result<bool, EvalError>) {
        match self.lhs.eval() {
            Err(e) => {
                assert(self.lhs_result(Err(e)));
                Err(e)
            },
            Ok(a) => match self.rhs.eval() {
                Err(e) => {
                    assert(self.lhs_result(Ok(a)) && self.rhs_result(Err(e)));
                    Err(e)
                },
                Ok(b) => {
                    assert(self.lhs_result(Ok(a)) && self.rhs_result(Ok(b)));
                    Ok(a >= b)
                },
            },
        }
    }
}

/// The sum of two operands.
pub struct Add<T, U> {
    lhs: Arc<U>,
    rhs: Arc<U>,
    _phantom: PhantomData<T>,
}

impl<T, U> Add<T, U> {
    /// The left operand.
    pub closed spec fn spec_lhs(&self) -> Arc<U> {
        self.lhs
    }

    /// The right operand.
    pub closed spec fn spec_rhs(&self) -> Arc<U> {
        self.rhs
    }

    /// A new operation on the two operands.
    pub fn new(lhs: Arc<U>, rhs: Arc<U>) -> (e: Add<T, U>)
        ensures
            e.spec_lhs() == lhs,
            e.spec_rhs() == rhs,
    {
        Add { lhs, rhs, _phantom: PhantomData }
    }
}

impl<U: RValue<i64>> RValue<i64> for Add<i64, U> {
    /// The left operand's failure, or the right one's after the left gave a value, or the
    /// operation on the two values.
    open spec fn eval_result(&self, r: Result<i64, EvalError>) -> bool {
        ||| exists|e: EvalError| #[trigger] self.spec_lhs().eval_result(Err(e)) && r == Err::<i64, EvalError>(e)
        ||| exists|a: i64, e: EvalError|
            #[trigger] self.spec_lhs().eval_result(Ok(a)) && #[trigger] self.spec_rhs().eval_result(Err(e))
                && r == Err::<i64, EvalError>(e)
        ||| exists|a: i64, b: i64|
            #[trigger] self.spec_lhs().eval_result(Ok(a)) && #[trigger] self.spec_rhs().eval_result(Ok(b))
                && r == spec_add(a, b)
    }

    /// Evaluate both operands, left first; the first failure is the result.
    fn eval(&self) -> (r: Result<i64, EvalError>) {
        match self.lhs.eval() {
            Err(e) => {
                assert(self.spec_lhs().eval_result(Err(e)));
                Err(e)
            },
            Ok(a) => match self.rhs.eval() {
                Err(e) => {
                    assert(self.spec_lhs().eval_result(Ok(a)) && self.spec_rhs().eval_result(Err(e)));
                    Err(e)
                },
                Ok(b) => {
                    assert(self.spec_lhs().eval_result(Ok(a)) && self.spec_rhs().eval_result(Ok(b)));
                    add_values(a, b)
                },
            },
        }
    }
}

/// The difference of two operands.
pub struct Sub<T, U> {
    lhs: Arc<U>,
    rhs: Arc<U>,
    _phantom: PhantomData<T>,
}

impl<T, U> Sub<T, U> {
    /// The left operand.
    pub closed spec fn spec_lhs(&self) -> Arc<U> {
        self.lhs
    }

    /// The right operand.
    pub closed spec fn spec_rhs(&self) -> Arc<U> {
        self.rhs
    }

    /// A new operation on the two operands.
    pub fn new(lhs: Arc<U>, rhs: Arc<U>) -> (e: Sub<T, U>)
        ensures
            e.spec_lhs() == lhs,
            e.spec_rhs() == rhs,
    {
        Sub { lhs, rhs, _phantom: PhantomData }
    }
}

impl<U: RValue<i64>> RValue<i64> for Sub<i64, U> {
    /// The left operand's failure, or the right one's after the left gave a value, or the
    /// operation on the two values.
    open spec fn eval_result(&self, r: Result<i64, EvalError>) -> bool {
        ||| exists|e: EvalError| #[trigger] self.spec_lhs().eval_result(Err(e)) && r == Err::<i64, EvalError>(e)
        ||| exists|a: i64, e: EvalError|
            #[trigger] self.spec_lhs().eval_result(Ok(a)) && #[trigger] self.spec_rhs().eval_result(Err(e))
                && r == Err::<i64, EvalError>(e)
        ||| exists|a: i64, b: i64|
            #[trigger] self.spec_lhs().eval_result(Ok(a)) && #[trigger] self.spec_rhs().eval_result(Ok(b))
                && r == spec_sub(a, b)
    }

    /// Evaluate both operands, left first; the first failure is the result.
    fn eval(&self) -> (r: Result<i64, EvalError>) {
        match self.lhs.eval() {
            Err(e) => {
                assert(self.spec_lhs().eval_result(Err(e)));
                Err(e)
            },
            Ok(a) => match self.rhs.eval() {
                Err(e) => {
                    assert(self.spec_lhs().eval_result(Ok(a)) && self.spec_rhs().eval_result(Err(e)));
                    Err(e)
                },
                Ok(b) => {
                    assert(self.spec_lhs().eval_result(Ok(a)) && self.spec_rhs().eval_result(Ok(b)));
                    sub_values(a, b)
                },
            },
        }
    }
}

/// The product of two operands.
pub struct Mul<T, U> {
    lhs: Arc<U>,
    rhs: Arc<U>,
    _phantom: PhantomData<T>,
}

impl<T, U> Mul<T, U> {
    /// The left operand.
    pub closed spec fn spec_lhs(&self) -> Arc<U> {
        self.lhs
    }

    /// The right operand.
    pub closed spec fn spec_rhs(&self) -> Arc<U> {
        self.rhs
    }

    /// A new operation on the two operands.
    pub fn new(lhs: Arc<U>, rhs: Arc<U>) -> (e: Mul<T, U>)
        ensures
            e.spec_lhs() == lhs,
            e.spec_rhs() == rhs,
    {
        Mul { lhs, rhs, _phantom: PhantomData }
    }
}

impl<U: RValue<i64>> RValue<i64> for Mul<i64, U> {
    /// The left operand's failure, or the right one's after the left gave a value, or the
    /// operation on the two values.
    open spec fn eval_result(&self, r: Result<i64, EvalError>) -> bool {
        ||| exists|e: EvalError| #[trigger] self.spec_lhs().eval_result(Err(e)) && r == Err::<i64, EvalError>(e)
        ||| exists|a: i64, e: EvalError|
            #[trigger] self.spec_lhs().eval_result(Ok(a)) && #[trigger] self.spec_rhs().eval_result(Err(e))
                && r == Err::<i64, EvalError>(e)
        ||| exists|a: i64, b: i64|
            #[trigger] self.spec_lhs().eval_result(Ok(a)) && #[trigger] self.spec_rhs().eval_result(Ok(b))
                && r == spec_mul(a, b)
    }

    /// Evaluate both operands, left first; the first failure is the result.
    fn eval(&self) -> (r: Result<i64, EvalError>) {
        match self.lhs.eval() {
            Err(e) => {
                assert(self.spec_lhs().eval_result(Err(e)));
                Err(e)
            },
            Ok(a) => match self.rhs.eval() {
                Err(e) => {
                    assert(self.spec_lhs().eval_result(Ok(a)) && self.spec_rhs().eval_result(Err(e)));
                    Err(e)
                },
                Ok(b) => {
                    assert(self.spec_lhs().eval_result(Ok(a)) && self.spec_rhs().eval_result(Ok(b)));
                    mul_values(a, b)
                },
            },
        }
    }
}

/// The quotient of two operands; division by zero fails.
pub struct Div<T, U> {
    lhs: Arc<U>,
    rhs: Arc<U>,
    _phantom: PhantomData<T>,
}

impl<T, U> Div<T, U> {
    /// The left operand.
    pub closed spec fn spec_lhs(&self) -> Arc<U> {
        self.lhs
    }

    /// The right operand.
    pub closed spec fn spec_rhs(&self) -> Arc<U> {
        self.rhs
    }

    /// A new operation on the two operands.
    pub fn new(lhs: Arc<U>, rhs: Arc<U>) -> (e: Div<T, U>)
        ensures
            e.spec_lhs() == lhs,
            e.spec_rhs() == rhs,
    {
        Div { lhs, rhs, _phantom: PhantomData }
    }
}

impl<U: RValue<i64>> RValue<i64> for Div<i64, U> {
    /// The left operand's failure, or the right one's after the left gave a value, or the
    /// operation on the two values.
    open spec fn eval_result(&self, r: Result<i64, EvalError>) -> bool {
        ||| exists|e: EvalError| #[trigger] self.spec_lhs().eval_result(Err(e)) && r == Err::<i64, EvalError>(e)
        ||| exists|a: i64, e: EvalError|
            #[trigger] self.spec_lhs().eval_result(Ok(a)) && #[trigger] self.spec_rhs().eval_result(Err(e))
                && r == Err::<i64, EvalError>(e)
        ||| exists|a: i64, b: i64|
            #[trigger] self.spec_lhs().eval_result(Ok(a)) && #[trigger] self.spec_rhs().eval_result(Ok(b))
                && r == spec_div(a, b)
    }

    /// Evaluate both operands, left first; the first failure is the result.
    fn eval(&self) -> (r: Result<i64, EvalError>) {
        match self.lhs.eval() {
            Err(e) => {
                assert(self.spec_lhs().eval_result(Err(e)));
                Err(e)
            },
            Ok(a) => match self.rhs.eval() {
                Err(e) => {
                    assert(self.spec_lhs().eval_result(Ok(a)) && self.spec_rhs().eval_result(Err(e)));
                    Err(e)
                },
                Ok(b) => {
                    assert(self.spec_lhs().eval_result(Ok(a)) && self.spec_rhs().eval_result(Ok(b)));
                    div_values(a, b)
                },
            },
        }
    }
}

/// The logical (bool) or bitwise (integer) conjunction of two operands.
pub struct And<T, U> {
    lhs: Arc<U>,
    rhs: Arc<U>,
    _phantom: PhantomData<T>,
}

impl<T, U> And<T, U> {
    /// The left operand.
    pub closed spec fn spec_lhs(&self) -> Arc<U> {
        self.lhs
    }

    /// The right operand.
    pub closed spec fn spec_rhs(&self) -> Arc<U> {
        self.rhs
    }

    /// A new operation on the two operands.
    pub fn new(lhs: Arc<U>, rhs: Arc<U>) -> (e: And<T, U>)
        ensures
            e.spec_lhs() == lhs,
            e.spec_rhs() == rhs,
    {
        And { lhs, rhs, _phantom: PhantomData }
    }
}

impl<U: RValue<bool>> RValue<bool> for And<bool, U> {
    /// The left operand's failure, or the right one's after the left gave a value, or the
    /// operation on the two values.
    open spec fn eval_result(&self, r: Result<bool, EvalError>) -> bool {
        ||| exists|e: EvalError| #[trigger] self.spec_lhs().eval_result(Err(e)) && r == Err::<bool, EvalError>(e)
        ||| exists|a: bool, e: EvalError|
            #[trigger] self.spec_lhs().eval_result(Ok(a)) && #[trigger] self.spec_rhs().eval_result(Err(e))
                && r == Err::<bool, EvalError>(e)
        ||| exists|a: bool, b: bool|
            #[trigger] self.spec_lhs().eval_result(Ok(a)) && #[trigger] self.spec_rhs().eval_result(Ok(b))
                && r == Ok::<bool, EvalError>(a && b)
    }

    /// Evaluate both operands, left first; the first failure is the result.
    fn eval(&self) -> (r: Result<bool, EvalError>) {
        match self.lhs.eval() {
            Err(e) => {
                assert(self.spec_lhs().eval_result(Err(e)));
                Err(e)
            },
            Ok(a) => match self.rhs.eval() {
                Err(e) => {
                    assert(self.spec_lhs().eval_result(Ok(a)) && self.spec_rhs().eval_result(Err(e)));
                    Err(e)
                },
                Ok(b) => {
                    assert(self.spec_lhs().eval_result(Ok(a)) && self.spec_rhs().eval_result(Ok(b)));
                    Ok(a && b)
                },
            },
        }
    }
}

impl<U: RValue<i64>> RValue<i64> for And<i64, U> {
    /// The left operand's failure, or the right one's after the left gave a value, or the
    /// operation on the two values.
    open spec fn eval_result(&self, r: Result<i64, EvalError>) -> bool {
        ||| exists|e: EvalError| #[trigger] self.spec_lhs().eval_result(Err(e)) && r == Err::<i64, EvalError>(e)
        ||| exists|a: i64, e: EvalError|
            #[trigger] self.spec_lhs().eval_result(Ok(a)) && #[trigger] self.spec_rhs().eval_result(Err(e))
                && r == Err::<i64, EvalError>(e)
        ||| exists|a: i64, b: i64|
            #[trigger] self.spec_lhs().eval_result(Ok(a)) && #[trigger] self.spec_rhs().eval_result(Ok(b))
                && r == Ok::<i64, EvalError>(a & b)
    }

    /// Evaluate both operands, left first; the first failure is the result.
    fn eval(&self) -> (r: Result<i64, EvalError>) {
        match self.lhs.eval() {
            Err(e) => {
                assert(self.spec_lhs().eval_result(Err(e)));
                Err(e)
            },
            Ok(a) => match self.rhs.eval() {
                Err(e) => {
                    assert(self.spec_lhs().eval_result(Ok(a)) && self.spec_rhs().eval_result(Err(e)));
                    Err(e)
                },
                Ok(b) => {
                    assert(self.spec_lhs().eval_result(Ok(a)) && self.spec_rhs().eval_result(Ok(b)));
                    Ok(a & b)
                },
            },
        }
    }
}

/// The logical (bool) or bitwise (integer) disjunction of two operands.
pub struct Or<T, U> {
    lhs: Arc<U>,
    rhs: Arc<U>,
    _phantom: PhantomData<T>,
}

impl<T, U> Or<T, U> {
    /// The left operand.
    pub closed spec fn spec_lhs(&self) -> Arc<U> {
        self.lhs
    }

    /// The right operand.
    pub closed spec fn spec_rhs(&self) -> Arc<U> {
        self.rhs
    }

    /// A new operation on the two operands.
    pub fn new(lhs: Arc<U>, rhs: Arc<U>) -> (e: Or<T, U>)
        ensures
            e.spec_lhs() == lhs,
            e.spec_rhs() == rhs,
    {
        Or { lhs, rhs, _phantom: PhantomData }
    }
}

impl<U: RValue<bool>> RValue<bool> for Or<bool, U> {
    /// The left operand's failure, or the right one's after the left gave a value, or the
    /// operation on the two values.
    open spec fn eval_result(&self, r: Result<bool, EvalError>) -> bool {
        ||| exists|e: EvalError| #[trigger] self.spec_lhs().eval_result(Err(e)) && r == Err::<bool, EvalError>(e)
        ||| exists|a: bool, e: EvalError|
            #[trigger] self.spec_lhs().eval_result(Ok(a)) && #[trigger] self.spec_rhs().eval_result(Err(e))
                && r == Err::<bool, EvalError>(e)
        ||| exists|a: bool, b: bool|
            #[trigger] self.spec_lhs().eval_result(Ok(a)) && #[trigger] self.spec_rhs().eval_result(Ok(b))
                && r == Ok::<bool, EvalError>(a || b)
    }

    /// Evaluate both operands, left first; the first failure is the result.
    fn eval(&self) -> (r: Result<bool, EvalError>) {
        match self.lhs.eval() {
            Err(e) => {
                assert(self.spec_lhs().eval_result(Err(e)));
                Err(e)
            },
            Ok(a) => match self.rhs.eval() {
                Err(e) => {
                    assert(self.spec_lhs().eval_result(Ok(a)) && self.spec_rhs().eval_result(Err(e)));
                    Err(e)
                },
                Ok(b) => {
                    assert(self.spec_lhs().eval_result(Ok(a)) && self.spec_rhs().eval_result(Ok(b)));
                    Ok(a || b)
                },
            },
        }
    }
}

impl<U: RValue<i64>> RValue<i64> for Or<i64, U> {
    /// The left operand's failure, or the right one's after the left gave a value, or the
    /// operation on the two values.
    open spec fn eval_result(&self, r: Result<i64, EvalError>) -> bool {
        ||| exists|e: EvalError| #[trigger] self.spec_lhs().eval_result(Err(e)) && r == Err::<i64, EvalError>(e)
        ||| exists|a: i64, e: EvalError|
            #[trigger] self.spec_lhs().eval_result(Ok(a)) && #[trigger] self.spec_rhs().eval_result(Err(e))
                && r == Err::<i64, EvalError>(e)
        ||| exists|a: i64, b: i64|
            #[trigger] self.spec_lhs().eval_result(Ok(a)) && #[trigger] self.spec_rhs().eval_result(Ok(b))
                && r == Ok::<i64, EvalError>(a | b)
    }

    /// Evaluate both operands, left first; the first failure is the result.
    fn eval(&self) -> (r: Result<i64, EvalError>) {
        match self.lhs.eval() {
            Err(e) => {
                assert(self.spec_lhs().eval_result(Err(e)));
                Err(e)
            },
            Ok(a) => match self.rhs.eval() {
                Err(e) => {
                    assert(self.spec_lhs().eval_result(Ok(a)) && self.spec_rhs().eval_result(Err(e)));
                    Err(e)
                },
                Ok(b) => {
                    assert(self.spec_lhs().eval_result(Ok(a)) && self.spec_rhs().eval_result(Ok(b)));
                    Ok(a | b)
                },
            },
        }
    }
}

/// The logical (bool) or bitwise (integer) exclusive or of two operands.
pub struct Xor<T, U> {
    lhs: Arc<U>,
    rhs: Arc<U>,
    _phantom: PhantomData<T>,
}

impl<T, U> Xor<T, U> {
    /// The left operand.
    pub closed spec fn spec_lhs(&self) -> Arc<U> {
        self.lhs
    }

    /// The right operand.
    pub closed spec fn spec_rhs(&self) -> Arc<U> {
        self.rhs
    }

    /// A new operation on the two operands.
    pub fn new(lhs: Arc<U>, rhs: Arc<U>) -> (e: Xor<T, U>)
        ensures
            e.spec_lhs() == lhs,
            e.spec_rhs() == rhs,
    {
        Xor { lhs, rhs, _phantom: PhantomData }
    }
}

impl<U: RValue<bool>> RValue<bool> for Xor<bool, U> {
    /// The left operand's failure, or the right one's after the left gave a value, or the
    /// operation on the two values.
    open spec fn eval_result(&self, r: Result<bool, EvalError>) -> bool {
        ||| exists|e: EvalError| #[trigger] self.spec_lhs().eval_result(Err(e)) && r == Err::<bool, EvalError>(e)
        ||| exists|a: bool, e: EvalError|
            #[trigger] self.spec_lhs().eval_result(Ok(a)) && #[trigger] self.spec_rhs().eval_result(Err(e))
                && r == Err::<bool, EvalError>(e)
        ||| exists|a: bool, b: bool|
            #[trigger] self.spec_lhs().eval_result(Ok(a)) && #[trigger] self.spec_rhs().eval_result(Ok(b))
                && r == Ok::<bool, EvalError>(a != b)
    }

    /// Evaluate both operands, left first; the first failure is the result.
    fn eval(&self) -> (r: Result<bool, EvalError>) {
        match self.lhs.eval() {
            Err(e) => {
                assert(self.spec_lhs().eval_result(Err(e)));
                Err(e)
            },
            Ok(a) => match self.rhs.eval() {
                Err(e) => {
                    assert(self.spec_lhs().eval_result(Ok(a)) && self.spec_rhs().eval_result(Err(e)));
                    Err(e)
                },
                Ok(b) => {
                    assert(self.spec_lhs().eval_result(Ok(a)) && self.spec_rhs().eval_result(Ok(b)));
                    Ok(a != b)
                },
            },
        }
    }
}

impl<U: RValue<i64>> RValue<i64> for Xor<i64, U> {
    /// The left operand's failure, or the right one's after the left gave a value, or the
    /// operation on the two values.
    open spec fn eval_result(&self, r: Result<i64, EvalError>) -> bool {
        ||| exists|e: EvalError| #[trigger] self.spec_lhs().eval_result(Err(e)) && r == Err::<i64, EvalError>(e)
        ||| exists|a: i64, e: EvalError|
            #[trigger] self.spec_lhs().eval_result(Ok(a)) && #[trigger] self.spec_rhs().eval_result(Err(e))
                && r == Err::<i64, EvalError>(e)
        ||| exists|a: i64, b: i64|
            #[trigger] self.spec_lhs().eval_result(Ok(a)) && #[trigger] self.spec_rhs().eval_result(Ok(b))
                && r == Ok::<i64, EvalError>(a ^ b)
    }

    /// Evaluate both operands, left first; the first failure is the result.
    fn eval(&self) -> (r: Result<i64, EvalError>) {
        match self.lhs.eval() {
            Err(e) => {
                assert(self.spec_lhs().eval_result(Err(e)));
                Err(e)
            },
            Ok(a) => match self.rhs.eval() {
                Err(e) => {
                    assert(self.spec_lhs().eval_result(Ok(a)) && self.spec_rhs().eval_result(Err(e)));
                    Err(e)
                },
                Ok(b) => {
                    assert(self.spec_lhs().eval_result(Ok(a)) && self.spec_rhs().eval_result(Ok(b)));
                    Ok(a ^ b)
                },
            },
        }
    }
}

/// The logical (bool) or bitwise (integer) inversion of an operand.
pub struct Not<T, U> {
    op: Arc<U>,
    _phantom: PhantomData<T>,
}

impl<T, U> Not<T, U> {
    /// The operand.
    pub closed spec fn spec_op(&self) -> Arc<U> {
        self.op
    }

    /// A new operation on the operand.
    pub fn new(op: Arc<U>) -> (e: Not<T, U>)
        ensures
            e.spec_op() == op,
    {
        Not { op, _phantom: PhantomData }
    }
}

impl<U: RValue<bool>> RValue<bool> for Not<bool, U> {
    /// The operand's failure, or the operation on its value.
    open spec fn eval_result(&self, r: Result<bool, EvalError>) -> bool {
        ||| exists|e: EvalError| #[trigger] self.spec_op().eval_result(Err(e)) && r == Err::<bool, EvalError>(e)
        ||| exists|a: bool| #[trigger] self.spec_op().eval_result(Ok(a)) && r == Ok::<bool, EvalError>(!a)
    }

    /// Evaluate the operand; its failure is the result.
    fn eval(&self) -> (r: Result<bool, EvalError>) {
        match self.op.eval() {
            Err(e) => {
                assert(self.spec_op().eval_result(Err(e)));
                Err(e)
            },
            Ok(a) => {
                assert(self.spec_op().eval_result(Ok(a)));
                Ok(!a)
            },
        }
    }
}

impl<U: RValue<i64>> RValue<i64> for Not<i64, U> {
    /// The operand's failure, or the operation on its value.
    open spec fn eval_result(&self, r: Result<i64, EvalError>) -> bool {
        ||| exists|e: EvalError| #[trigger] self.spec_op().eval_result(Err(e)) && r == Err::<i64, EvalError>(e)
        ||| exists|a: i64| #[trigger] self.spec_op().eval_result(Ok(a)) && r == Ok::<i64, EvalError>(!a)
    }

    /// Evaluate the operand; its failure is the result.
    fn eval(&self) -> (r: Result<i64, EvalError>) {
        match self.op.eval() {
            Err(e) => {
                assert(self.spec_op().eval_result(Err(e)));
                Err(e)
            },
            Ok(a) => {
                assert(self.spec_op().eval_result(Ok(a)));
                Ok(!a)
            },
        }
    }
}

/// The negation of an operand.
pub struct Neg<T, U> {
    op: Arc<U>,
    _phantom: PhantomData<T>,
}

impl<T, U> Neg<T, U> {
    /// The operand.
    pub closed spec fn spec_op(&self) -> Arc<U> {
        self.op
    }

    /// A new operation on the operand.
    pub fn new(op: Arc<U>) -> (e: Neg<T, U>)
        ensures
            e.spec_op() == op,
    {
        Neg { op, _phantom: PhantomData }
    }
}

impl<U: RValue<i64>> RValue<i64> for Neg<i64, U> {
    /// The operand's failure, or the operation on its value.
    open spec fn eval_result(&self, r: Result<i64, EvalError>) -> bool {
        ||| exists|e: EvalError| #[trigger] self.spec_op().eval_result(Err(e)) && r == Err::<i64, EvalError>(e)
        ||| exists|a: i64| #[trigger] self.spec_op().eval_result(Ok(a)) && r == spec_neg(a)
    }

    /// Evaluate the operand; its failure is the result.
    fn eval(&self) -> (r: Result<i64, EvalError>) {
        match self.op.eval() {
            Err(e) => {
                assert(self.spec_op().eval_result(Err(e)));
                Err(e)
            },
            Ok(a) => {
                assert(self.spec_op().eval_result(Ok(a)));
                neg_value(a)
            },
        }
    }
}


/// Equality of values that the operands give: true exactly where they are the same
/// value, so it is reflexive and symmetric in its operands.
pub proof fn lemma_eq_laws<U: Send + Sync>(e: Eq<i64, U>, x: i64, y: i64, r: Result<bool, EvalError>)
    requires
        forall|v: Result<i64, EvalError>| #[trigger] e.lhs_result(v) <==> v == Ok::<i64, EvalError>(x),
        forall|v: Result<i64, EvalError>| #[trigger] e.rhs_result(v) <==> v == Ok::<i64, EvalError>(y),
        e.eval_result(r),
    ensures
        r == Ok::<bool, EvalError>(x == y),
        x == y ==> r == Ok::<bool, EvalError>(true),
        x != y ==> r == Ok::<bool, EvalError>(false),
{
    assert(e.lhs_result(Ok(x)) && e.rhs_result(Ok(y)));
}

/// Inequality of values that the operands give: the negation of equality, false on
/// equal values.
pub proof fn lemma_neq_laws<U: Send + Sync>(e: Neq<i64, U>, x: i64, y: i64, r: Result<bool, EvalError>)
    requires
        forall|v: Result<i64, EvalError>| #[trigger] e.lhs_result(v) <==> v == Ok::<i64, EvalError>(x),
        forall|v: Result<i64, EvalError>| #[trigger] e.rhs_result(v) <==> v == Ok::<i64, EvalError>(y),
        e.eval_result(r),
    ensures
        r == Ok::<bool, EvalError>(x != y),
        x == y ==> r == Ok::<bool, EvalError>(false),
{
    assert(e.lhs_result(Ok(x)) && e.rhs_result(Ok(y)));
}

/// The strict comparison of values that the operands give: true exactly where the left
/// is below the right in the integer order, so never on equal values (irreflexive), and never
/// both ways.
pub proof fn lemma_lt_laws<U: Send + Sync>(e: Lt<i64, U>, x: i64, y: i64, r: Result<bool, EvalError>)
    requires
        forall|v: Result<i64, EvalError>| #[trigger] e.lhs_result(v) <==> v == Ok::<i64, EvalError>(x),
        forall|v: Result<i64, EvalError>| #[trigger] e.rhs_result(v) <==> v == Ok::<i64, EvalError>(y),
        e.eval_result(r),
    ensures
        r == Ok::<bool, EvalError>(x < y),
        x == y ==> r == Ok::<bool, EvalError>(false),
        y < x ==> r == Ok::<bool, EvalError>(false),
{
    assert(e.lhs_result(Ok(x)) && e.rhs_result(Ok(y)));
}

/// The comparison at most of values that the operands give: true exactly where the left
/// is not above the right, so on equal values (reflexive).
pub proof fn lemma_lte_laws<U: Send + Sync>(e: Lte<i64, U>, x: i64, y: i64, r: Result<bool, EvalError>)
    requires
        forall|v: Result<i64, EvalError>| #[trigger] e.lhs_result(v) <==> v == Ok::<i64, EvalError>(x),
        forall|v: Result<i64, EvalError>| #[trigger] e.rhs_result(v) <==> v == Ok::<i64, EvalError>(y),
        e.eval_result(r),
    ensures
        r == Ok::<bool, EvalError>(!(y < x)),
        x == y ==> r == Ok::<bool, EvalError>(true),
{
    assert(e.lhs_result(Ok(x)) && e.rhs_result(Ok(y)));
}

/// The strict comparison greater of values that the operands give: the strict comparison
/// with the operands swapped, so never on equal values.
pub proof fn lemma_gt_laws<U: Send + Sync>(e: Gt<i64, U>, x: i64, y: i64, r: Result<bool, EvalError>)
    requires
        forall|v: Result<i64, EvalError>| #[trigger] e.lhs_result(v) <==> v == Ok::<i64, EvalError>(x),
        forall|v: Result<i64, EvalError>| #[trigger] e.rhs_result(v) <==> v == Ok::<i64, EvalError>(y),
        e.eval_result(r),
    ensures
        r == Ok::<bool, EvalError>(y < x),
        x == y ==> r == Ok::<bool, EvalError>(false),
{
    assert(e.lhs_result(Ok(x)) && e.rhs_result(Ok(y)));
}

/// The comparison at least of values that the operands give: the negation of the strict
/// comparison, so true on equal values, and the opposite of what `Lt` gives on the same values.
pub proof fn lemma_gte_laws<U: Send + Sync>(e: Gte<i64, U>, x: i64, y: i64, r: Result<bool, EvalError>)
    requires
        forall|v: Result<i64, EvalError>| #[trigger] e.lhs_result(v) <==> v == Ok::<i64, EvalError>(x),
        forall|v: Result<i64, EvalError>| #[trigger] e.rhs_result(v) <==> v == Ok::<i64, EvalError>(y),
        e.eval_result(r),
    ensures
        r == Ok::<bool, EvalError>(!(x < y)),
        x == y ==> r == Ok::<bool, EvalError>(true),
{
    assert(e.lhs_result(Ok(x)) && e.rhs_result(Ok(y)));
}

/// On the same operand values, the strict comparison and the comparison at least give opposite
/// answers, and so do the comparisons at most and greater.
pub proof fn lemma_comparisons_opposite<U: Send + Sync>(
    lt: Lt<i64, U>, gte: Gte<i64, U>, lte: Lte<i64, U>, gt: Gt<i64, U>,
    x: i64, y: i64,
    r_lt: Result<bool, EvalError>, r_gte: Result<bool, EvalError>, r_lte: Result<bool, EvalError>, r_gt: Result<bool, EvalError>,
)
    requires
        forall|v: Result<i64, EvalError>| #[trigger] lt.lhs_result(v) <==> v == Ok::<i64, EvalError>(x),
        forall|v: Result<i64, EvalError>| #[trigger] lt.rhs_result(v) <==> v == Ok::<i64, EvalError>(y),
        forall|v: Result<i64, EvalError>| #[trigger] gte.lhs_result(v) <==> v == Ok::<i64, EvalError>(x),
        forall|v: Result<i64, EvalError>| #[trigger] gte.rhs_result(v) <==> v == Ok::<i64, EvalError>(y),
        forall|v: Result<i64, EvalError>| #[trigger] lte.lhs_result(v) <==> v == Ok::<i64, EvalError>(x),
        forall|v: Result<i64, EvalError>| #[trigger] lte.rhs_result(v) <==> v == Ok::<i64, EvalError>(y),
        forall|v: Result<i64, EvalError>| #[trigger] gt.lhs_result(v) <==> v == Ok::<i64, EvalError>(x),
        forall|v: Result<i64, EvalError>| #[trigger] gt.rhs_result(v) <==> v == Ok::<i64, EvalError>(y),
        lt.eval_result(r_lt),
        gte.eval_result(r_gte),
        lte.eval_result(r_lte),
        gt.eval_result(r_gt),
    ensures
        r_lt matches Ok(p) && r_gte matches Ok(q) && p != q,
        r_lte matches Ok(p) && r_gt matches Ok(q) && p != q,
{
    lemma_lt_laws(lt, x, y, r_lt);
    lemma_gte_laws(gte, x, y, r_gte);
    lemma_lte_laws(lte, x, y, r_lte);
    lemma_gt_laws(gt, x, y, r_gt);
}


/// The sum of the values the operands give: the mathematical sum where it fits, and an
/// overflow or underflow error exactly where it lies outside the range.
pub proof fn lemma_add_laws<U: RValue<i64>>(e: Add<i64, U>, x: i64, y: i64, r: Result<i64, EvalError>)
    requires
        forall|v: Result<i64, EvalError>| #[trigger] e.spec_lhs().eval_result(v) <==> v == Ok::<i64, EvalError>(x),
        forall|v: Result<i64, EvalError>| #[trigger] e.spec_rhs().eval_result(v) <==> v == Ok::<i64, EvalError>(y),
        e.eval_result(r),
    ensures
        r matches Ok(c) ==> c == x + y,
        (r is Ok) <==> (i64::MIN <= x + y <= i64::MAX),
        x + y > i64::MAX ==> r == Err::<i64, EvalError>(EvalError::Overflow),
        x + y < i64::MIN ==> r == Err::<i64, EvalError>(EvalError::Underflow),
{
    assert(e.spec_lhs().eval_result(Ok(x)) && e.spec_rhs().eval_result(Ok(y)));
    lemma_checked_arith_laws(x, y);
}

/// The difference of the values the operands give: where it fits, added to the right value
/// it gives back the left one; otherwise an overflow or underflow error.
pub proof fn lemma_sub_laws<U: RValue<i64>>(e: Sub<i64, U>, x: i64, y: i64, r: Result<i64, EvalError>)
    requires
        forall|v: Result<i64, EvalError>| #[trigger] e.spec_lhs().eval_result(v) <==> v == Ok::<i64, EvalError>(x),
        forall|v: Result<i64, EvalError>| #[trigger] e.spec_rhs().eval_result(v) <==> v == Ok::<i64, EvalError>(y),
        e.eval_result(r),
    ensures
        r matches Ok(c) ==> c + y == x,
        (r is Ok) <==> (i64::MIN <= x - y <= i64::MAX),
{
    assert(e.spec_lhs().eval_result(Ok(x)) && e.spec_rhs().eval_result(Ok(y)));
    lemma_checked_arith_laws(x, y);
}

/// The product of the values the operands give: the mathematical product where it fits, in
/// either order of the operands; otherwise an overflow or underflow error.
pub proof fn lemma_mul_laws<U: RValue<i64>>(e: Mul<i64, U>, x: i64, y: i64, r: Result<i64, EvalError>)
    requires
        forall|v: Result<i64, EvalError>| #[trigger] e.spec_lhs().eval_result(v) <==> v == Ok::<i64, EvalError>(x),
        forall|v: Result<i64, EvalError>| #[trigger] e.spec_rhs().eval_result(v) <==> v == Ok::<i64, EvalError>(y),
        e.eval_result(r),
    ensures
        r matches Ok(c) ==> c == x * y,
        (r is Ok) <==> (i64::MIN <= x * y <= i64::MAX),
        y == 0 ==> r == Ok::<i64, EvalError>(0),
        y == 1 ==> r == Ok::<i64, EvalError>(x),
{
    assert(e.spec_lhs().eval_result(Ok(x)) && e.spec_rhs().eval_result(Ok(y)));
    lemma_checked_arith_laws(x, y);
}

/// The quotient of the values the operands give: an error exactly for a zero divisor and for
/// the smallest value divided by -1; otherwise rounded toward zero, less than one divisor
/// away from the dividend.
pub proof fn lemma_div_laws<U: RValue<i64>>(e: Div<i64, U>, x: i64, y: i64, r: Result<i64, EvalError>)
    requires
        forall|v: Result<i64, EvalError>| #[trigger] e.spec_lhs().eval_result(v) <==> v == Ok::<i64, EvalError>(x),
        forall|v: Result<i64, EvalError>| #[trigger] e.spec_rhs().eval_result(v) <==> v == Ok::<i64, EvalError>(y),
        e.eval_result(r),
    ensures
        (r == Err::<i64, EvalError>(EvalError::DivisionByZero)) <==> y == 0,
        (r == Err::<i64, EvalError>(EvalError::Overflow)) <==> (x == i64::MIN && y == -1),
        r matches Ok(q) ==> abs(q * y) <= abs(x as int) && abs(x - q * y) < abs(y as int),
        y == 1 ==> r == Ok::<i64, EvalError>(x),
{
    assert(e.spec_lhs().eval_result(Ok(x)) && e.spec_rhs().eval_result(Ok(y)));
    lemma_checked_div_laws(x, y);
}

/// The conjunction of the values the operands give: true exactly where both are.
pub proof fn lemma_and_laws<U: RValue<bool>>(e: And<bool, U>, x: bool, y: bool, r: Result<bool, EvalError>)
    requires
        forall|v: Result<bool, EvalError>| #[trigger] e.spec_lhs().eval_result(v) <==> v == Ok::<bool, EvalError>(x),
        forall|v: Result<bool, EvalError>| #[trigger] e.spec_rhs().eval_result(v) <==> v == Ok::<bool, EvalError>(y),
        e.eval_result(r),
    ensures
        r == Ok::<bool, EvalError>(x && y),
        !x ==> r == Ok::<bool, EvalError>(false),
{
    assert(e.spec_lhs().eval_result(Ok(x)) && e.spec_rhs().eval_result(Ok(y)));
}

/// The disjunction of the values the operands give: false exactly where both are.
pub proof fn lemma_or_laws<U: RValue<bool>>(e: Or<bool, U>, x: bool, y: bool, r: Result<bool, EvalError>)
    requires
        forall|v: Result<bool, EvalError>| #[trigger] e.spec_lhs().eval_result(v) <==> v == Ok::<bool, EvalError>(x),
        forall|v: Result<bool, EvalError>| #[trigger] e.spec_rhs().eval_result(v) <==> v == Ok::<bool, EvalError>(y),
        e.eval_result(r),
    ensures
        r == Ok::<bool, EvalError>(x || y),
        x ==> r == Ok::<bool, EvalError>(true),
{
    assert(e.spec_lhs().eval_result(Ok(x)) && e.spec_rhs().eval_result(Ok(y)));
}

/// The exclusive disjunction of the values the operands give: true exactly where they differ.
pub proof fn lemma_xor_laws<U: RValue<bool>>(e: Xor<bool, U>, x: bool, y: bool, r: Result<bool, EvalError>)
    requires
        forall|v: Result<bool, EvalError>| #[trigger] e.spec_lhs().eval_result(v) <==> v == Ok::<bool, EvalError>(x),
        forall|v: Result<bool, EvalError>| #[trigger] e.spec_rhs().eval_result(v) <==> v == Ok::<bool, EvalError>(y),
        e.eval_result(r),
    ensures
        r == Ok::<bool, EvalError>(x != y),
        x == y ==> r == Ok::<bool, EvalError>(false),
{
    assert(e.spec_lhs().eval_result(Ok(x)) && e.spec_rhs().eval_result(Ok(y)));
}

/// The bitwise conjunction of the values the operands give, which does not depend on their order.
pub proof fn lemma_bit_and_laws<U: RValue<i64>>(e: And<i64, U>, x: i64, y: i64, r: Result<i64, EvalError>)
    requires
        forall|v: Result<i64, EvalError>| #[trigger] e.spec_lhs().eval_result(v) <==> v == Ok::<i64, EvalError>(x),
        forall|v: Result<i64, EvalError>| #[trigger] e.spec_rhs().eval_result(v) <==> v == Ok::<i64, EvalError>(y),
        e.eval_result(r),
    ensures
        r == Ok::<i64, EvalError>(x & y),
        r == Ok::<i64, EvalError>(y & x),
{
    assert(e.spec_lhs().eval_result(Ok(x)) && e.spec_rhs().eval_result(Ok(y)));
    assert(x & y == y & x) by (bit_vector);
}

/// The bitwise disjunction of the values the operands give, which does not depend on their order.
pub proof fn lemma_bit_or_laws<U: RValue<i64>>(e: Or<i64, U>, x: i64, y: i64, r: Result<i64, EvalError>)
    requires
        forall|v: Result<i64, EvalError>| #[trigger] e.spec_lhs().eval_result(v) <==> v == Ok::<i64, EvalError>(x),
        forall|v: Result<i64, EvalError>| #[trigger] e.spec_rhs().eval_result(v) <==> v == Ok::<i64, EvalError>(y),
        e.eval_result(r),
    ensures
        r == Ok::<i64, EvalError>(x | y),
        r == Ok::<i64, EvalError>(y | x),
{
    assert(e.spec_lhs().eval_result(Ok(x)) && e.spec_rhs().eval_result(Ok(y)));
    assert(x | y == y | x) by (bit_vector);
}

/// The bitwise exclusive disjunction of the values the operands give: zero on equal values.
pub proof fn lemma_bit_xor_laws<U: RValue<i64>>(e: Xor<i64, U>, x: i64, y: i64, r: Result<i64, EvalError>)
    requires
        forall|v: Result<i64, EvalError>| #[trigger] e.spec_lhs().eval_result(v) <==> v == Ok::<i64, EvalError>(x),
        forall|v: Result<i64, EvalError>| #[trigger] e.spec_rhs().eval_result(v) <==> v == Ok::<i64, EvalError>(y),
        e.eval_result(r),
    ensures
        r == Ok::<i64, EvalError>(x ^ y),
        x == y ==> r == Ok::<i64, EvalError>(0),
{
    assert(e.spec_lhs().eval_result(Ok(x)) && e.spec_rhs().eval_result(Ok(y)));
    assert(x ^ x == 0) by (bit_vector);
}

/// The negation of the value the operand gives.
pub proof fn lemma_not_laws<U: RValue<bool>>(e: Not<bool, U>, x: bool, r: Result<bool, EvalError>)
    requires
        forall|v: Result<bool, EvalError>| #[trigger] e.spec_op().eval_result(v) <==> v == Ok::<bool, EvalError>(x),
        e.eval_result(r),
    ensures
        r == Ok::<bool, EvalError>(!x),
        r != Ok::<bool, EvalError>(x),
{
    assert(e.spec_op().eval_result(Ok(x)));
}

/// The bitwise negation of the value the operand gives: negating twice gives the value back.
pub proof fn lemma_bit_not_laws<U: RValue<i64>>(e: Not<i64, U>, x: i64, r: Result<i64, EvalError>)
    requires
        forall|v: Result<i64, EvalError>| #[trigger] e.spec_op().eval_result(v) <==> v == Ok::<i64, EvalError>(x),
        e.eval_result(r),
    ensures
        r == Ok::<i64, EvalError>(!x),
        r matches Ok(c) && !c == x,
{
    assert(e.spec_op().eval_result(Ok(x)));
    assert(!!x == x) by (bit_vector);
}

/// The negation of the value the operand gives: added to the value it gives 0; the one
/// error is the overflow of the smallest value.
pub proof fn lemma_neg_laws<U: RValue<i64>>(e: Neg<i64, U>, x: i64, r: Result<i64, EvalError>)
    requires
        forall|v: Result<i64, EvalError>| #[trigger] e.spec_op().eval_result(v) <==> v == Ok::<i64, EvalError>(x),
        e.eval_result(r),
    ensures
        r matches Ok(c) ==> c + x == 0,
        (r is Err) <==> x == i64::MIN,
{
    assert(e.spec_op().eval_result(Ok(x)));
    lemma_checked_arith_laws(x, x);
}

} // verus!
