//! An early-exit idiom for functions that return optional or fallible values.
//!
//! A return type opts in by implementing [`Yeet`], which fixes how a value of
//! that type is built from a failure payload. The statement-like helpers
//! [`yeet`] (no payload) and [`yeet_with`] (one payload) invoke that
//! conversion; a call site leaves the enclosing function early by writing
//! `return yeet();` or `return yeet_with(payload);`.
//!
//! The alternate spellings `raise`/`throw` and `raise_with`/`throw_with` are
//! re-exports of the same two functions: substituting one name for another
//! at any call site, with the same arguments, gives the same result.

use vstd::prelude::*;

verus! {

/// A return type that an early exit can construct from a failure payload.
///
/// Implementing `Yeet<E>` for a type states that a function declared to
/// return that type may be exited early with a payload of type `E`. The
/// conversion is total and pure: every well-typed payload yields a value of
/// the return type, with no side effects and no secondary failure.
///
/// Which implementation applies is resolved statically from the pair of the
/// enclosing function's return type and the payload's type; a pair with no
/// implementation is rejected when the program is type-checked, never at run
/// time.
pub trait Yeet<E>: Sized {
    /// The value of `Self` that an exit with payload `err` produces.
    spec fn from_err_spec(err: E) -> Self;

    /// Convert the exit payload to the return type.
    fn from_err(err: E) -> (r: Self)
        ensures
            r == Self::from_err_spec(err),
    ;
}

/// An optional return type is built from the unit payload alone: the exit
/// discards the payload and always produces the absent value. No other
/// payload type is accepted for an optional return type.
impl<T> Yeet<()> for Option<T> {
    open spec fn from_err_spec(err: ()) -> Option<T> {
        None
    }

    fn from_err(err: ()) -> (r: Option<T>) {
        None
    }
}

/// A result return type accepts any payload whose type matches its error
/// slot: the exit wraps the payload unchanged in the error variant.
impl<T, E> Yeet<E> for Result<T, E> {
    open spec fn from_err_spec(err: E) -> Result<T, E> {
        Err(err)
    }

    fn from_err(err: E) -> (r: Result<T, E>) {
        Err(err)
    }
}

/// The zero-argument exit form: produces the value that the enclosing
/// function's return type builds from the unit payload.
///
/// The call site must immediately return the result — `return yeet();` is
/// the sanctioned early-exit idiom. Do not use it inside a block whose job
/// is to aggregate several fallible sub-results into one composite outcome:
/// the return would leave the whole function, not contribute to the
/// aggregate.
pub fn yeet<R: Yeet<()>>() -> (r: R)
    ensures
        r == R::from_err_spec(()),
{
    R::from_err(())
}

/// The one-argument exit form: produces the value that the enclosing
/// function's return type builds from the payload `err`.
///
/// The call site must immediately return the result — `return
/// yeet_with(payload);` is the sanctioned early-exit idiom. The same
/// restriction as for [`yeet`] applies inside aggregating blocks.
pub fn yeet_with<R: Yeet<E>, E>(err: E) -> (r: R)
    ensures
        r == R::from_err_spec(err),
{
    R::from_err(err)
}

/// Exiting into an optional return type always yields the absent value:
/// there is exactly one observable outcome, with no dependence on any prior
/// state.
pub proof fn lemma_option_exit_absent<T>()
    ensures
        <Option<T> as Yeet<()>>::from_err_spec(()) == None::<T>,
{
}

/// Exiting into a result return type wraps the payload unchanged in the
/// error variant, for every payload value of every payload type.
pub proof fn lemma_result_exit_wraps_payload<T, E>(err: E)
    ensures
        <Result<T, E> as Yeet<E>>::from_err_spec(err) == Result::<T, E>::Err(err),
{
}

/// A function with no parameters that unconditionally performs the
/// zero-argument exit and declares an optional return type: it yields the
/// absent value.
pub fn foo() -> (r: Option<u32>)
    ensures
        r == None::<u32>,
{
    return yeet();
}

/// A function that unconditionally exits with the literal payload `42` and
/// declares a result return type: it yields the error variant carrying `42`.
pub fn bar() -> (r: Result<u32, u32>)
    ensures
        r == Result::<u32, u32>::Err(42),
{
    return yeet_with(42u32);
}

/// A function that exits only when its argument is odd and otherwise returns
/// an explicit success value. For every odd `x` the result is exactly the
/// exit-constructed value, so the success expression after the exit never
/// runs; for every even `x` it is the explicit success value.
pub fn baz(x: u32) -> (r: Result<u32, u32>)
    ensures
        x % 2 == 1 ==> r == Result::<u32, u32>::Err(x),
        x % 2 == 0 ==> r == Result::<u32, u32>::Ok(x),
{
    if x % 2 == 1 {
        return yeet_with(x);
    }
    Ok(x)
}

} // verus!

pub use self::yeet as raise;
pub use self::yeet as throw;
pub use self::yeet_with as raise_with;
pub use self::yeet_with as throw_with;
