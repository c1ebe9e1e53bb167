//! Small helpers over `Result` and optional paths.

use vstd::prelude::*;

verus! {

/// A result that can be resolved: a success is kept, a failure is handed to a
/// function that may still turn it into a success.
pub trait TryResolve<T, E>: Sized {
    /// The success this holds, if it is one.
    spec fn success(&self) -> Option<T>;

    /// The failure this holds, if it is one.
    spec fn failure(&self) -> Option<E>;

    /// Keeps a success; hands a failure to `f` and returns what `f` returns.
    fn try_resolve<U, F: FnOnce(E) -> Result<T, U>>(self, f: F) -> (r: Result<T, U>)
        requires
            self.failure() matches Some(e) ==> call_requires(f, (e,)),
        ensures
            self.success() matches Some(v) ==> r == Ok::<T, U>(v),
            self.failure() matches Some(e) ==> call_ensures(f, (e,), r),
    ;
}

impl<T, E> TryResolve<T, E> for Result<T, E> {
    open spec fn success(&self) -> Option<T> {
        match self {
            Ok(v) => Some(*v),
            Err(_) => None,
        }
    }

    open spec fn failure(&self) -> Option<E> {
        match self {
            Ok(_) => None,
            Err(e) => Some(*e),
        }
    }

    fn try_resolve<U, F: FnOnce(E) -> Result<T, U>>(self, f: F) -> (r: Result<T, U>) {
        match self {
            Ok(value) => Ok(value),
            Err(e) => f(e),
        }
    }
}

/// The name that stands for standard input where a path is expected.
pub open spec fn stdin_name() -> Seq<char> {
    "<stdin>"@
}

/// An optional path, read as standard input where it is absent.
pub trait OrStdin: Sized {
    /// The path, if there is one.
    spec fn path_view(&self) -> Option<Seq<char>>;

    /// The path, or `<stdin>` where there is none.
    fn or_stdin(&self) -> (r: String)
        ensures
            r@ == match self.path_view() {
                Some(p) => p,
                None => stdin_name(),
            },
    ;
}

impl OrStdin for Option<&String> {
    open spec fn path_view(&self) -> Option<Seq<char>> {
        match self {
            Some(p) => Some(p@),
            None => None,
        }
    }

    fn or_stdin(&self) -> (r: String) {
        match self {
            Some(p) => (*p).clone(),
            None => String::from_str("<stdin>"),
        }
    }
}

} // verus!
