use vstd::prelude::*;

verus! {

/// Take a value that must be present, under a message that would identify
/// the failure in the log. Absence is a programmer error with no recovery
/// path, so callers have to rule it out up front.
pub trait ExpectLogcat<T>: Sized {
    /// Whether a value is present.
    spec fn has_value(self) -> bool;

    /// The contained value.
    spec fn the_value(self) -> T;

    /// The contained value, extracted.
    fn expect_log(self, msg: &str) -> (r: T)
        requires
            self.has_value(),
        ensures
            r == self.the_value(),
    ;
}

impl<T, E> ExpectLogcat<T> for Result<T, E> {
    open spec fn has_value(self) -> bool {
        self is Ok
    }

    open spec fn the_value(self) -> T {
        self->Ok_0
    }

    fn expect_log(self, _msg: &str) -> (r: T) {
        match self {
            Ok(v) => v,
            Err(_) => unreached(),
        }
    }
}

impl<T> ExpectLogcat<T> for Option<T> {
    open spec fn has_value(self) -> bool {
        self is Some
    }

    open spec fn the_value(self) -> T {
        self->Some_0
    }

    fn expect_log(self, _msg: &str) -> (r: T) {
        match self {
            Some(v) => v,
            None => unreached(),
        }
    }
}

} // verus!
