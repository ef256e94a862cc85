use vstd::prelude::*;
use crate::error::{ConfigError, ConfigErrorView};
use crate::flat_value::FlatValue;
use crate::model::{defaulted, lookup, required, Scalar, Settings};

verus! {

/// A source of settings. Every accessor answers from [`FlatPool::settings`],
/// and none of them changes the pool.
pub trait FlatPool {
    /// What the pool holds.
    spec fn settings(&self) -> Settings;

    /// A copy of the value under `name`, if there is one.
    fn get(&self, name: &str) -> (found: Option<FlatValue>)
        ensures
            match found {
                Some(value) => lookup(self.settings(), name@) == Some(value@),
                None => lookup(self.settings(), name@).is_none(),
            },
    ;

    /// The value under `name`, if there is one, without copying it.
    fn get_borrow(&self, name: &str) -> (found: Option<&FlatValue>)
        ensures
            match found {
                Some(value) => lookup(self.settings(), name@) == Some(value@),
                None => lookup(self.settings(), name@).is_none(),
            },
    ;

    /// A copy of the value under `name`, or the error that names the missing setting.
    fn require(&self, name: &str) -> (outcome: Result<FlatValue, ConfigError>)
        ensures
            match outcome {
                Ok(value) => required(self.settings(), name@) == Ok::<Scalar, ConfigErrorView>(
                    value@,
                ),
                Err(e) => required(self.settings(), name@) == Err::<Scalar, ConfigErrorView>(e@),
            },
    ;

    /// A copy of the value under `name`, for a name that is known to be present.
    fn unwrap(&self, name: &str) -> (value: FlatValue)
        requires
            self.settings().contains_key(name@),
        ensures
            value@ == self.settings()[name@],
    ;

    /// A copy of the value under `name`, or `default` itself where there is none.
    fn get_or(&self, name: &str, default: FlatValue) -> (value: FlatValue)
        ensures
            value@ == defaulted(self.settings(), name@, default@),
            !self.settings().contains_key(name@) ==> value == default,
    ;

    /// Whether there is a value under `name`.
    fn has(&self, name: &str) -> (present: bool)
        ensures
            present == self.settings().contains_key(name@),
    ;
}

} // verus!
