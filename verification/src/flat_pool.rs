use vstd::prelude::*;
use vstd::hash_map::StringHashMap;
use crate::flat_value::FlatValue;
use crate::error::{ConfigError, ConfigErrorView};
use crate::model::{defaulted, lookup, required, Scalar, Settings};

verus! {

broadcast use vstd::string::group_string_axioms;

/// A pool of [`FlatValue`]s with accessors of its own, for callers that need
/// one concrete pool and no layering. `get` lends the value instead of
/// copying it.
pub struct FlatPool {
    settings: StringHashMap<FlatValue>,
}

impl FlatPool {
    /// What the pool holds.
    pub closed spec fn settings(&self) -> Settings {
        Map::new(
            |name: Seq<char>| self.settings@.contains_key(name),
            |name: Seq<char>| self.settings@[name]@,
        )
    }

    /// Puts `value` under `name`, in place of any value that was there, and
    /// hands the pool back so that calls can be chained.
    pub fn add(&mut self, name: &str, value: FlatValue) -> (chained: &mut Self)
        ensures
            chained.settings() == old(self).settings().insert(name@, value@),
            *final(self) == *final(chained),
    {
        self.settings.insert(name.to_string(), value);
        proof {
            assert(self.settings() =~= old(self).settings().insert(name@, value@));
        }
        self
    }

    /// The value under `name`, if there is one, without copying it.
    pub fn get(&self, name: &str) -> (found: Option<&FlatValue>)
        ensures
            match found {
                Some(value) => lookup(self.settings(), name@) == Some(value@),
                None => lookup(self.settings(), name@).is_none(),
            },
    {
        self.settings.get(name)
    }

    /// A copy of the value under `name`, or the error that names the missing setting.
    pub fn require(&self, name: &str) -> (outcome: Result<FlatValue, ConfigError>)
        ensures
            match outcome {
                Ok(value) => required(self.settings(), name@) == Ok::<Scalar, ConfigErrorView>(
                    value@,
                ),
                Err(e) => required(self.settings(), name@) == Err::<Scalar, ConfigErrorView>(e@),
            },
    {
        match self.get(name) {
            Some(value) => Ok(value.clone()),
            None => Err(ConfigError::Missing(name.to_string())),
        }
    }

    /// A copy of the value under `name`, for a name that is known to be present.
    pub fn unwrap(&self, name: &str) -> (value: FlatValue)
        requires
            self.settings().contains_key(name@),
        ensures
            value@ == self.settings()[name@],
    {
        match self.require(name) {
            Ok(value) => value,
            Err(_) => vstd::pervasive::unreached(),
        }
    }

    /// A copy of the value under `name`, or `default` itself where there is none.
    pub fn get_or(&self, name: &str, default: FlatValue) -> (value: FlatValue)
        ensures
            value@ == defaulted(self.settings(), name@, default@),
            !self.settings().contains_key(name@) ==> value == default,
    {
        match self.get(name) {
            Some(value) => value.clone(),
            None => default,
        }
    }

    /// Whether there is a value under `name`.
    pub fn has(&self, name: &str) -> (present: bool)
        ensures
            present == self.settings().contains_key(name@),
    {
        self.settings.contains_key(name)
    }
}

impl Default for FlatPool {
    fn default() -> (pool: Self)
        ensures
            pool.settings() == Settings::empty(),
    {
        let pool = FlatPool { settings: StringHashMap::new() };
        proof {
            assert(pool.settings() =~= Settings::empty());
        }
        pool
    }
}

} // verus!
