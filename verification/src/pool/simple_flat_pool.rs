use vstd::prelude::*;
use vstd::hash_map::StringHashMap;
use crate::error::ConfigError;
use crate::flat_value::FlatValue;
use crate::model::Settings;
use crate::pool::flat_pool::FlatPool;

verus! {

broadcast use vstd::string::group_string_axioms;

/// A pool backed by one map of its own.
pub struct SimpleFlatPool {
    settings: StringHashMap<FlatValue>,
}

impl SimpleFlatPool {
    /// Puts `value` under `name`, in place of any value that was there, and
    /// hands the pool back so that calls can be chained.
    pub fn add(&mut self, name: &str, value: FlatValue) -> (chained: &mut Self)
        ensures
            chained.settings() == old(self).settings().insert(name@, value@),
            *final(self) == *final(chained),
    {
        self.settings.insert(name.to_string(), value);
        proof {
            assert(self.settings() =~= old(self).settings().insert(name@, value@));
        }
        self
    }

    /// How many names the pool holds.
    pub fn len(&self) -> (count: usize)
        ensures
            count == self.settings().len(),
    {
        proof {
            assert(self.settings().dom() =~= self.settings@.dom());
        }
        self.settings.len()
    }
}

impl Default for SimpleFlatPool {
    fn default() -> (pool: Self)
        ensures
            pool.settings() == Settings::empty(),
    {
        let pool = SimpleFlatPool { settings: StringHashMap::new() };
        proof {
            assert(pool.settings() =~= Settings::empty());
        }
        pool
    }
}

impl FlatPool for SimpleFlatPool {
    closed spec fn settings(&self) -> Settings {
        Map::new(
            |name: Seq<char>| self.settings@.contains_key(name),
            |name: Seq<char>| self.settings@[name]@,
        )
    }

    fn get(&self, name: &str) -> (found: Option<FlatValue>) {
        match self.settings.get(name) {
            Some(value) => Some(value.clone()),
            None => None,
        }
    }

    fn get_borrow(&self, name: &str) -> (found: Option<&FlatValue>) {
        self.settings.get(name)
    }

    fn require(&self, name: &str) -> (outcome: Result<FlatValue, ConfigError>) {
        match self.get(name) {
            Some(value) => Ok(value),
            None => Err(ConfigError::Missing(name.to_string())),
        }
    }

    fn unwrap(&self, name: &str) -> (value: FlatValue) {
        match self.get(name) {
            Some(value) => value,
            None => vstd::pervasive::unreached(),
        }
    }

    fn get_or(&self, name: &str, default: FlatValue) -> (value: FlatValue) {
        match self.get(name) {
            Some(value) => value,
            None => default,
        }
    }

    fn has(&self, name: &str) -> (present: bool) {
        self.settings.contains_key(name)
    }
}

} // verus!
