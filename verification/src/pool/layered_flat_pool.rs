use vstd::prelude::*;
use crate::error::ConfigError;
use crate::flat_value::FlatValue;
use crate::model::{lookup, Settings};
use crate::pool::flat_pool::FlatPool;

verus! {

/// The settings of a stack of layers, where a later layer overrides the
/// ones before it.
pub open spec fn overlay(layers: Seq<Settings>) -> Settings
    decreases layers.len(),
{
    if layers.len() == 0 {
        Settings::empty()
    } else {
        overlay(layers.drop_last()).union_prefer_right(layers.last())
    }
}

/// What each pool of a list holds, in the list's order.
pub open spec fn stacked(pools: Seq<Box<dyn FlatPool>>) -> Seq<Settings> {
    Seq::new(pools.len(), |i: int| pools[i].settings())
}

/// No layer from index `from` on holds `name`.
pub open spec fn absent_from(layers: Seq<Settings>, from: int, name: Seq<char>) -> bool {
    forall|j: int| from <= j < layers.len() ==> !(#[trigger] layers[j]).contains_key(name)
}

/// A name that no layer holds is not in the overlay.
pub proof fn law_absent_from_every_layer(layers: Seq<Settings>, name: Seq<char>)
    requires
        absent_from(layers, 0, name),
    ensures
        !overlay(layers).contains_key(name),
    decreases layers.len(),
{
    if layers.len() > 0 {
        let below = layers.drop_last();
        assert forall|j: int| 0 <= j < below.len() implies !(#[trigger] below[j]).contains_key(
            name,
        ) by {
            assert(below[j] == layers[j]);
        }
        law_absent_from_every_layer(below, name);
    }
}

/// The overlay answers for a name with the value of the last layer that holds it.
pub proof fn law_last_holder_answers(layers: Seq<Settings>, top: int, name: Seq<char>)
    requires
        0 <= top < layers.len(),
        layers[top].contains_key(name),
        absent_from(layers, top + 1, name),
    ensures
        overlay(layers).contains_key(name),
        overlay(layers)[name] == layers[top][name],
    decreases layers.len(),
{
    let below = layers.drop_last();
    if top == layers.len() - 1 {
    } else {
        assert(!layers.last().contains_key(name));
        assert(below[top] == layers[top]);
        assert forall|j: int| top + 1 <= j < below.len() implies !(#[trigger] below[j]).contains_key(
            name,
        ) by {
            assert(below[j] == layers[j]);
        }
        law_last_holder_answers(below, top, name);
    }
}

/// Of two layers the later one answers for every name that it holds, and the
/// earlier one for the rest.
pub proof fn law_later_layer_overrides(earlier: Settings, later: Settings, name: Seq<char>)
    ensures
        lookup(overlay(seq![earlier, later]), name) == if later.contains_key(name) {
            Some(later[name])
        } else {
            lookup(earlier, name)
        },
{
    let layers = seq![earlier, later];
    if later.contains_key(name) {
        law_last_holder_answers(layers, 1, name);
    } else if earlier.contains_key(name) {
        law_last_holder_answers(layers, 0, name);
    } else {
        law_absent_from_every_layer(layers, name);
    }
}

/// A pool made of other pools. It holds no setting of its own: a name is
/// looked up in the layers from the last to the first, and the first hit
/// is the answer.
pub struct LayeredFlatPool {
    layers: Vec<Box<dyn FlatPool>>,
}

impl LayeredFlatPool {
    /// What each layer holds, from the first layer to the last.
    pub closed spec fn layer_settings(&self) -> Seq<Settings> {
        stacked(self.layers@)
    }

    /// Stacks the given pools, the last of them having the last word.
    pub fn new(layers: Vec<Box<dyn FlatPool>>) -> (pool: Self)
        ensures
            pool.layer_settings() == stacked(layers@),
    {
        LayeredFlatPool { layers }
    }
}

impl FlatPool for LayeredFlatPool {
    open spec fn settings(&self) -> Settings {
        overlay(self.layer_settings())
    }

    fn get(&self, name: &str) -> (found: Option<FlatValue>) {
        match self.get_borrow(name) {
            Some(value) => Some(value.clone()),
            None => None,
        }
    }

    fn has(&self, name: &str) -> (present: bool) {
        self.get_borrow(name).is_some()
    }

    fn unwrap(&self, name: &str) -> (value: FlatValue) {
        match self.get(name) {
            Some(value) => value,
            None => vstd::pervasive::unreached(),
        }
    }

    fn get_or(&self, name: &str, default: FlatValue) -> (value: FlatValue) {
        match self.get(name) {
            Some(value) => value,
            None => default,
        }
    }

    fn require(&self, name: &str) -> (outcome: Result<FlatValue, ConfigError>) {
        match self.get(name) {
            Some(value) => Ok(value),
            None => Err(ConfigError::Missing(name.to_string())),
        }
    }

    fn get_borrow(&self, name: &str) -> (found: Option<&FlatValue>) {
        let ghost stack = self.layer_settings();
        let mut i: usize = self.layers.len();
        while i > 0
            invariant
                i <= self.layers.len(),
                stack == self.layer_settings(),
                absent_from(stack, i as int, name@),
            decreases i,
        {
            i -= 1;
            let hit = self.layers[i].get_borrow(name);
            if hit.is_some() {
                proof {
                    assert(stack[i as int] == self.layers@[i as int].settings());
                    law_last_holder_answers(stack, i as int, name@);
                }
                return hit;
            }
            proof {
                assert(stack[i as int] == self.layers@[i as int].settings());
            }
        }
        proof {
            law_absent_from_every_layer(stack, name@);
        }
        None
    }
}

} // verus!
