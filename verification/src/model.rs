use vstd::prelude::*;
use crate::error::ConfigErrorView;

verus! {

/// The three kinds a value can have.
pub enum Kind {
    Integer,
    Text,
    Boolean,
}

/// What a value holds, with a text as a sequence of characters.
pub enum Scalar {
    Integer(isize),
    Text(Seq<char>),
    Boolean(bool),
}

impl Scalar {
    /// The kind of the live variant.
    pub open spec fn kind(self) -> Kind {
        match self {
            Scalar::Integer(_) => Kind::Integer,
            Scalar::Text(_) => Kind::Text,
            Scalar::Boolean(_) => Kind::Boolean,
        }
    }
}

/// The name under which a kind appears in diagnostics.
pub open spec fn kind_name(kind: Kind) -> Seq<char> {
    match kind {
        Kind::Integer => "integer"@,
        Kind::Text => "text"@,
        Kind::Boolean => "boolean"@,
    }
}

/// The error that reports a value of kind `present` asked for as kind `expected`.
pub open spec fn mismatch(expected: Kind, present: Kind) -> ConfigErrorView {
    ConfigErrorView::TypeMismatch { expected: kind_name(expected), present: kind_name(present) }
}

/// What a pool holds: each name that is present, with the one value under it.
pub type Settings = Map<Seq<char>, Scalar>;

/// The value under `name`, if there is one.
pub open spec fn lookup(settings: Settings, name: Seq<char>) -> Option<Scalar> {
    if settings.contains_key(name) {
        Some(settings[name])
    } else {
        None
    }
}

/// The value under `name`, or the error that names the missing setting.
pub open spec fn required(settings: Settings, name: Seq<char>) -> Result<Scalar, ConfigErrorView> {
    if settings.contains_key(name) {
        Ok(settings[name])
    } else {
        Err(ConfigErrorView::Missing(name))
    }
}

/// The value under `name`, or `default` where there is none.
pub open spec fn defaulted(settings: Settings, name: Seq<char>, default: Scalar) -> Scalar {
    if settings.contains_key(name) {
        settings[name]
    } else {
        default
    }
}

/// What a pool holds after the given additions were made to an empty pool,
/// one after the other.
pub open spec fn filled(additions: Seq<(Seq<char>, Scalar)>) -> Settings
    decreases additions.len(),
{
    if additions.len() == 0 {
        Settings::empty()
    } else {
        filled(additions.drop_last()).insert(additions.last().0, additions.last().1)
    }
}

/// A name that a pool does not hold is not found, is reported as missing when
/// it is required, and gives way to the default.
pub proof fn law_absent_name(settings: Settings, name: Seq<char>, default: Scalar)
    requires
        !settings.contains_key(name),
    ensures
        lookup(settings, name).is_none(),
        required(settings, name) == Err::<Scalar, ConfigErrorView>(ConfigErrorView::Missing(name)),
        defaulted(settings, name, default) == default,
{
}

/// A pool that was filled without ever adding under `name` does not hold `name`.
pub proof fn law_never_added(additions: Seq<(Seq<char>, Scalar)>, name: Seq<char>)
    requires
        forall|i: int| 0 <= i < additions.len() ==> (#[trigger] additions[i]).0 != name,
    ensures
        !filled(additions).contains_key(name),
    decreases additions.len(),
{
    if additions.len() > 0 {
        let earlier = additions.drop_last();
        assert forall|i: int| 0 <= i < earlier.len() implies (#[trigger] earlier[i]).0 != name by {
            assert(earlier[i] == additions[i]);
        }
        assert(additions.last() == additions[additions.len() - 1]);
        law_never_added(earlier, name);
    }
}

/// Once a value is added under a name, every accessor answers with that
/// value, whatever the pool held before and whatever default is offered.
pub proof fn law_added_name(before: Settings, name: Seq<char>, value: Scalar, default: Scalar)
    ensures
        before.insert(name, value).contains_key(name),
        before.insert(name, value)[name] == value,
        lookup(before.insert(name, value), name) == Some(value),
        required(before.insert(name, value), name) == Ok::<Scalar, ConfigErrorView>(value),
        defaulted(before.insert(name, value), name, default) == value,
{
}

/// Adding under a name leaves every other name as it was.
pub proof fn law_added_elsewhere(
    before: Settings,
    name: Seq<char>,
    value: Scalar,
    other: Seq<char>,
)
    requires
        other != name,
    ensures
        lookup(before.insert(name, value), other) == lookup(before, other),
{
}

/// Adding twice under one name leaves what adding the second value alone
/// would have left: the second value replaces the first, and the pool holds
/// the name once.
pub proof fn law_added_again(before: Settings, name: Seq<char>, first: Scalar, second: Scalar)
    ensures
        before.insert(name, first).insert(name, second) == before.insert(name, second),
        lookup(before.insert(name, first).insert(name, second), name) == Some(second),
{
    assert(before.insert(name, first).insert(name, second) =~= before.insert(name, second));
}

} // verus!
