use vstd::prelude::*;
use vstd::std_specs::convert::FromSpecImpl;
use crate::error::ConfigError;
use crate::model::{kind_name, mismatch, Kind, Scalar};

verus! {

broadcast use vstd::string::group_string_axioms;

/// A scalar setting: an integer, a text or a boolean.
#[derive(Debug)]
pub enum FlatValue {
    Integer(isize),
    Text(String),
    Boolean(bool),
}

impl View for FlatValue {
    type V = Scalar;

    open spec fn view(&self) -> Scalar {
        match self {
            FlatValue::Integer(i) => Scalar::Integer(*i),
            FlatValue::Text(t) => Scalar::Text(t@),
            FlatValue::Boolean(b) => Scalar::Boolean(*b),
        }
    }
}

impl FlatValue {
    /// The kind of the live variant.
    pub open spec fn kind(&self) -> Kind {
        self@.kind()
    }

    /// The name of the value's kind: "integer", "text" or "boolean".
    pub fn display(&self) -> (name: String)
        ensures
            name@ == kind_name(self.kind()),
    {
        let subtype: &str = match self {
            FlatValue::Integer(_) => "integer",
            FlatValue::Text(_) => "text",
            FlatValue::Boolean(_) => "boolean",
        };
        subtype.to_string()
    }
}

impl Clone for FlatValue {
    fn clone(&self) -> (copy: Self)
        ensures
            copy == *self,
    {
        match self {
            FlatValue::Integer(i) => FlatValue::Integer(*i),
            FlatValue::Text(t) => FlatValue::Text(t.clone()),
            FlatValue::Boolean(b) => FlatValue::Boolean(*b),
        }
    }
}

impl PartialEq for FlatValue {
    fn eq(&self, other: &Self) -> (same: bool) {
        match (self, other) {
            (FlatValue::Integer(a), FlatValue::Integer(b)) => *a == *b,
            (FlatValue::Text(a), FlatValue::Text(b)) => *a == *b,
            (FlatValue::Boolean(a), FlatValue::Boolean(b)) => *a == *b,
            _ => false,
        }
    }
}

impl vstd::std_specs::cmp::PartialEqSpecImpl for FlatValue {
    open spec fn obeys_eq_spec() -> bool {
        true
    }

    open spec fn eq_spec(&self, other: &Self) -> bool {
        self@ == other@
    }
}

impl From<isize> for FlatValue {
    fn from(value: isize) -> (made: Self) {
        FlatValue::Integer(value)
    }
}

impl FromSpecImpl<isize> for FlatValue {
    open spec fn obeys_from_spec() -> bool {
        true
    }

    open spec fn from_spec(value: isize) -> Self {
        FlatValue::Integer(value)
    }
}

impl From<bool> for FlatValue {
    fn from(value: bool) -> (made: Self) {
        FlatValue::Boolean(value)
    }
}

impl FromSpecImpl<bool> for FlatValue {
    open spec fn obeys_from_spec() -> bool {
        true
    }

    open spec fn from_spec(value: bool) -> Self {
        FlatValue::Boolean(value)
    }
}

impl<'a> From<&'a str> for FlatValue {
    fn from(value: &'a str) -> (made: Self)
        ensures
            made@ == Scalar::Text(value@),
    {
        FlatValue::Text(value.to_string())
    }
}

/// A text made from a borrowed string is a new `String`: the contract of
/// `from` fixes its characters, and no more is known of it.
impl<'a> FromSpecImpl<&'a str> for FlatValue {
    open spec fn obeys_from_spec() -> bool {
        false
    }

    open spec fn from_spec(value: &'a str) -> Self {
        FlatValue::Text(choose|text: String| text@ == value@)
    }
}

/// Type-checked extraction of a native value of type `T`.
pub trait TryUnwrap<T> {
    /// The kind that this extraction asks for.
    spec fn requested() -> Kind;

    /// The kind that the value holds.
    spec fn held(&self) -> Kind;

    /// Whether `out` is what the value holds.
    spec fn yields(&self, out: T) -> bool;

    /// Returns what the value holds if its kind is the requested one, and
    /// otherwise the mismatch of the two kinds. Nothing is converted.
    fn try_unwrap(&self) -> (outcome: Result<T, ConfigError>)
        ensures
            match outcome {
                Ok(out) => self.held() == Self::requested() && self.yields(out),
                Err(e) => self.held() != Self::requested() && e@ == mismatch(
                    Self::requested(),
                    self.held(),
                ),
            },
    ;
}

impl TryUnwrap<isize> for FlatValue {
    open spec fn requested() -> Kind {
        Kind::Integer
    }

    open spec fn held(&self) -> Kind {
        self.kind()
    }

    open spec fn yields(&self, out: isize) -> bool {
        self@ == Scalar::Integer(out)
    }

    fn try_unwrap(&self) -> (outcome: Result<isize, ConfigError>) {
        match self {
            FlatValue::Integer(i) => Ok(*i),
            _ => Err(
                ConfigError::TypeMismatch {
                    expected: "integer".to_string(),
                    present: self.display(),
                },
            ),
        }
    }
}

impl TryUnwrap<String> for FlatValue {
    open spec fn requested() -> Kind {
        Kind::Text
    }

    open spec fn held(&self) -> Kind {
        self.kind()
    }

    open spec fn yields(&self, out: String) -> bool {
        self@ == Scalar::Text(out@)
    }

    fn try_unwrap(&self) -> (outcome: Result<String, ConfigError>) {
        match self {
            FlatValue::Text(t) => Ok(t.clone()),
            _ => Err(
                ConfigError::TypeMismatch {
                    expected: "text".to_string(),
                    present: self.display(),
                },
            ),
        }
    }
}

impl TryUnwrap<bool> for FlatValue {
    open spec fn requested() -> Kind {
        Kind::Boolean
    }

    open spec fn held(&self) -> Kind {
        self.kind()
    }

    open spec fn yields(&self, out: bool) -> bool {
        self@ == Scalar::Boolean(out)
    }

    fn try_unwrap(&self) -> (outcome: Result<bool, ConfigError>) {
        match self {
            FlatValue::Boolean(b) => Ok(*b),
            _ => Err(
                ConfigError::TypeMismatch {
                    expected: "boolean".to_string(),
                    present: self.display(),
                },
            ),
        }
    }
}

} // verus!
