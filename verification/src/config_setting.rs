use vstd::prelude::*;
use vstd::std_specs::convert::FromSpecImpl;
use crate::error::ConfigError;
use crate::flat_value::TryUnwrap;
use crate::model::{kind_name, mismatch, Kind, Scalar};

verus! {

broadcast use vstd::string::group_string_axioms;

/// A setting as [`ConfigSettingPool`](crate::setting_pool::ConfigSettingPool)
/// stores it: an integer, a text or a boolean.
#[derive(Debug)]
pub enum ConfigSetting {
    Integer(isize),
    Text(String),
    Boolean(bool),
}

impl View for ConfigSetting {
    type V = Scalar;

    open spec fn view(&self) -> Scalar {
        match self {
            ConfigSetting::Integer(i) => Scalar::Integer(*i),
            ConfigSetting::Text(t) => Scalar::Text(t@),
            ConfigSetting::Boolean(b) => Scalar::Boolean(*b),
        }
    }
}

impl ConfigSetting {
    /// The kind of the live variant.
    pub open spec fn kind(&self) -> Kind {
        self@.kind()
    }

    /// The name of the value's kind: "integer", "text" or "boolean".
    pub fn display(&self) -> (name: String)
        ensures
            name@ == kind_name(self.kind()),
    {
        let subtype: &str = match self {
            ConfigSetting::Integer(_) => "integer",
            ConfigSetting::Text(_) => "text",
            ConfigSetting::Boolean(_) => "boolean",
        };
        subtype.to_string()
    }
}

impl Clone for ConfigSetting {
    fn clone(&self) -> (copy: Self)
        ensures
            copy == *self,
    {
        match self {
            ConfigSetting::Integer(i) => ConfigSetting::Integer(*i),
            ConfigSetting::Text(t) => ConfigSetting::Text(t.clone()),
            ConfigSetting::Boolean(b) => ConfigSetting::Boolean(*b),
        }
    }
}

impl From<isize> for ConfigSetting {
    fn from(value: isize) -> (made: Self) {
        ConfigSetting::Integer(value)
    }
}

impl FromSpecImpl<isize> for ConfigSetting {
    open spec fn obeys_from_spec() -> bool {
        true
    }

    open spec fn from_spec(value: isize) -> Self {
        ConfigSetting::Integer(value)
    }
}

impl From<bool> for ConfigSetting {
    fn from(value: bool) -> (made: Self) {
        ConfigSetting::Boolean(value)
    }
}

impl FromSpecImpl<bool> for ConfigSetting {
    open spec fn obeys_from_spec() -> bool {
        true
    }

    open spec fn from_spec(value: bool) -> Self {
        ConfigSetting::Boolean(value)
    }
}

impl<'a> From<&'a str> for ConfigSetting {
    fn from(value: &'a str) -> (made: Self)
        ensures
            made@ == Scalar::Text(value@),
    {
        ConfigSetting::Text(value.to_string())
    }
}

/// A text made from a borrowed string is a new `String`: the contract of
/// `from` fixes its characters, and no more is known of it.
impl<'a> FromSpecImpl<&'a str> for ConfigSetting {
    open spec fn obeys_from_spec() -> bool {
        false
    }

    open spec fn from_spec(value: &'a str) -> Self {
        ConfigSetting::Text(choose|text: String| text@ == value@)
    }
}

impl TryUnwrap<isize> for ConfigSetting {
    open spec fn requested() -> Kind {
        Kind::Integer
    }

    open spec fn held(&self) -> Kind {
        self.kind()
    }

    open spec fn yields(&self, out: isize) -> bool {
        self@ == Scalar::Integer(out)
    }

    fn try_unwrap(&self) -> (outcome: Result<isize, ConfigError>) {
        match self {
            ConfigSetting::Integer(i) => Ok(*i),
            _ => Err(
                ConfigError::TypeMismatch {
                    expected: "integer".to_string(),
                    present: self.display(),
                },
            ),
        }
    }
}

impl TryUnwrap<String> for ConfigSetting {
    open spec fn requested() -> Kind {
        Kind::Text
    }

    open spec fn held(&self) -> Kind {
        self.kind()
    }

    open spec fn yields(&self, out: String) -> bool {
        self@ == Scalar::Text(out@)
    }

    fn try_unwrap(&self) -> (outcome: Result<String, ConfigError>) {
        match self {
            ConfigSetting::Text(t) => Ok(t.clone()),
            _ => Err(
                ConfigError::TypeMismatch {
                    expected: "text".to_string(),
                    present: self.display(),
                },
            ),
        }
    }
}

impl TryUnwrap<bool> for ConfigSetting {
    open spec fn requested() -> Kind {
        Kind::Boolean
    }

    open spec fn held(&self) -> Kind {
        self.kind()
    }

    open spec fn yields(&self, out: bool) -> bool {
        self@ == Scalar::Boolean(out)
    }

    fn try_unwrap(&self) -> (outcome: Result<bool, ConfigError>) {
        match self {
            ConfigSetting::Boolean(b) => Ok(*b),
            _ => Err(
                ConfigError::TypeMismatch {
                    expected: "boolean".to_string(),
                    present: self.display(),
                },
            ),
        }
    }
}

} // verus!
