use crate::convert::converted;
use vstd::prelude::*;
use vstd::string::*;

verus! {

/// An engine option that can be set by the GUI.
#[derive(Debug, Clone, PartialEq, Eq)]
pub struct EngineOption {
    /// The name of the option.
    pub name: String,
    /// The type of the option.
    pub option_type: OptionType,
}

impl EngineOption {
    /// Create a new engine option.
    pub fn new<N>(name: N, option_type: OptionType) -> (option: Self) where N: Into<String>
        ensures
            converted(name, option.name),
            option.option_type == option_type,
    {
        Self { name: name.into(), option_type }
    }

    /// Create a new option for the size of the hashtable.
    ///
    /// All values must be in MB, with `min_mb <= default_mb <= max_mb`.
    pub fn hash(min_mb: usize, max_mb: usize, default_mb: usize) -> (option: Self)
        requires
            min_mb <= default_mb <= max_mb,
        ensures
            option.name@ == "Hash"@,
            option.option_type == OptionType::Spin(
                SpinOption { default: default_mb, min: min_mb, max: max_mb },
            ),
            option.option_type->Spin_0.well_formed(),
    {
        Self::new("Hash", OptionType::Spin(SpinOption::new(min_mb, max_mb, default_mb)))
    }
}

/// The type of the engine option.
#[derive(Debug, Clone, PartialEq, Eq)]
pub enum OptionType {
    /// A checkbox that can take the values `true` or `false`.
    Check(CheckOption),
    /// A spin wheel that can be an integer in a certain range.
    Spin(SpinOption),
    /// A combo box that can have different predefined strings as value.
    Combo(ComboOption),
    /// A button that can be pressed to send a command to the engine.
    Button,
    /// A text field that has a string as a value.
    String(StringOption),
}

/// A checkbox that can take the values `true` or `false`.
#[derive(Debug, Clone, Copy, PartialEq, Eq, Structural)]
pub struct CheckOption {
    /// The default value for the checkbox.
    pub default: bool,
}

/// A spin wheel that can be an integer in a certain range.
#[derive(Debug, Clone, Copy, PartialEq, Eq, Structural)]
pub struct SpinOption {
    /// The default value for the spin wheel.
    pub default: usize,
    /// The minimum value of the spin wheel.
    pub min: usize,
    /// The maximum value of the spin wheel.
    pub max: usize,
}

impl SpinOption {
    /// The values can make a spin option: the bounds are in order and the
    /// default lies between them.
    pub open spec fn in_order(min: usize, max: usize, default: usize) -> bool {
        min <= default <= max
    }

    /// The option holds what a spin option must: `min <= default <= max`.
    pub open spec fn well_formed(&self) -> bool {
        Self::in_order(self.min, self.max, self.default)
    }

    /// Create a new spin option, if the values can make one: `None` unless
    /// `min <= default <= max`.
    pub fn try_new(min: usize, max: usize, default: usize) -> (option: Option<Self>)
        ensures
            option == if Self::in_order(min, max, default) {
                Some(SpinOption { default, min, max })
            } else {
                None
            },
    {
        if min <= default && default <= max {
            Some(Self::new(min, max, default))
        } else {
            None
        }
    }

    /// Create a new spin option.
    ///
    /// The `min` must be smaller or equal to `max`.
    /// The `default` must be between `min` and `max`.
    pub fn new(min: usize, max: usize, default: usize) -> (option: Self)
        requires
            Self::in_order(min, max, default),
        ensures
            option == (SpinOption { default, min, max }),
            option.well_formed(),
    {
        Self { min, max, default }
    }
}

/// A combo box that can have different predefined strings as value.
#[derive(Debug, Clone, PartialEq, Eq)]
pub struct ComboOption {
    /// The default value for the combo box.
    pub default: String,
    /// The possible values the combo box can have.
    pub values: Vec<String>,
}

/// A text field that has a string as a value.
#[derive(Debug, Clone, PartialEq, Eq)]
pub struct StringOption {
    /// The default value of the text field.
    pub default: String,
}

} // verus!
