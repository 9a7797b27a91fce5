//! Values handed to templates.

use crate::utilities::{camel_case, snake_case, CaseWrapper, Casing};
use vstd::prelude::*;

verus! {

/// A name in the three cases that the templates use.
#[derive(Debug, Clone, PartialEq, Eq)]
pub struct VariableName {
    pub pascal_case_name: String,
    pub camel_case_name: String,
    pub snake_case_name: String,
}

impl VariableName {
    /// The three forms of `name`, which is taken to be in Pascal case.
    pub fn from_string(name: &String) -> (forms: VariableName)
        ensures
            forms.pascal_case_name@ == name@,
            forms.camel_case_name@ == camel_case(name@),
            forms.snake_case_name@ == snake_case(name@),
    {
        VariableName {
            pascal_case_name: name.clone(),
            camel_case_name: CaseWrapper(name.clone()).to_camel_case(),
            snake_case_name: CaseWrapper(name.clone()).to_snake_case(),
        }
    }
}

/// One string for a template.
#[derive(Debug, Clone, PartialEq, Eq)]
pub struct StringValue {
    pub value: String,
}

/// Two strings that belong together, such as a name and its type.
#[derive(Debug, Clone, PartialEq, Eq)]
pub struct TwoStringValue {
    pub value1: String,
    pub value2: String,
}

} // verus!
