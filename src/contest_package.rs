//! The description of a contest package (its `contest.xml`), as plain data.
use vstd::prelude::*;

verus! {

#[derive(Clone, Debug)]
pub struct Contest {
    pub url: String,
    pub names: Names,
    pub problems: Problems,
}

#[derive(Clone, Debug)]
pub struct Names {
    pub name: Vec<Name>,
}

#[derive(Clone, Debug)]
pub struct Name {
    pub language: String,
    pub value: String,
}

#[derive(Clone, Debug)]
pub struct Problems {
    pub problem: Vec<Problem>,
}

#[derive(Clone, Debug)]
pub struct Problem {
    pub index: String,
    pub url: String,
}

} // verus!
