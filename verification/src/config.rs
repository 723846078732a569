use vstd::prelude::*;

verus! {

/// A source of configuration values looked up by key.
pub trait IConfigProvider {
    fn get(&mut self, key: &'static str) -> Option<String>;
}

} // verus!
