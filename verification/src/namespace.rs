//! Names of namespaces.

use vstd::prelude::*;

verus! {

/// The name of a namespace.
#[derive(Debug)]
pub struct NamespaceName {
    pub name: String,
}

impl View for NamespaceName {
    type V = Seq<char>;

    open spec fn view(&self) -> Seq<char> {
        self.name@
    }
}

impl Clone for NamespaceName {
    fn clone(&self) -> (r: Self)
        ensures
            r == *self,
    {
        NamespaceName { name: self.name.clone() }
    }
}

impl NamespaceName {
    /// The text of the name.
    pub fn as_str(&self) -> (r: &str)
        ensures
            r@ == self@,
    {
        self.name.as_str()
    }
}

/// Whether `parse` may read the name `outcome` from a text, or refuse it.
pub open spec fn reads_name<F: Fn(&str) -> Option<NamespaceName>>(
    parse: F,
    text: Seq<char>,
    outcome: Option<NamespaceName>,
) -> bool {
    exists|t: &str| t@ == text && #[trigger] call_ensures(parse, (t,), outcome)
}

} // verus!
