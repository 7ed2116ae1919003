//! Addresses and symbols: the texts by which a ledger knows accounts,
//! contracts and jars.

use vstd::prelude::*;

verus! {

/// The address of an account or of a contract, as its text on the ledger.
#[derive(Debug)]
pub struct Address {
    pub text: String,
}

impl View for Address {
    type V = Seq<char>;

    open spec fn view(&self) -> Seq<char> {
        self.text@
    }
}

impl Address {
    /// The address with the given text.
    pub fn new(text: &str) -> (address: Address)
        ensures
            address@ == text@,
    {
        Address { text: text.to_owned() }
    }
}

impl Clone for Address {
    fn clone(&self) -> (copy: Address)
        ensures
            copy@ == self@,
    {
        Address { text: self.text.clone() }
    }
}

impl PartialEq for Address {
    fn eq(&self, other: &Address) -> (same: bool) {
        self.text == other.text
    }
}

impl vstd::std_specs::cmp::PartialEqSpecImpl for Address {
    open spec fn obeys_eq_spec() -> bool {
        true
    }

    open spec fn eq_spec(&self, other: &Address) -> bool {
        self@ == other@
    }
}

impl Eq for Address {

}

/// A short name, such as that of a jar.
#[derive(Debug)]
pub struct Symbol {
    pub text: String,
}

impl View for Symbol {
    type V = Seq<char>;

    open spec fn view(&self) -> Seq<char> {
        self.text@
    }
}

impl Symbol {
    /// The symbol with the given text.
    pub fn new(text: &str) -> (symbol: Symbol)
        ensures
            symbol@ == text@,
    {
        Symbol { text: text.to_owned() }
    }
}

impl Clone for Symbol {
    fn clone(&self) -> (copy: Symbol)
        ensures
            copy@ == self@,
    {
        Symbol { text: self.text.clone() }
    }
}

impl PartialEq for Symbol {
    fn eq(&self, other: &Symbol) -> (same: bool) {
        self.text == other.text
    }
}

impl vstd::std_specs::cmp::PartialEqSpecImpl for Symbol {
    open spec fn obeys_eq_spec() -> bool {
        true
    }

    open spec fn eq_spec(&self, other: &Symbol) -> bool {
        self@ == other@
    }
}

impl Eq for Symbol {

}

/// The jar for what must be paid.
pub const JAR_NEEDS: &'static str = "needs";

/// The jar for what would be nice to have.
pub const JAR_WANTS: &'static str = "wants";

/// The jar whose money stays locked for a time.
pub const JAR_SAVINGS: &'static str = "savings";

/// The three jar names are different from one another.
pub proof fn jar_names_differ()
    ensures
        JAR_NEEDS@ != JAR_WANTS@,
        JAR_NEEDS@ != JAR_SAVINGS@,
        JAR_WANTS@ != JAR_SAVINGS@,
{
    reveal_strlit("needs");
    reveal_strlit("wants");
    reveal_strlit("savings");
    assert(JAR_NEEDS@[0] == 'n');
    assert(JAR_WANTS@[0] == 'w');
    assert(JAR_SAVINGS@[0] == 's');
}

} // verus!
