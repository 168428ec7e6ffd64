//! Symbols: the names of sorts, variants and declarations.

use vstd::prelude::*;
use vstd::string::*;
use vstd::std_specs::cmp::PartialEqSpecImpl;
use vstd::std_specs::convert::FromSpecImpl;
use crate::text::{text_is_ok, text_ok};

verus! {

/// Symbols are used to name several term and type constructors.
#[derive(Debug)]
pub enum Symbol {
    Int(u32),
    String(String),
}

/// What a symbol stands for: a number or a sequence of characters.
pub enum SymbolView {
    Int(u32),
    String(Seq<char>),
}

impl View for Symbol {
    type V = SymbolView;

    open spec fn view(&self) -> SymbolView {
        match self {
            Symbol::Int(i) => SymbolView::Int(*i),
            Symbol::String(s) => SymbolView::String(s@),
        }
    }
}

/// Whether the engine takes a symbol: a number below 2 to the power of 30,
/// or a text without a NUL character.
pub open spec fn symbol_ok(s: SymbolView) -> bool {
    match s {
        SymbolView::Int(i) => i < 0x4000_0000,
        SymbolView::String(t) => text_ok(t),
    }
}

/// The values of a list of symbols, in order.
pub open spec fn symbol_views(names: Seq<Symbol>) -> Seq<SymbolView> {
    Seq::new(names.len(), |i: int| names[i]@)
}

/// Whether no value occurs twice in a list.
pub open spec fn all_distinct(names: Seq<SymbolView>) -> bool {
    forall|i: int, j: int| 0 <= i < j < names.len() ==> names[i] != names[j]
}

impl Symbol {
    /// Whether the engine takes this symbol.
    pub fn representable(&self) -> (r: bool)
        ensures
            r == symbol_ok(self@),
    {
        match self {
            Symbol::Int(i) => *i < 0x4000_0000,
            Symbol::String(s) => text_is_ok(s.as_str()),
        }
    }

    /// Whether no two symbols of `names` are equal.
    pub fn distinct(names: &[Symbol]) -> (r: bool)
        ensures
            r == all_distinct(symbol_views(names@)),
    {
        let ghost views = symbol_views(names@);
        let mut j: usize = 0;
        while j < names.len()
            invariant
                j <= names.len(),
                views == symbol_views(names@),
                forall|a: int, b: int| 0 <= a < b < j ==> views[a] != views[b],
            decreases names.len() - j,
        {
            let mut i: usize = 0;
            while i < j
                invariant
                    i <= j < names.len(),
                    views == symbol_views(names@),
                    forall|a: int| 0 <= a < i ==> views[a] != views[j as int],
                decreases j - i,
            {
                if names[i] == names[j] {
                    assert(views[i as int] == views[j as int]);
                    return false;
                }
                i += 1;
            }
            j += 1;
        }
        true
    }
}

impl Clone for Symbol {
    fn clone(&self) -> (r: Symbol)
        ensures
            r@ == self@,
    {
        match self {
            Symbol::Int(i) => Symbol::Int(*i),
            Symbol::String(s) => Symbol::String(s.clone()),
        }
    }
}

/// Two symbols are equal where they are the same number or the same text.
impl PartialEq for Symbol {
    fn eq(&self, other: &Symbol) -> (r: bool) {
        match (self, other) {
            (Symbol::Int(a), Symbol::Int(b)) => *a == *b,
            (Symbol::String(a), Symbol::String(b)) => *a == *b,
            _ => false,
        }
    }
}

impl PartialEqSpecImpl for Symbol {
    open spec fn obeys_eq_spec() -> bool {
        true
    }

    open spec fn eq_spec(&self, other: &Symbol) -> bool {
        self@ == other@
    }
}

impl From<u32> for Symbol {
    fn from(val: u32) -> (r: Symbol)
        ensures
            r@ == SymbolView::Int(val),
    {
        Symbol::Int(val)
    }
}

impl FromSpecImpl<u32> for Symbol {
    open spec fn obeys_from_spec() -> bool {
        true
    }

    open spec fn from_spec(val: u32) -> Symbol {
        Symbol::Int(val)
    }
}

impl From<String> for Symbol {
    fn from(val: String) -> (r: Symbol)
        ensures
            r@ == SymbolView::String(val@),
    {
        Symbol::String(val)
    }
}

impl FromSpecImpl<String> for Symbol {
    open spec fn obeys_from_spec() -> bool {
        true
    }

    open spec fn from_spec(val: String) -> Symbol {
        Symbol::String(val)
    }
}

// Of a symbol made from a borrowed text only the value is known: no
// specification function gives the `String` that holds it.
impl From<&str> for Symbol {
    fn from(val: &str) -> (r: Symbol)
        ensures
            r@ == SymbolView::String(val@),
    {
        Symbol::String(String::from_str(val))
    }
}

impl FromSpecImpl<&str> for Symbol {
    open spec fn obeys_from_spec() -> bool {
        false
    }

    open spec fn from_spec(val: &str) -> Symbol {
        arbitrary()
    }
}

} // verus!
