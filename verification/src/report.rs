//! Recording of warnings.
//!
//! Address resolution warns, without failing, when a record carries the
//! invalid section index zero. The warnings are recorded as values so that
//! their occurrence is part of each builder's contract; the surrounding
//! tooling drains the entries into its logging facility.

use vstd::prelude::*;

verus! {

/// The warnings emitted so far during one extraction pass: one entry per
/// warning, oldest first, each naming the offending symbol.
pub struct WarningLog {
    /// The names of the symbols warned about.
    pub entries: Vec<String>,
}

impl View for WarningLog {
    type V = Seq<Seq<char>>;

    open spec fn view(&self) -> Seq<Seq<char>> {
        self.entries@.map_values(|s: String| s@)
    }
}

impl WarningLog {
    pub fn new() -> (r: WarningLog)
        ensures
            r@ == Seq::<Seq<char>>::empty(),
    {
        let log = WarningLog { entries: Vec::new() };
        proof {
            assert(log@ =~= Seq::<Seq<char>>::empty());
        }
        log
    }

    /// Records one warning naming the offending symbol.
    pub fn record(&mut self, symbol_name: &str)
        ensures
            final(self)@ == old(self)@.push(symbol_name@),
    {
        self.entries.push(symbol_name.to_owned());
        proof {
            assert(self@ =~= old(self)@.push(symbol_name@));
        }
    }

    pub fn len(&self) -> (n: usize)
        ensures
            n == self@.len(),
    {
        self.entries.len()
    }
}

} // verus!
