//! System V hash table resolved through the dynamic array.
use vstd::prelude::*;
use vstd::string::StringSliceAdditionalSpecFns;
use super::dynamic_symbol_table::{DynamicSymbolTable, DynamicSymbolTableModel};
use super::symbol_table::spec_symbol_name;
use super::hash::{hash, spec_hash};

verus! {

pub struct DynamicHashTableModel {
    pub buckets: Seq<u32>,
    pub chains: Seq<u32>,
    pub symbols: DynamicSymbolTableModel,
}

/// Following a hash chain from symbol `index` with at most `fuel` further
/// links: `Some(Some(i))` when symbol `i` is named `name`, `Some(None)` when
/// the chain ends (index 0, an unnamed symbol or a link outside the chain
/// array), and `None` when the fuel runs out first.
pub open spec fn spec_walk(
    symbols: Seq<super::symbol::Symbol>,
    strings: Seq<u8>,
    chains: Seq<u32>,
    name: Seq<u8>,
    index: int,
    fuel: nat,
) -> Option<Option<usize>>
    decreases fuel,
{
    if index == 0 {
        Some(None)
    } else {
        match spec_symbol_name(symbols, strings, index) {
            None => Some(None),
            Some(symbol_name) => if symbol_name == name {
                Some(Some(index as usize))
            } else if index < 0 || index >= chains.len() {
                Some(None)
            } else if fuel == 0 {
                None
            } else {
                spec_walk(symbols, strings, chains, name, chains[index] as int, (fuel - 1) as nat)
            },
        }
    }
}

/// A walk that ends gives the same answer whatever fuel it was given.
pub proof fn lemma_walk_fuel_independent(
    symbols: Seq<super::symbol::Symbol>,
    strings: Seq<u8>,
    chains: Seq<u32>,
    name: Seq<u8>,
    index: int,
    fuel_a: nat,
    fuel_b: nat,
)
    requires
        spec_walk(symbols, strings, chains, name, index, fuel_a) is Some,
        spec_walk(symbols, strings, chains, name, index, fuel_b) is Some,
    ensures
        spec_walk(symbols, strings, chains, name, index, fuel_a) == spec_walk(symbols, strings, chains, name, index, fuel_b),
    decreases fuel_a,
{
    if fuel_a > 0 && fuel_b > 0 && index > 0 && index < chains.len() && spec_symbol_name(symbols, strings, index) is Some
        && spec_symbol_name(symbols, strings, index).unwrap() != name {
        lemma_walk_fuel_independent(symbols, strings, chains, name, chains[index] as int, (fuel_a - 1) as nat, (fuel_b - 1) as nat);
    }
}

/// When a walk with some fuel answers `found`, every walk that ends answers
/// `found`.
pub proof fn lemma_walk_answer(
    symbols: Seq<super::symbol::Symbol>,
    strings: Seq<u8>,
    chains: Seq<u32>,
    name: Seq<u8>,
    index: int,
    fuel: nat,
    found: Option<usize>,
)
    requires
        spec_walk(symbols, strings, chains, name, index, fuel) == Some(found),
    ensures
        forall|other: nat| #[trigger] spec_walk(symbols, strings, chains, name, index, other) is Some
            ==> spec_walk(symbols, strings, chains, name, index, other) == Some(found),
{
    assert forall|other: nat| #[trigger] spec_walk(symbols, strings, chains, name, index, other) is Some
        implies spec_walk(symbols, strings, chains, name, index, other) == Some(found) by {
        lemma_walk_fuel_independent(symbols, strings, chains, name, index, other, fuel);
    }
}

/// A symbol that a chain walk finds for `name` is named `name`.
pub proof fn lemma_walk_finds_named_symbol(
    symbols: Seq<super::symbol::Symbol>,
    strings: Seq<u8>,
    chains: Seq<u32>,
    name: Seq<u8>,
    index: int,
    fuel: nat,
)
    requires
        symbols.len() <= usize::MAX,
        spec_walk(symbols, strings, chains, name, index, fuel) matches Some(Some(_)),
    ensures
        spec_walk(symbols, strings, chains, name, index, fuel) matches Some(Some(found))
            && found != 0 && spec_symbol_name(symbols, strings, found as int) == Some(name),
    decreases fuel,
{
    if index != 0 && spec_symbol_name(symbols, strings, index) is Some && spec_symbol_name(symbols, strings, index).unwrap() != name
        && 0 <= index < chains.len() && fuel > 0 {
        lemma_walk_finds_named_symbol(symbols, strings, chains, name, chains[index] as int, (fuel - 1) as nat);
    }
}

/// Whether two byte strings are equal.
pub fn bytes_equal(a: &[u8], b: &[u8]) -> (r: bool)
    ensures
        r == (a@ == b@),
{
    if a.len() != b.len() {
        return false;
    }
    let mut index: usize = 0;
    while index < a.len()
        invariant
            a@.len() == b@.len(),
            0 <= index <= a@.len(),
            forall|j: int| 0 <= j < index ==> a@[j] == b@[j],
        decreases a@.len() - index,
    {
        if a[index] != b[index] {
            return false;
        }
        index += 1;
    }
    assert(a@ =~= b@);
    true
}

#[derive(Debug)]
pub struct DynamicHashTable<'file> {
    pub buckets: Vec<u32>,
    pub chains: Vec<u32>,
    pub symbols: DynamicSymbolTable<'file>,
}

impl<'file> DynamicHashTable<'file> {
    pub open spec fn model(&self) -> DynamicHashTableModel {
        DynamicHashTableModel { buckets: self.buckets@, chains: self.chains@, symbols: self.symbols.model() }
    }

    /// The first symbol of the chain that the hash of `name` selects.
    pub open spec fn spec_start(&self, name: Seq<u8>) -> int {
        self.buckets@[(spec_hash(name) as usize % self.buckets@.len() as usize) as int] as int
    }

    /// Whether the chain lookup of `name` ends: `find` does not return on a
    /// chain that cycles without meeting `name`.
    pub open spec fn lookup_ends(&self, name: Seq<u8>) -> bool {
        self.buckets@.len() > 0 ==> exists|fuel: nat| #[trigger] spec_walk(
            self.symbols.symbols@,
            self.symbols.strings.bytes@,
            self.chains@,
            name,
            self.spec_start(name),
            fuel,
        ) is Some
    }

    pub fn new(buckets: Vec<u32>, chains: Vec<u32>, symbols: DynamicSymbolTable<'file>) -> (r: DynamicHashTable<'file>)
        ensures
            r.buckets@ == buckets@,
            r.chains@ == chains@,
            r.symbols.model() == symbols.model(),
    {
        DynamicHashTable { buckets, chains, symbols }
    }

    /// Looks `name` up: follows the chain that starts at the bucket its hash
    /// selects until a symbol named `name`.
    pub fn find(&self, name: &[u8]) -> (r: Option<usize>)
        requires
            self.lookup_ends(name@),
        ensures
            self.buckets@.len() == 0 ==> r is None,
            r matches Some(found) ==> spec_symbol_name(self.symbols.symbols@, self.symbols.strings.bytes@, found as int) == Some(name@),
            self.buckets@.len() > 0 ==> forall|fuel: nat| #[trigger] spec_walk(
                self.symbols.symbols@,
                self.symbols.strings.bytes@,
                self.chains@,
                name@,
                self.spec_start(name@),
                fuel,
            ) is Some ==> spec_walk(
                self.symbols.symbols@,
                self.symbols.strings.bytes@,
                self.chains@,
                name@,
                self.spec_start(name@),
                fuel,
            ) == Some(r),
    {
        if self.buckets.len() == 0 {
            return None;
        }
        let bucket = (hash(name) as usize) % self.buckets.len();
        let mut index = self.buckets[bucket] as usize;
        let symbol_count = self.symbols.symbols.len();
        let ghost symbols = self.symbols.symbols@;
        let ghost strings = self.symbols.strings.bytes@;
        let ghost chains = self.chains@;
        let ghost start = index as int;
        let ghost fuel: nat = choose|fuel: nat| #[trigger] spec_walk(symbols, strings, chains, name@, start, fuel) is Some;
        let ghost mut remaining: nat = fuel;
        let ghost answer = spec_walk(symbols, strings, chains, name@, start, fuel);
        assert(answer is Some);
        while index != 0
            invariant
                symbols == self.symbols.symbols@,
                symbol_count == symbols.len(),
                strings == self.symbols.strings.bytes@,
                chains == self.chains@,
                answer is Some,
                start == self.spec_start(name@),
                self.buckets@.len() > 0,
                answer == spec_walk(symbols, strings, chains, name@, start, fuel),
                spec_walk(symbols, strings, chains, name@, index as int, remaining) == answer,
            decreases remaining,
        {
            let symbol_name = match self.symbols.name(index) {
                Some(symbol_name) => symbol_name,
                None => {
                    proof {
                        lemma_walk_answer(symbols, strings, chains, name@, start, fuel, None);
                    }
                    return None;
                },
            };
            if bytes_equal(symbol_name.as_bytes(), name) {
                proof {
                    lemma_walk_answer(symbols, strings, chains, name@, start, fuel, Some(index));
                    lemma_walk_finds_named_symbol(symbols, strings, chains, name@, start, fuel);
                }
                return Some(index);
            }
            if index >= self.chains.len() {
                proof {
                    lemma_walk_answer(symbols, strings, chains, name@, start, fuel, None);
                }
                return None;
            }
            index = self.chains[index] as usize;
            proof {
                remaining = (remaining - 1) as nat;
            }
        }
        proof {
            lemma_walk_answer(symbols, strings, chains, name@, start, fuel, None);
        }
        None
    }
}

} // verus!
