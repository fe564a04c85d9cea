//! Choosing, among the compiled contracts, the one to deploy and the ABI
//! function to call on it.

use vstd::prelude::*;

verus! {

/// A compiled contract as the lookup sees it: its name, and the names of its
/// ABI functions in ABI order, an overloaded name once per overload.
pub struct ContractEntry {
    pub name: String,
    pub functions: Vec<String>,
}

/// Which contract, and which of its functions, a call goes to: indices into
/// the contract list and into that contract's functions.
#[derive(Clone, Copy, Debug, PartialEq, Eq, Structural)]
pub struct CallTarget {
    pub contract: usize,
    pub function: usize,
}

/// Whether `fn_name` is among `functions`.
pub open spec fn has_function(functions: Seq<Seq<char>>, fn_name: Seq<char>) -> bool {
    exists|k: int| 0 <= k < functions.len() && functions[k] == fn_name
}

/// Whether `e` is a contract named `contract_name` with a function `fn_name`.
pub open spec fn is_candidate(e: ContractEntry, contract_name: Seq<char>, fn_name: Seq<char>) -> bool {
    e.name@ == contract_name && has_function(e.functions.deep_view(), fn_name)
}

/// Whether `i` is the first index at which `fn_name` occurs in `functions`.
pub open spec fn is_first_function(functions: Seq<Seq<char>>, fn_name: Seq<char>, i: int) -> bool {
    &&& 0 <= i < functions.len()
    &&& functions[i] == fn_name
    &&& forall|k: int| 0 <= k < i ==> functions[k] != fn_name
}

/// Whether `i` is the first index of a candidate in `contracts`.
pub open spec fn is_first_candidate(
    contracts: Seq<ContractEntry>,
    contract_name: Seq<char>,
    fn_name: Seq<char>,
    i: int,
) -> bool {
    &&& 0 <= i < contracts.len()
    &&& is_candidate(contracts[i], contract_name, fn_name)
    &&& forall|k: int| 0 <= k < i ==> !is_candidate(#[trigger] contracts[k], contract_name, fn_name)
}

/// The first position of `fn_name` in `functions`, or `None` where it is not
/// there. The first overload of a name is the one that is called.
pub fn find_function(functions: &Vec<String>, fn_name: &str) -> (r: Option<usize>)
    ensures
        match r {
            Some(i) => is_first_function(functions.deep_view(), fn_name@, i as int),
            None => !has_function(functions.deep_view(), fn_name@),
        },
{
    let name = fn_name.to_owned();
    let mut i: usize = 0;
    while i < functions.len()
        invariant
            i <= functions.len(),
            name@ == fn_name@,
            forall|k: int| 0 <= k < i ==> functions.deep_view()[k] != fn_name@,
        decreases functions.len() - i,
    {
        if functions[i] == name {
            return Some(i);
        }
        i = i + 1;
    }
    None
}

/// The first contract named `contract_name` that has a function `fn_name`,
/// or `None` where no contract does.
pub fn find_contract(contracts: &Vec<ContractEntry>, contract_name: &str, fn_name: &str) -> (r:
    Option<usize>)
    ensures
        match r {
            Some(i) => is_first_candidate(contracts@, contract_name@, fn_name@, i as int),
            None => forall|k: int|
                0 <= k < contracts@.len() ==> !is_candidate(
                    #[trigger] contracts@[k],
                    contract_name@,
                    fn_name@,
                ),
        },
{
    let name = contract_name.to_owned();
    let mut i: usize = 0;
    while i < contracts.len()
        invariant
            i <= contracts.len(),
            name@ == contract_name@,
            forall|k: int|
                0 <= k < i ==> !is_candidate(#[trigger] contracts@[k], contract_name@, fn_name@),
        decreases contracts.len() - i,
    {
        let entry = &contracts[i];
        if entry.name == name {
            if let Some(_) = find_function(&entry.functions, fn_name) {
                return Some(i);
            }
        }
        i = i + 1;
    }
    None
}

/// The call that a contract name and a function name select: the first
/// contract of that name that has the function, and that function's first
/// overload. `None` where no contract of that name has the function.
pub fn select_call(contracts: &Vec<ContractEntry>, contract_name: &str, fn_name: &str) -> (r:
    Option<CallTarget>)
    ensures
        match r {
            Some(t) => {
                &&& is_first_candidate(contracts@, contract_name@, fn_name@, t.contract as int)
                &&& is_first_function(
                    contracts@[t.contract as int].functions.deep_view(),
                    fn_name@,
                    t.function as int,
                )
            },
            None => forall|k: int|
                0 <= k < contracts@.len() ==> !is_candidate(
                    #[trigger] contracts@[k],
                    contract_name@,
                    fn_name@,
                ),
        },
{
    match find_contract(contracts, contract_name, fn_name) {
        Some(c) => match find_function(&contracts[c].functions, fn_name) {
            Some(f) => Some(CallTarget { contract: c, function: f }),
            None => None,
        },
        None => None,
    }
}

} // verus!
