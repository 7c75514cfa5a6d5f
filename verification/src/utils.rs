use vstd::prelude::*;

use crate::bindings::{memo_to_json, one_entry_json, string_values};
use crate::ledger::StringMap;
use crate::types::{text, ContractError};

verus! {

/// Adds the key `ibc_callback`, naming the contract, to a memo.
pub fn insert_callback_key(memo: StringMap<String>, contract_address: &String) -> (res: StringMap<
    String,
>)
    requires
        memo.wf(),
    ensures
        res.wf(),
        string_values(res@) == string_values(memo@).insert("ibc_callback"@, contract_address@),
        memo.entries@.len() == 0 ==> res.entries@.len() == 1 && res.entries@[0].0@ == "ibc_callback"@
            && res.entries@[0].1@ == contract_address@,
{
    let mut m = memo;
    m.set(&text("ibc_callback"), contract_address.clone());
    assert(string_values(m@) =~= string_values(memo@).insert("ibc_callback"@, contract_address@));
    m
}

/// The JSON text of the callback memo.
pub fn include_callback_inside_memo(contract_address: &String) -> (res: Result<String, ContractError>)
    ensures
        res matches Ok(m) && m@ == one_entry_json("ibc_callback"@, contract_address@),
{
    let temp: StringMap<String> = StringMap::new();
    let memo_val = insert_callback_key(temp, contract_address);
    match memo_to_json(&memo_val) {
        Some(memo) => Ok(memo),
        None => Err(ContractError::InvalidMemo),
    }
}

} // verus!
