use vstd::prelude::*;

use crate::bindings::native_denom;
use crate::state::OracleState;
use crate::types::{Coin, ContractError, StoredItem, text};

verus! {

/// A denomination names a token that came over IBC when it starts with `ibc/`.
pub open spec fn is_ibc_denom(token: Seq<char>) -> bool {
    &&& token.len() >= 4
    &&& token.take(4) == seq!['i', 'b', 'c', '/']
}

/// Tells whether `token` is the denomination of an IBC voucher.
pub fn is_ibc(token: &String) -> (res: bool)
    ensures
        res == is_ibc_denom(token@),
{
    let s = token.as_str();
    let len = s.unicode_len();
    if len < 4 {
        return false;
    }
    let ok = s.get_char(0) == 'i' && s.get_char(1) == 'b' && s.get_char(2) == 'c'
        && s.get_char(3) == '/';
    assert(ok ==> token@.take(4) =~= seq!['i', 'b', 'c', '/']);
    assert(token@.take(4) == seq!['i', 'b', 'c', '/'] ==> {
        &&& token@.take(4)[0] == 'i'
        &&& token@.take(4)[1] == 'b'
        &&& token@.take(4)[2] == 'c'
        &&& token@.take(4)[3] == '/'
    });
    ok
}

/// The coins of a call as pairs of denomination and amount.
pub open spec fn funds_view(funds: Seq<Coin>) -> Seq<(Seq<char>, u128)> {
    funds.map_values(|c: Coin| c@)
}

/// A call pays in the native denomination when it carries exactly one coin of it.
pub open spec fn route_fund_check(funds: Seq<(Seq<char>, u128)>) -> Result<(), ContractError> {
    if funds.len() != 1 {
        Err(ContractError::FundsLengthNotOne)
    } else if funds[0].0 != "route"@ {
        Err(ContractError::NotNativeDenom)
    } else {
        Ok(())
    }
}

/// Accepts a call that carries exactly one coin, of the native denomination.
pub fn is_valid_route_fund_modifier(funds: &Vec<Coin>) -> (res: Result<(), ContractError>)
    ensures
        res == route_fund_check(funds_view(funds@)),
{
    if funds.len() != 1 {
        return Err(ContractError::FundsLengthNotOne);
    }
    let native = native_denom();
    if funds[0].denom != native {
        return Err(ContractError::NotNativeDenom);
    }
    Ok(())
}

/// The coins that `validate_funds` accepts: one coin, or a native coin
/// followed by an IBC voucher.
pub open spec fn funds_acceptable(funds: Seq<(Seq<char>, u128)>) -> bool {
    &&& 1 <= funds.len() <= 2
    &&& funds.len() == 2 ==> funds[0].0 == "route"@ && is_ibc_denom(funds[1].0)
}

/// The native amount, the IBC denomination and the IBC amount that
/// `validate_funds` reads from acceptable coins.
pub open spec fn split_funds(funds: Seq<(Seq<char>, u128)>) -> (u128, Seq<char>, u128) {
    if funds.len() == 1 {
        if funds[0].0 == "route"@ {
            (funds[0].1, Seq::empty(), 0)
        } else {
            (0, funds[0].0, funds[0].1)
        }
    } else {
        (funds[0].1, funds[1].0, funds[1].1)
    }
}

/// Splits the coins of a call into its native amount and its IBC voucher.
pub fn validate_funds(funds: &Vec<Coin>) -> (res: Result<(u128, String, u128), ContractError>)
    requires
        funds_acceptable(funds_view(funds@)),
    ensures
        res matches Ok(r) && (r.0, r.1@, r.2) == split_funds(funds_view(funds@)),
{
    let native = native_denom();
    let mut native_amount: u128 = 0;
    let mut ibc_amount: u128 = 0;
    let mut ibc_token_address = String::new();
    if funds.len() == 1 {
        if funds[0].denom == native {
            native_amount = funds[0].amount;
        } else {
            ibc_token_address = funds[0].denom.clone();
            ibc_amount = funds[0].amount;
        }
    }
    if funds.len() == 2 {
        native_amount = funds[0].amount;
        ibc_token_address = funds[1].denom.clone();
        ibc_amount = funds[1].amount;
    }
    Ok((native_amount, ibc_token_address, ibc_amount))
}

/// Accepts the stored admin and refuses everyone else.
pub open spec fn admin_check(admin: Option<Seq<char>>, sender: Seq<char>) -> Result<(), ContractError> {
    match admin {
        None => Err(ContractError::NotFound(StoredItem::Admin)),
        Some(a) => if a == sender {
            Ok(())
        } else {
            Err(ContractError::NotAdmin)
        },
    }
}

/// Accepts a call of the admin.
pub fn is_admin_modifier(state: &OracleState, sender: &str) -> (res: Result<(), ContractError>)
    ensures
        res == admin_check(state@.admin, sender@),
{
    match &state.admin {
        None => Err(ContractError::NotFound(StoredItem::Admin)),
        Some(admin) => {
            if text(sender) == *admin {
                Ok(())
            } else {
                Err(ContractError::NotAdmin)
            }
        },
    }
}

} // verus!
