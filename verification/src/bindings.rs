//! Calls into the ABI codecs, the Router chain bindings and the JSON reader.
use vstd::prelude::*;

use crate::execution::{band_packet_layout, band_packet_offsets_bounded, word_low32};
use crate::ledger::StringMap;
use crate::types::Coin;
use serde_cw_value::Value;
use std::collections::BTreeMap;
use ethabi::{ParamType, Token};
use router_wasm_bindings::types::AckType as RouterAckType;

verus! {

#[verifier::external_type_specification]
#[verifier::external_body]
pub struct ExParamType(ParamType);

#[verifier::external_type_specification]
#[verifier::external_body]
pub struct ExToken(Token);

/// An ABI type, as the decoder of `ethabi` takes it.
pub enum AbiType {
    Address,
    Bytes,
    Int(usize),
    Uint(usize),
    Bool,
    String,
    Array(Box<AbiType>),
    FixedBytes(usize),
    FixedArray(Box<AbiType>, usize),
    Tuple(Vec<AbiType>),
}

/// An ABI type as a mathematical value.
pub enum AbiTypeView {
    Address,
    Bytes,
    Int(usize),
    Uint(usize),
    Bool,
    String,
    Array(Box<AbiTypeView>),
    FixedBytes(usize),
    FixedArray(Box<AbiTypeView>, usize),
    Tuple(Seq<AbiTypeView>),
}

impl AbiType {
    /// The type as a mathematical value.
    pub open spec fn model(&self) -> AbiTypeView
        decreases self,
    {
        match self {
            AbiType::Address => AbiTypeView::Address,
            AbiType::Bytes => AbiTypeView::Bytes,
            AbiType::Int(n) => AbiTypeView::Int(*n),
            AbiType::Uint(n) => AbiTypeView::Uint(*n),
            AbiType::Bool => AbiTypeView::Bool,
            AbiType::String => AbiTypeView::String,
            AbiType::Array(a) => AbiTypeView::Array(Box::new(a.model())),
            AbiType::FixedBytes(n) => AbiTypeView::FixedBytes(*n),
            AbiType::FixedArray(a, n) => AbiTypeView::FixedArray(Box::new(a.model()), *n),
            AbiType::Tuple(ts) => AbiTypeView::Tuple(abi_type_models(ts@)),
        }
    }
}

/// The types of a list as mathematical values.
pub open spec fn abi_type_models(ts: Seq<AbiType>) -> Seq<AbiTypeView>
    decreases ts,
{
    if ts.len() == 0 {
        Seq::empty()
    } else {
        abi_type_models(ts.drop_last()).push(ts.last().model())
    }
}

/// A decoded ABI value; integers are four 64-bit words, least significant first.
pub enum AbiToken {
    Address(Vec<u8>),
    FixedBytes(Vec<u8>),
    Bytes(Vec<u8>),
    Int([u64; 4]),
    Uint([u64; 4]),
    Bool(bool),
    String(String),
    FixedArray(Vec<AbiToken>),
    Array(Vec<AbiToken>),
    Tuple(Vec<AbiToken>),
}

/// When the Router chain acknowledges a cross-chain request.
#[derive(PartialEq, Eq, Structural, Clone, Copy)]
pub enum AckType {
    NoAck,
    AckOnSuccess,
    AckOnError,
    AckOnBoth,
}

/// The byte by which the Router chain encodes an acknowledgement type.
pub open spec fn ack_code(a: AckType) -> u8 {
    match a {
        AckType::NoAck => 0,
        AckType::AckOnSuccess => 1,
        AckType::AckOnError => 2,
        AckType::AckOnBoth => 3,
    }
}

/// The big-endian bytes of a `u64`.
pub open spec fn be_u64(x: u64) -> Seq<u8> {
    vstd::bytes::spec_u64_to_le_bytes(x).reverse()
}

/// The big-endian bytes of a `u128`.
pub open spec fn be_u128(x: u128) -> Seq<u8> {
    vstd::bytes::spec_u128_to_le_bytes(x).reverse()
}

/// The encoding of a request's metadata on the Router chain: four big-endian
/// `u64`, a big-endian `u128`, the acknowledgement code, the read-call flag
/// and the UTF-8 bytes of the address of the ASM contract.
pub open spec fn metadata_encoding(
    dest_gas_limit: u64,
    dest_gas_price: u64,
    ack_gas_limit: u64,
    ack_gas_price: u64,
    relayer_fee: u128,
    ack_type: AckType,
    is_read_call: bool,
    asm_address: Seq<u8>,
) -> Seq<u8> {
    be_u64(dest_gas_limit) + be_u64(dest_gas_price) + be_u64(ack_gas_limit) + be_u64(ack_gas_price)
        + be_u128(relayer_fee) + seq![ack_code(ack_type)] + seq![
        if is_read_call {
            1u8
        } else {
            0u8
        },
    ] + asm_address
}

/// The 32-byte big-endian ABI word of a number below 2^256.
pub open spec fn abi_word(n: int) -> Seq<u8> {
    Seq::new(
        32,
        |i: int| ((n / (vstd::arithmetic::power2::pow2((8 * (31 - i)) as nat) as int)) % 256) as u8,
    )
}

/// Bytes followed by zeros up to a multiple of 32.
pub open spec fn padded32(b: Seq<u8>) -> Seq<u8> {
    b + Seq::new(((32 - b.len() % 32) % 32) as nat, |i: int| 0u8)
}

/// The ABI word of an EVM address: twelve zero bytes, then the address.
pub open spec fn abi_address_word(a: Seq<u8>) -> Seq<u8> {
    Seq::new(12, |i: int| 0u8) + a
}

/// The ABI encoding of the tuple `(string, string, uint256, uint256)`,
/// as it stands in the tail of a reserve call.
pub open spec fn abi_encoded_text_tokens(
    recipient: Seq<char>,
    token: Seq<char>,
    amount: u128,
    nonce: u64,
) -> Seq<u8> {
    let rb = vstd::utf8::encode_utf8(recipient);
    let tb = vstd::utf8::encode_utf8(token);
    abi_word(128) + abi_word(128 + 32 + padded32(rb).len() as int) + abi_word(amount as int)
        + abi_word(nonce as int) + abi_word(rb.len() as int) + padded32(rb) + abi_word(
        tb.len() as int,
    ) + padded32(tb)
}

/// The encoding of `(U256(flag), Bytes(chain), (recipient, token, U256(amount),
/// U256(nonce)))`: the flag, the 32 chain bytes, the offset of the inner
/// tuple, then the inner tuple.
pub open spec fn abi_encoded_reserve_call(
    flag: u128,
    chain: Seq<u8>,
    recipient: Seq<char>,
    token: Seq<char>,
    amount: u128,
    nonce: u64,
) -> Seq<u8> {
    abi_word(flag as int) + chain + abi_word(96) + abi_encoded_text_tokens(
        recipient,
        token,
        amount,
        nonce,
    )
}

/// The encoding of `(U256(flag), Bytes(chain), (recipient, token, U256(amount),
/// U256(nonce)), Bytes(instruction))`: the flag, the chain bytes, the offsets
/// of the inner tuple and of the instruction, then both.
pub open spec fn abi_encoded_reserve_call_with_instruction(
    flag: u128,
    chain: Seq<u8>,
    recipient: Seq<char>,
    token: Seq<char>,
    amount: u128,
    nonce: u64,
    instruction: Seq<u8>,
) -> Seq<u8> {
    let inner = abi_encoded_text_tokens(recipient, token, amount, nonce);
    abi_word(flag as int) + chain + abi_word(128) + abi_word(128 + inner.len() as int) + inner
        + abi_word(instruction.len() as int) + padded32(instruction)
}

/// The encoding of `(U256(flag), Bytes(chain), (Address(recipient),
/// Address(token), U256(amount), U256(nonce)))`: six words.
pub open spec fn abi_encoded_reserve_call_evm(
    flag: u128,
    chain: Seq<u8>,
    recipient: Seq<u8>,
    token: Seq<u8>,
    amount: u128,
    nonce: u64,
) -> Seq<u8> {
    abi_word(flag as int) + chain + abi_address_word(recipient) + abi_address_word(token)
        + abi_word(amount as int) + abi_word(nonce as int)
}

/// The encoding of `(U256(flag), Bytes(chain), (Address(recipient),
/// Address(token), U256(amount), U256(nonce)), Bytes(instruction))`: the six
/// words, the instruction's offset, then the instruction.
pub open spec fn abi_encoded_reserve_call_evm_with_instruction(
    flag: u128,
    chain: Seq<u8>,
    recipient: Seq<u8>,
    token: Seq<u8>,
    amount: u128,
    nonce: u64,
    instruction: Seq<u8>,
) -> Seq<u8> {
    abi_encoded_reserve_call_evm(flag, chain, recipient, token, amount, nonce) + abi_word(224)
        + abi_word(instruction.len() as int) + padded32(instruction)
}

/// The Solidity ABI encoding of the tuple `(string s, bytes b)`: the offsets
/// of the two values, then each value as its length and its bytes padded to
/// a multiple of 32.
pub open spec fn abi_encoded_string_bytes(s: Seq<char>, b: Seq<u8>) -> Seq<u8> {
    let sb = vstd::utf8::encode_utf8(s);
    abi_word(64) + abi_word(64 + 32 + padded32(sb).len() as int) + abi_word(sb.len() as int) + padded32(
        sb,
    ) + abi_word(b.len() as int) + padded32(b)
}

/// The value of the 8 big-endian bytes at `i`.
pub open spec fn be8(data: Seq<u8>, i: int) -> int {
    data[i] * 0x100000000000000 + data[i + 1] * 0x1000000000000 + data[i + 2] * 0x10000000000
        + data[i + 3] * 0x100000000 + data[i + 4] * 0x1000000 + data[i + 5] * 0x10000 + data[i
        + 6] * 0x100 + data[i + 7]
}

/// A decoded price packet is one tuple of four fields whose first field, the
/// tunnel id, is the word at the tuple's offset, read as four 64-bit words
/// with the least significant first.
pub open spec fn decodes_tunnel_word(tokens: Seq<AbiToken>, data: Seq<u8>) -> bool {
    let off = word_low32(data, 0);
    &&& tokens.len() == 1
    &&& tokens[0] is Tuple
    &&& tokens[0]->Tuple_0@.len() == 4
    &&& tokens[0]->Tuple_0@[0] is Uint
    &&& forall|k: int|
        0 <= k < 4 ==> #[trigger] tokens[0]->Tuple_0@[0]->Uint_0@[k] as int == be8(
            data,
            off + 24 - 8 * k,
        )
}

/// What `ethabi::decode` gives for the types and the data, or `None` where it fails.
pub uninterp spec fn abi_decoded(types: Seq<AbiTypeView>, data: Seq<u8>) -> Option<Seq<AbiToken>>;

/// What `cosmwasm_std::from_json` reads from the data as a
/// `CrosschainRequestResponse`: the request identifier, the denomination and
/// the amount of the fee deducted; `None` where it fails.
pub uninterp spec fn crosschain_response_from_json(data: Seq<u8>) -> Option<(u64, Seq<char>, u128)>;

/// What `serde_json_wasm::to_string` gives for a `serde_cw_value::Value::Map`
/// of string keys to string values, or `None` where it fails.
pub uninterp spec fn memo_json(entries: Map<Seq<char>, Seq<char>>) -> Option<Seq<char>>;

/// The digit of a nibble in upper-case hexadecimal.
pub open spec fn hex_digit(n: int) -> char {
    if n < 10 {
        (48 + n) as char
    } else {
        (55 + n) as char
    }
}

/// How `serde_json_wasm` writes a character inside a JSON string.
pub open spec fn json_escaped_char(c: char) -> Seq<char> {
    if c == '\\' {
        seq!['\\', '\\']
    } else if c == '"' {
        seq!['\\', '"']
    } else if c == '\u{8}' {
        seq!['\\', 'b']
    } else if c == '\t' {
        seq!['\\', 't']
    } else if c == '\n' {
        seq!['\\', 'n']
    } else if c == '\u{c}' {
        seq!['\\', 'f']
    } else if c == '\r' {
        seq!['\\', 'r']
    } else if (c as u32) < 0x20 {
        seq!['\\', 'u', '0', '0', hex_digit((c as int) / 16), hex_digit((c as int) % 16)]
    } else {
        seq![c]
    }
}

/// The characters of a string, each escaped for JSON.
pub open spec fn json_escaped(s: Seq<char>) -> Seq<char>
    decreases s.len(),
{
    if s.len() == 0 {
        Seq::empty()
    } else {
        json_escaped(s.drop_last()) + json_escaped_char(s.last())
    }
}

/// A JSON string literal.
pub open spec fn json_string(s: Seq<char>) -> Seq<char> {
    seq!['"'] + json_escaped(s) + seq!['"']
}

/// The JSON text of an object with one string member.
pub open spec fn one_entry_json(k: Seq<char>, v: Seq<char>) -> Seq<char> {
    seq!['{'] + json_string(k) + seq![':'] + json_string(v) + seq!['}']
}

/// The string values of a map as mathematical values.
pub open spec fn string_values(m: Map<Seq<char>, String>) -> Map<Seq<char>, Seq<char>> {
    m.map_values(|s: String| s@)
}

/// `serde_json_wasm::to_string` of the map as a `serde_cw_value::Value::Map`
/// of strings, `None` where it returns an error. Claimed: the result is a
/// function of the map's contents alone (the map is ordered by its keys);
/// for a map of one entry it is that entry as a JSON object, with the
/// escaping that the serializer's source writes. Not claimed: the text of a
/// map of several entries.
#[verifier::external_body]
pub fn memo_to_json(memo: &StringMap<String>) -> (res: Option<String>)
    requires
        memo.wf(),
    ensures
        match res {
            Some(j) => memo_json(string_values(memo@)) == Some(j@),
            None => memo_json(string_values(memo@)) is None,
        },
        match res {
            Some(j) => memo.entries@.len() == 1 ==> j@ == one_entry_json(
                memo.entries@[0].0@,
                memo.entries@[0].1@,
            ),
            None => memo.entries@.len() != 1,
        },
{
    let map: BTreeMap<Value, Value> = memo.entries.iter().map(
        |(k, v)| (Value::String(k.clone()), Value::String(v.clone())),
    ).collect();
    serde_json_wasm::to_string(&Value::Map(map)).ok()
}

/// The native denomination of the Router chain,
/// `router_wasm_bindings::types::NATIVE_DENOM`, which its source defines as
/// `"route"`.
#[verifier::external_body]
pub fn native_denom() -> (res: String)
    ensures
        res@ == "route"@,
{
    router_wasm_bindings::types::NATIVE_DENOM.to_string()
}

/// `solabi::encode` of `(s, solabi::Bytes(b))`. Claimed, as its source
/// writes it: the Solidity ABI encoding of the tuple, which
/// `abi_encoded_string_bytes` states. (Its size arithmetic stays in range
/// for any two values that fit in memory together.)
#[verifier::external_body]
pub fn abi_encode_string_bytes(s: &String, b: &Vec<u8>) -> (res: Vec<u8>)
    ensures
        res@ == abi_encoded_string_bytes(s@, b@),
{
    solabi::encode(&(s.clone(), solabi::Bytes(b.clone())))
}

/// `solabi::encode` of a reserve call without instruction, the chain bytes
/// taken as `bytes32`. Claimed: the ABI encoding that its source writes, as
/// `abi_encoded_reserve_call` states it.
#[verifier::external_body]
pub fn abi_encode_reserve_call(
    flag: u128,
    chain: &[u8],
    recipient: &String,
    token: &String,
    amount: u128,
    nonce: u64,
) -> (res: Vec<u8>)
    requires
        chain@.len() == 32,
    ensures
        res@ == abi_encoded_reserve_call(flag, chain@, recipient@, token@, amount, nonce),
{
    let chain: [u8; 32] = chain.try_into().unwrap();
    solabi::encode(&(
        solabi::U256::new(flag),
        solabi::Bytes(chain),
        (recipient.clone(), token.clone(), solabi::U256::new(amount), solabi::U256::new(nonce as u128)),
    ))
}

/// `solabi::encode` of a reserve call with an instruction, the chain bytes
/// taken as `bytes32`. Claimed: the ABI encoding that its source writes, as
/// `abi_encoded_reserve_call_with_instruction` states it.
#[verifier::external_body]
pub fn abi_encode_reserve_call_with_instruction(
    flag: u128,
    chain: &[u8],
    recipient: &String,
    token: &String,
    amount: u128,
    nonce: u64,
    instruction: &Vec<u8>,
) -> (res: Vec<u8>)
    requires
        chain@.len() == 32,
    ensures
        res@ == abi_encoded_reserve_call_with_instruction(
            flag,
            chain@,
            recipient@,
            token@,
            amount,
            nonce,
            instruction@,
        ),
{
    let chain: [u8; 32] = chain.try_into().unwrap();
    solabi::encode(&(
        solabi::U256::new(flag),
        solabi::Bytes(chain),
        (recipient.clone(), token.clone(), solabi::U256::new(amount), solabi::U256::new(nonce as u128)),
        solabi::Bytes(instruction.clone()),
    ))
}

/// `solabi::encode` of a reserve call with EVM addresses and no
/// instruction, the chain bytes taken as `bytes32`. Claimed: the ABI encoding
/// that its source writes, as `abi_encoded_reserve_call_evm` states it.
#[verifier::external_body]
pub fn abi_encode_reserve_call_evm(
    flag: u128,
    chain: &[u8],
    recipient: &[u8; 20],
    token: &[u8; 20],
    amount: u128,
    nonce: u64,
) -> (res: Vec<u8>)
    requires
        chain@.len() == 32,
    ensures
        res@ == abi_encoded_reserve_call_evm(flag, chain@, recipient@, token@, amount, nonce),
{
    let chain: [u8; 32] = chain.try_into().unwrap();
    solabi::encode(&(
        solabi::U256::new(flag),
        solabi::Bytes(chain),
        (solabi::Address(*recipient), solabi::Address(*token), solabi::U256::new(amount), solabi::U256::new(nonce as u128)),
    ))
}

/// `solabi::encode` of a reserve call with EVM addresses and an
/// instruction, the chain bytes taken as `bytes32`. Claimed: the ABI encoding
/// that its source writes, as `abi_encoded_reserve_call_evm_with_instruction`
/// states it.
#[verifier::external_body]
pub fn abi_encode_reserve_call_evm_with_instruction(
    flag: u128,
    chain: &[u8],
    recipient: &[u8; 20],
    token: &[u8; 20],
    amount: u128,
    nonce: u64,
    instruction: &Vec<u8>,
) -> (res: Vec<u8>)
    requires
        chain@.len() == 32,
    ensures
        res@ == abi_encoded_reserve_call_evm_with_instruction(
            flag,
            chain@,
            recipient@,
            token@,
            amount,
            nonce,
            instruction@,
        ),
{
    let chain: [u8; 32] = chain.try_into().unwrap();
    solabi::encode(&(
        solabi::U256::new(flag),
        solabi::Bytes(chain),
        (solabi::Address(*recipient), solabi::Address(*token), solabi::U256::new(amount), solabi::U256::new(nonce as u128)),
        solabi::Bytes(instruction.clone()),
    ))
}

/// `router_wasm_bindings::types::RequestMetaData::get_abi_encoded_bytes` on
/// the given fields. Claimed: the bytes are the concatenation that its
/// source writes, as `metadata_encoding` states it.
#[verifier::external_body]
pub fn request_metadata_bytes(
    dest_gas_limit: u64,
    dest_gas_price: u64,
    ack_gas_limit: u64,
    ack_gas_price: u64,
    relayer_fee: u128,
    ack_type: AckType,
    is_read_call: bool,
    asm_address: &str,
) -> (res: Vec<u8>)
    ensures
        res@ == metadata_encoding(dest_gas_limit, dest_gas_price, ack_gas_limit, ack_gas_price,
            relayer_fee, ack_type, is_read_call, vstd::utf8::encode_utf8(asm_address@)),
{
    let ack_type = match ack_type {
        AckType::NoAck => RouterAckType::NoAck,
        AckType::AckOnSuccess => RouterAckType::AckOnSuccess,
        AckType::AckOnError => RouterAckType::AckOnError,
        AckType::AckOnBoth => RouterAckType::AckOnBoth,
    };
    router_wasm_bindings::types::RequestMetaData {
        dest_gas_limit, dest_gas_price, ack_gas_limit, ack_gas_price,
        relayer_fee: cosmwasm_std::Uint128::new(relayer_fee), ack_type, is_read_call,
        asm_address: asm_address.to_string(),
    }.get_abi_encoded_bytes()
}

/// Turns the library's ABI type into that of `ethabi`, variant for variant.
/// Claims nothing.
#[verifier::external_body]
fn to_param_type(t: &AbiType) -> ParamType {
    match t {
        AbiType::Address => ParamType::Address,
        AbiType::Bytes => ParamType::Bytes,
        AbiType::Int(n) => ParamType::Int(*n),
        AbiType::Uint(n) => ParamType::Uint(*n),
        AbiType::Bool => ParamType::Bool,
        AbiType::String => ParamType::String,
        AbiType::Array(a) => ParamType::Array(Box::new(to_param_type(a))),
        AbiType::FixedBytes(n) => ParamType::FixedBytes(*n),
        AbiType::FixedArray(a, n) => ParamType::FixedArray(Box::new(to_param_type(a)), *n),
        AbiType::Tuple(ts) => ParamType::Tuple(ts.iter().map(to_param_type).collect()),
    }
}

/// Turns a token of `ethabi` into the library's, variant for variant.
/// Claims nothing.
#[verifier::external_body]
fn from_token(t: Token) -> AbiToken {
    match t {
        Token::Address(a) => AbiToken::Address(a.as_bytes().to_vec()),
        Token::FixedBytes(b) => AbiToken::FixedBytes(b),
        Token::Bytes(b) => AbiToken::Bytes(b),
        Token::Int(x) => AbiToken::Int(x.0),
        Token::Uint(x) => AbiToken::Uint(x.0),
        Token::Bool(b) => AbiToken::Bool(b),
        Token::String(s) => AbiToken::String(s),
        Token::FixedArray(v) => AbiToken::FixedArray(v.into_iter().map(from_token).collect()),
        Token::Array(v) => AbiToken::Array(v.into_iter().map(from_token).collect()),
        Token::Tuple(v) => AbiToken::Tuple(v.into_iter().map(from_token).collect()),
    }
}

/// `ethabi::decode(types, data)` for the layout of a price packet, `None`
/// where it returns an error. Claimed: the result is a function of the
/// types and the data alone; it decodes one tuple of four fields, the first
/// of which is the unsigned integer in the word at the tuple's offset (the
/// decoder reads the tuple's offset from the first word, then reads each
/// integer as a big-endian word). Not claimed: the other fields.
/// The decoder adds to offsets that it reads from the data without an
/// overflow check; for this layout the only such offset that reaches an
/// unguarded addition is the word that locates the signal array, so
/// `requires` bounds it by the data's length (and leaves the data room below
/// `usize::MAX`), which keeps every addition of the decoder in range.
#[verifier::external_body]
pub fn abi_decode(types: &Vec<AbiType>, data: &[u8]) -> (res: Option<Vec<AbiToken>>)
    requires
        abi_type_models(types@) == band_packet_layout(),
        band_packet_offsets_bounded(data@),
    ensures
        match res {
            Some(tokens) => abi_decoded(abi_type_models(types@), data@) == Some(tokens@),
            None => abi_decoded(abi_type_models(types@), data@) is None,
        },
        match res {
            Some(tokens) => decodes_tunnel_word(tokens@, data@),
            None => true,
        },
{
    let types: Vec<ParamType> = types.iter().map(to_param_type).collect();
    match ethabi::decode(&types, data) {
        Ok(tokens) => Some(tokens.into_iter().map(from_token).collect()),
        Err(_) => None,
    }
}

/// The reply data of an accepted cross-chain request.
pub struct CrosschainResponse {
    pub request_identifier: u64,
    pub fee_deducted: Coin,
}

/// `cosmwasm_std::from_json::<CrosschainRequestResponse>(data)`, `None`
/// where it returns an error. Claimed: the result is a function of the data
/// alone. Not claimed: which JSON texts it accepts.
#[verifier::external_body]
pub fn parse_crosschain_response(data: &[u8]) -> (res: Option<CrosschainResponse>)
    ensures
        match res {
            Some(r) => crosschain_response_from_json(data@) == Some(
                (r.request_identifier, r.fee_deducted.denom@, r.fee_deducted.amount),
            ),
            None => crosschain_response_from_json(data@) is None,
        },
{
    match cosmwasm_std::from_json::<router_wasm_bindings::types::CrosschainRequestResponse>(data) {
        Ok(r) => Some(CrosschainResponse {
            request_identifier: r.request_identifier,
            fee_deducted: Coin { denom: r.fee_deducted.denom, amount: r.fee_deducted.amount.u128() },
        }),
        Err(_) => None,
    }
}

} // verus!
