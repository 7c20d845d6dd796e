use vstd::prelude::*;

use crate::types::{Address, Word};

verus! {

/// A value to be ABI-encoded, in the shapes that the context replies use.
pub enum AbiArg {
    /// An `address[]`.
    Addresses(Vec<Address>),
    /// A `bytes[]`.
    Blobs(Vec<Vec<u8>>),
    /// A `bytes`.
    Blob(Vec<u8>),
}

/// The mathematical form of an `AbiArg`.
pub ghost enum AbiValue {
    Addresses(Seq<Seq<u8>>),
    Blobs(Seq<Seq<u8>>),
    Blob(Seq<u8>),
}

impl View for AbiArg {
    type V = AbiValue;

    open spec fn view(&self) -> AbiValue {
        match self {
            AbiArg::Addresses(v) => AbiValue::Addresses(Seq::new(v@.len(), |i: int| v@[i]@)),
            AbiArg::Blobs(v) => AbiValue::Blobs(Seq::new(v@.len(), |i: int| v@[i]@)),
            AbiArg::Blob(b) => AbiValue::Blob(b@),
        }
    }
}

/// The standard ABI encoding of `args` taken as one tuple.
pub uninterp spec fn abi_encoding(args: Seq<AbiValue>) -> Seq<u8>;

/// The arguments of a context call that runs another call:
/// `(address target, address caller, bytes data, uint256 value)`.
#[derive(Debug)]
pub struct CallArgs {
    pub target: Address,
    pub caller: Address,
    pub data: Vec<u8>,
    pub value: Word,
}

/// The four arguments read from an ABI-encoded `(address, address, bytes, uint256)`
/// tuple (without selector), or `None` where the bytes hold no such tuple.
pub uninterp spec fn call_args_decoded(data: Seq<u8>) -> Option<(Seq<u8>, Seq<u8>, Seq<u8>, Seq<u8>)>;

impl CallArgs {
    pub open spec fn view(&self) -> (Seq<u8>, Seq<u8>, Seq<u8>, Seq<u8>) {
        (self.target@, self.caller@, self.data@, self.value@)
    }
}

/// Relies on `ethabi::encode`: the ABI encoding of the tokens, which depends on them alone.
#[verifier::external_body]
pub(crate) fn abi_encode(args: &Vec<AbiArg>) -> (r: Vec<u8>)
    ensures
        r@ == abi_encoding(args@.map_values(|a: AbiArg| a@)),
{
    let tokens: Vec<ethabi::Token> = args.iter().map(|a| match a {
        AbiArg::Addresses(v) => ethabi::Token::Array(
            v.iter().map(|x| ethabi::Token::Address(ethabi::Address::from(x.bytes))).collect(),
        ),
        AbiArg::Blobs(v) => ethabi::Token::Array(v.iter().map(|x| ethabi::Token::Bytes(x.clone())).collect()),
        AbiArg::Blob(b) => ethabi::Token::Bytes(b.clone()),
    }).collect();
    ethabi::encode(&tokens)
}

/// Relies on `ethabi::decode` with the parameter types
/// `(address, address, bytes, uint256)`: what it reads depends on the bytes alone,
/// and it reports an error, without panicking, on bytes that hold no such tuple.
#[verifier::external_body]
pub(crate) fn decode_call_args(data: &[u8]) -> (r: Option<CallArgs>)
    ensures
        match r {
            Some(args) => call_args_decoded(data@) == Some(args.view()),
            None => call_args_decoded(data@) is None,
        },
{
    let types = [ethabi::ParamType::Address, ethabi::ParamType::Address, ethabi::ParamType::Bytes, ethabi::ParamType::Uint(256)];
    match ethabi::decode(&types, data).as_deref() {
        Ok([ethabi::Token::Address(t), ethabi::Token::Address(c), ethabi::Token::Bytes(d), ethabi::Token::Uint(v)]) => {
            let mut value = [0u8; 32];
            v.to_big_endian(&mut value);
            Some(CallArgs { target: Address { bytes: t.0 }, caller: Address { bytes: c.0 }, data: d.clone(), value: Word { bytes: value } })
        },
        _ => None,
    }
}

} // verus!
