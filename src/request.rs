use vstd::prelude::*;

use crate::primitives::{Address, Wei};

verus! {

/// The recipient of a transaction: a resolved address, or a name still to be resolved.
#[derive(Debug)]
pub enum NameOrAddress {
    Name(String),
    Address(Address),
}

/// What a recipient stands for.
pub enum RecipientModel {
    Name(Seq<char>),
    Address(Seq<u8>),
}

impl View for NameOrAddress {
    type V = RecipientModel;

    open spec fn view(&self) -> RecipientModel {
        match self {
            NameOrAddress::Name(n) => RecipientModel::Name(n@),
            NameOrAddress::Address(a) => RecipientModel::Address(a@),
        }
    }
}

/// The draft of a transaction, mutable until it is signed.
#[derive(Debug)]
pub struct TransactionRequest {
    pub from: Option<Address>,
    pub to: Option<NameOrAddress>,
    pub value: Option<Wei>,
    pub data: Option<Vec<u8>>,
    pub gas: Option<u128>,
}

/// What a transaction draft holds.
pub struct RequestModel {
    pub from: Option<Seq<u8>>,
    pub to: Option<RecipientModel>,
    pub value: Option<nat>,
    pub data: Option<Seq<u8>>,
    pub gas: Option<nat>,
}

pub open spec fn opt_address(a: Option<Address>) -> Option<Seq<u8>> {
    match a {
        Some(x) => Some(x@),
        None => None,
    }
}

pub open spec fn opt_wei(v: Option<Wei>) -> Option<nat> {
    match v {
        Some(x) => Some(x@),
        None => None,
    }
}

pub open spec fn opt_bytes(d: Option<Vec<u8>>) -> Option<Seq<u8>> {
    match d {
        Some(x) => Some(x@),
        None => None,
    }
}

impl View for TransactionRequest {
    type V = RequestModel;

    open spec fn view(&self) -> RequestModel {
        RequestModel {
            from: opt_address(self.from),
            to: match self.to {
                Some(t) => Some(t@),
                None => None,
            },
            value: opt_wei(self.value),
            data: opt_bytes(self.data),
            gas: match self.gas {
                Some(g) => Some(g as nat),
                None => None,
            },
        }
    }
}

pub fn copy_bytes(d: &Vec<u8>) -> (r: Vec<u8>)
    ensures
        r@ == d@,
{
    let mut r: Vec<u8> = Vec::new();
    let mut i: usize = 0;
    while i < d.len()
        invariant
            0 <= i <= d@.len(),
            r@ == d@.subrange(0, i as int),
        decreases d@.len() - i,
    {
        r.push(d[i]);
        i = i + 1;
        assert(r@ =~= d@.subrange(0, i as int));
    }
    assert(r@ =~= d@);
    r
}

impl TransactionRequest {
    /// An empty draft.
    pub fn new() -> (r: Self)
        ensures
            r@ == (RequestModel { from: None, to: None, value: None, data: None, gas: None }),
    {
        TransactionRequest { from: None, to: None, value: None, data: None, gas: None }
    }

    /// A copy of the draft.
    pub fn duplicate(&self) -> (r: Self)
        ensures
            r@ == self@,
    {
        let to = match &self.to {
            Some(NameOrAddress::Name(n)) => Some(NameOrAddress::Name(n.clone())),
            Some(NameOrAddress::Address(a)) => Some(NameOrAddress::Address(*a)),
            None => None,
        };
        let data = match &self.data {
            Some(d) => Some(copy_bytes(d)),
            None => None,
        };
        TransactionRequest { from: self.from, to, value: self.value, data, gas: self.gas }
    }
}

} // verus!
