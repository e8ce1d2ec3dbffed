use vstd::prelude::*;

use crate::primitives::{
    address_of, hex_data_of, parse_address, parse_hex_data, parse_quantity, quantity_of, Address,
};
use crate::primitives::Wei;
use crate::request::{
    copy_bytes, opt_bytes, NameOrAddress, RecipientModel, RequestModel, TransactionRequest,
};
use crate::wallets::{WalletDirectory, WalletType};

verus! {

/// Why a transaction could not be sent, or could not be simulated.
#[derive(Debug, PartialEq, Eq)]
pub enum Error {
    /// No wallet holds the address given as sender.
    WalletNotFound(Address),
    /// The wallet bound to the transaction is no longer in the directory.
    WalletNameNotFound(String),
    /// The user rejected the transaction, or closed the review.
    TxDialogRejected,
    /// The draft cannot be turned into a simulation request.
    CannotSimulate,
    /// A field of the parameters does not parse, or the parameter list is empty.
    InvalidParams,
}

/// The network a transaction goes to.
#[derive(Clone, Copy, Debug, PartialEq, Eq)]
pub struct Network {
    pub chain_id: u64,
    pub is_dev: bool,
}

/// The string fields of a request's parameter object.
#[derive(Debug)]
pub struct RequestParams {
    pub from: Option<String>,
    pub to: Option<String>,
    pub value: Option<String>,
    pub data: Option<String>,
}

/// Request parameters: an object, or a list whose first element is the object.
#[derive(Debug)]
pub enum RawParams {
    Object(RequestParams),
    Array(Vec<RequestParams>),
}

impl RawParams {
    pub open spec fn first(&self) -> Option<&RequestParams> {
        match self {
            RawParams::Object(p) => Some(p),
            RawParams::Array(v) => if v@.len() > 0 {
                Some(&v@[0])
            } else {
                None
            },
        }
    }
}

/// How the sender of a parameter object resolves in a wallet directory.
pub enum Resolution {
    /// `from` does not parse as an address.
    Malformed,
    /// No wallet holds the address.
    Unknown(Seq<u8>),
    /// The wallet and account that sign.
    Found { wallet: int, account: int },
}

/// The sender named by `from`, or else the selected account of the selected wallet.
pub open spec fn resolution(p: &RequestParams, dir: &WalletDirectory) -> Resolution {
    match p.from {
        Some(f) => match address_of(f@) {
            None => Resolution::Malformed,
            Some(a) => match dir.resolve(a) {
                None => Resolution::Unknown(a),
                Some(found) => Resolution::Found { wallet: found.0, account: found.1 },
            },
        },
        None => Resolution::Found {
            wallet: dir.current as int,
            account: dir.wallets@[dir.current as int].current as int,
        },
    }
}

/// An explicit sender resolves to a wallet and account that hold exactly that address, the
/// first such in directory order; it is unknown exactly when no account holds it.
pub proof fn lemma_sender_resolution_exact(p: &RequestParams, dir: &WalletDirectory, a: Seq<u8>)
    requires
        p.from matches Some(f) && address_of(f@) == Some(a),
    ensures
        resolution(p, dir) matches Resolution::Found { wallet, account } ==> dir.first_holder(
            a,
            wallet,
            account,
        ),
        resolution(p, dir) is Unknown <==> !dir.has_address(a),
        resolution(p, dir) is Found || resolution(p, dir) is Unknown,
{
    if dir.has_address(a) {
        let (w0, k0) = choose|w: int, k: int| #[trigger] dir.holds(a, w, k);
        lemma_first_holder_exists(dir, a, w0, k0);
        let (w, k) = choose|w: int, k: int| dir.first_holder(a, w, k);
        let q = (w, k);
        assert(dir.first_holder(a, q.0, q.1));
    }
}

/// An address that some account holds has a first holder.
proof fn lemma_first_holder_exists(dir: &WalletDirectory, a: Seq<u8>, w0: int, k0: int)
    requires
        dir.holds(a, w0, k0),
    ensures
        exists|w: int, k: int| dir.first_holder(a, w, k),
    decreases w0, k0,
{
    if exists|v: int, j: int| #[trigger] dir.holds(a, v, j) && (v < w0 || (v == w0 && j < k0)) {
        let (v, j) = choose|v: int, j: int| #[trigger] dir.holds(a, v, j) && (v < w0 || (v == w0 && j < k0));
        lemma_first_holder_exists(dir, a, v, j);
    } else {
        assert(dir.first_holder(a, w0, k0));
    }
}

/// Every field that is present parses.
pub open spec fn fields_parse(p: &RequestParams) -> bool {
    &&& p.to matches Some(t) ==> address_of(t@) is Some
    &&& p.value matches Some(v) ==> quantity_of(v@) is Some
    &&& p.data matches Some(d) ==> hex_data_of(d@) is Some
}

/// The draft `m` with its sender set and the present fields of `p` filled in.
pub open spec fn filled(m: RequestModel, sender: Seq<u8>, p: &RequestParams) -> RequestModel {
    RequestModel {
        from: Some(sender),
        to: match p.to {
            Some(t) => Some(RecipientModel::Address(address_of(t@)->0)),
            None => m.to,
        },
        value: match p.value {
            Some(v) => quantity_of(v@),
            None => m.value,
        },
        data: match p.data {
            Some(d) => hex_data_of(d@),
            None => m.data,
        },
        gas: m.gas,
    }
}

/// Resolves the signing wallet and the fields of a transaction from its raw parameters.
#[derive(Debug)]
pub struct SendTransactionBuilder {
    pub network: Network,
    pub wallet_name: Option<String>,
    pub wallet_path: Option<String>,
    pub wallet_type: Option<WalletType>,
    pub request: TransactionRequest,
}

impl SendTransactionBuilder {
    /// A builder for a transaction on `network`, with nothing resolved yet.
    pub fn new(network: Network) -> (r: Self)
        ensures
            r.network == network,
            r.wallet_name is None,
            r.wallet_path is None,
            r.wallet_type is None,
            r.request@ == (RequestModel { from: None, to: None, value: None, data: None, gas: None }),
    {
        SendTransactionBuilder {
            network,
            wallet_name: None,
            wallet_path: None,
            wallet_type: None,
            request: TransactionRequest::new(),
        }
    }

    /// Binds the sender's wallet and fills the draft from the parameters.
    pub fn set_request(self, params: RawParams, wallets: &WalletDirectory) -> (r: Result<
        Self,
        Error,
    >)
        requires
            wallets.wf(),
        ensures
            params.first() is None ==> r == Err::<Self, Error>(Error::InvalidParams),
            params.first() matches Some(p) ==> match resolution(p, wallets) {
                Resolution::Malformed => r == Err::<Self, Error>(Error::InvalidParams),
                Resolution::Unknown(a) => r matches Err(Error::WalletNotFound(x)) && x@ == a,
                Resolution::Found { wallet, account } => {
                    let w = wallets.wallets@[wallet];
                    let acct = w.accounts@[account];
                    if !fields_parse(p) {
                        r == Err::<Self, Error>(Error::InvalidParams)
                    } else {
                        &&& r is Ok
                        &&& r->Ok_0.network == self.network
                        &&& r->Ok_0.wallet_name matches Some(n) && n@ == w.name@
                        &&& r->Ok_0.wallet_path matches Some(path) && path@ == acct.path@
                        &&& r->Ok_0.wallet_type == Some(w.wallet_type)
                        &&& r->Ok_0.request@ == filled(self.request@, acct.address@, p)
                    }
                },
            },
    {
        let mut this = self;
        let p: &RequestParams = match &params {
            RawParams::Object(p) => p,
            RawParams::Array(v) => {
                if v.len() == 0 {
                    return Err(Error::InvalidParams);
                }
                &v[0]
            },
        };
        let (w, k) = match &p.from {
            Some(f) => {
                let a = match parse_address(f.as_str()) {
                    Some(a) => a,
                    None => {
                        return Err(Error::InvalidParams);
                    },
                };
                match wallets.find(&a) {
                    Some(found) => found,
                    None => {
                        return Err(Error::WalletNotFound(a));
                    },
                }
            },
            None => {
                let w = wallets.current;
                (w, wallets.wallets[w].current)
            },
        };
        let wallet = &wallets.wallets[w];
        let account = &wallet.accounts[k];
        this.request.from = Some(account.address);
        match &p.to {
            Some(t) => match parse_address(t.as_str()) {
                Some(a) => {
                    this.request.to = Some(NameOrAddress::Address(a));
                },
                None => {
                    return Err(Error::InvalidParams);
                },
            },
            None => {},
        }
        match &p.value {
            Some(v) => match parse_quantity(v.as_str()) {
                Some(q) => {
                    this.request.value = Some(q);
                },
                None => {
                    return Err(Error::InvalidParams);
                },
            },
            None => {},
        }
        match &p.data {
            Some(d) => match parse_hex_data(d.as_str()) {
                Some(b) => {
                    this.request.data = Some(b);
                },
                None => {
                    return Err(Error::InvalidParams);
                },
            },
            None => {},
        }
        this.wallet_name = Some(wallet.name.clone());
        this.wallet_path = Some(account.path.clone());
        this.wallet_type = Some(wallet.wallet_type);
        Ok(this)
    }

    /// Finalizes the builder into a transaction bound to the resolved wallet.
    pub fn build<S>(self) -> (r: SendTransaction<S>)
        requires
            self.wallet_name is Some,
            self.wallet_path is Some,
            self.wallet_type is Some,
        ensures
            r.network == self.network,
            r.wallet_name == self.wallet_name->0,
            r.wallet_path == self.wallet_path->0,
            r.wallet_type == self.wallet_type->0,
            r.request == self.request,
            r.signer is None,
    {
        SendTransaction {
            network: self.network,
            wallet_name: self.wallet_name.unwrap(),
            wallet_path: self.wallet_path.unwrap(),
            wallet_type: self.wallet_type.unwrap(),
            request: self.request,
            signer: None,
        }
    }
}

/// A partial edit of a draft made during review.
#[derive(Debug)]
pub struct UpdatePatch {
    pub data: Option<String>,
    pub value: Option<String>,
}

/// An event from the review dialog.
#[derive(Debug)]
pub enum ReviewEvent {
    Simulate,
    Accept,
    Update(UpdatePatch),
    /// Any other tag, an explicit rejection included.
    Reject,
}

/// A message on the review channel.
#[derive(Debug)]
pub enum DialogMsg {
    Data(ReviewEvent),
    Close,
}

/// What the review calls for next.
#[derive(Debug)]
pub enum ReviewStep {
    /// Run this simulation and relay its result, if it succeeds; or nothing to run.
    Simulate(Result<SimulationRequest, Error>),
    /// The user accepted; a hardware wallet must be told to ask for confirmation first.
    Accepted { check_ledger: bool },
}

/// How `finish` proceeds.
#[derive(Debug, PartialEq, Eq)]
pub enum FinishStep {
    /// Straight to signing and broadcast.
    Send,
    /// Through the review session first.
    Review,
}

/// What the signer cache needs.
#[derive(Debug)]
pub enum SignerStep {
    /// A signer is already bound.
    Cached,
    /// Build one for this chain and derivation path, then hand it to `set_signer`.
    Build { chain_id: u64, wallet_path: String },
}

/// The simulator's input, derived from the draft.
#[derive(Debug)]
pub struct SimulationRequest {
    pub from: Address,
    pub to: Address,
    pub value: Option<Wei>,
    pub data: Option<Vec<u8>>,
    pub gas_limit: u64,
}

/// Every field of a patch that is present parses.
pub open spec fn patch_parses(p: &UpdatePatch) -> bool {
    &&& p.data matches Some(d) ==> hex_data_of(d@) is Some
    &&& p.value matches Some(v) ==> quantity_of(v@) is Some
}

/// The draft `m` with a patch applied.
pub open spec fn patched(m: RequestModel, p: &UpdatePatch) -> RequestModel {
    RequestModel {
        from: m.from,
        to: m.to,
        value: match p.value {
            Some(v) => quantity_of(v@),
            None => m.value,
        },
        data: match p.data {
            Some(d) => hex_data_of(d@),
            None => m.data,
        },
        gas: m.gas,
    }
}

/// The gas limit set from an estimate: a fifth above it, or the fallback without one.
pub open spec fn gas_limit_for(estimate: Option<u64>) -> nat {
    match estimate {
        Some(e) => (e * 120 / 100) as nat,
        None => 1_000_000,
    }
}

/// Orchestrates the signing of a transaction, bound to one wallet and one network.
#[derive(Debug)]
pub struct SendTransaction<S> {
    pub network: Network,
    pub wallet_name: String,
    pub wallet_path: String,
    pub wallet_type: WalletType,
    pub request: TransactionRequest,
    pub signer: Option<S>,
}

impl<S> SendTransaction<S> {
    /// The two hold the same binding and signer; the drafts may differ.
    pub open spec fn same_binding(&self, o: &Self) -> bool {
        &&& self.network == o.network
        &&& self.wallet_name == o.wallet_name
        &&& self.wallet_path == o.wallet_path
        &&& self.wallet_type == o.wallet_type
        &&& self.signer == o.signer
    }

    /// The address of the bound account, if the directory still has it.
    pub open spec fn sender(&self, dir: &WalletDirectory) -> Option<Seq<u8>> {
        match dir.named(self.wallet_name@) {
            None => None,
            Some(w) => match dir.wallets@[w].at_path(self.wallet_path@) {
                None => None,
                Some(k) => Some(dir.wallets@[w].accounts@[k].address@),
            },
        }
    }

    /// Whether the draft can be simulated: a known sender, a resolved recipient and a gas
    /// limit that fits in 64 bits.
    pub open spec fn can_simulate(&self, dir: &WalletDirectory) -> bool {
        &&& self.sender(dir) is Some
        &&& self.request.to matches Some(NameOrAddress::Address(_))
        &&& self.request.gas matches Some(g) && g <= u64::MAX
    }

    /// `r` is the simulation request of the draft, or `CannotSimulate` when there is none.
    pub open spec fn simulation_of(&self, dir: &WalletDirectory, r: Result<SimulationRequest, Error>) -> bool {
        if self.can_simulate(dir) {
            &&& r is Ok
            &&& Some(r->Ok_0.from@) == self.sender(dir)
            &&& self.request.to == Some(NameOrAddress::Address(r->Ok_0.to))
            &&& r->Ok_0.value == self.request.value
            &&& opt_bytes(r->Ok_0.data) == self.request@.data
            &&& self.request.gas == Some(r->Ok_0.gas_limit as u128)
        } else {
            r == Err::<SimulationRequest, Error>(Error::CannotSimulate)
        }
    }

    /// What one message of the review session does: the draft changes only by an update that
    /// parses, and the binding and signer never change.
    pub open spec fn dialog_effect(
        before: &Self,
        msg: DialogMsg,
        wallets: &WalletDirectory,
        after: &Self,
        r: Result<ReviewStep, Error>,
    ) -> bool {
        &&& after.same_binding(before)
        &&& match msg {
            DialogMsg::Close => r == Err::<ReviewStep, Error>(Error::TxDialogRejected)
                && *after == *before,
            DialogMsg::Data(ReviewEvent::Reject) => r == Err::<ReviewStep, Error>(
                Error::TxDialogRejected,
            ) && *after == *before,
            DialogMsg::Data(ReviewEvent::Accept) => r == Ok::<ReviewStep, Error>(
                ReviewStep::Accepted { check_ledger: before.wallet_type == WalletType::Ledger },
            ) && *after == *before,
            DialogMsg::Data(ReviewEvent::Simulate) => *after == *before && (r matches Ok(
                ReviewStep::Simulate(sim),
            ) && before.simulation_of(wallets, sim)),
            DialogMsg::Data(ReviewEvent::Update(p)) => if patch_parses(&p) {
                &&& after.request@ == patched(before.request@, &p)
                &&& (r matches Ok(ReviewStep::Simulate(sim)) && after.simulation_of(wallets, sim))
            } else {
                r == Err::<ReviewStep, Error>(Error::InvalidParams) && *after == *before
            },
        }
    }

    /// A builder for a transaction on `network`.
    pub fn build(network: Network) -> (r: SendTransactionBuilder)
        ensures
            r.network == network,
            r.wallet_name is None,
            r.wallet_path is None,
            r.wallet_type is None,
            r.request@ == (RequestModel { from: None, to: None, value: None, data: None, gas: None }),
    {
        SendTransactionBuilder::new(network)
    }

    /// Sets the gas limit from the network's estimate (`None` when estimation failed).
    pub fn estimate_gas(&mut self, estimate: Option<u64>)
        ensures
            final(self).same_binding(old(self)),
            final(self).request@ == (RequestModel {
                gas: Some(gas_limit_for(estimate)),
                ..old(self).request@
            }),
    {
        let limit: u128 = match estimate {
            Some(e) => e as u128 * 120 / 100,
            None => 1_000_000,
        };
        self.request.gas = Some(limit);
    }

    /// Whether the transaction goes straight to signing: only on a development network,
    /// from a development wallet, with fast mode on. Otherwise it goes through review.
    pub fn finish(&self, wallets: &WalletDirectory, fast_mode: bool) -> (r: Result<
        FinishStep,
        Error,
    >)
        ensures
            wallets.named(self.wallet_name@) is None ==> r == Err::<FinishStep, Error>(
                Error::WalletNameNotFound(self.wallet_name),
            ),
            wallets.named(self.wallet_name@) matches Some(w) ==> r == Ok::<FinishStep, Error>(
                if self.network.is_dev && wallets.wallets@[w].is_dev && fast_mode {
                    FinishStep::Send
                } else {
                    FinishStep::Review
                },
            ),
    {
        match wallets.get(&self.wallet_name) {
            None => Err(Error::WalletNameNotFound(self.wallet_name.clone())),
            Some(wallet) => {
                if self.network.is_dev && wallet.is_dev && fast_mode {
                    Ok(FinishStep::Send)
                } else {
                    Ok(FinishStep::Review)
                }
            },
        }
    }

    /// Handles one message of the review session.
    pub fn on_dialog_msg(&mut self, msg: DialogMsg, wallets: &WalletDirectory) -> (r: Result<
        ReviewStep,
        Error,
    >)
        ensures
            Self::dialog_effect(old(self), msg, wallets, final(self), r),
    {
        match msg {
            DialogMsg::Data(ReviewEvent::Simulate) => Ok(ReviewStep::Simulate(self.simulation_request(wallets))),
            DialogMsg::Data(ReviewEvent::Accept) => Ok(ReviewStep::Accepted { check_ledger: self.is_ledger() }),
            DialogMsg::Data(ReviewEvent::Update(p)) => {
                match self.update(&p) {
                    Ok(()) => Ok(ReviewStep::Simulate(self.simulation_request(wallets))),
                    Err(e) => Err(e),
                }
            },
            DialogMsg::Data(ReviewEvent::Reject) => Err(Error::TxDialogRejected),
            DialogMsg::Close => Err(Error::TxDialogRejected),
        }
    }

    /// Applies the user's edit to the draft; nothing changes if a field does not parse.
    pub fn update(&mut self, patch: &UpdatePatch) -> (r: Result<(), Error>)
        ensures
            final(self).same_binding(old(self)),
            patch_parses(patch) ==> (r is Ok && final(self).request@ == patched(old(self).request@, patch)),
            !patch_parses(patch) ==> (r == Err::<(), Error>(Error::InvalidParams) && *final(self) == *old(self)),
    {
        let data = match &patch.data {
            Some(d) => match parse_hex_data(d.as_str()) {
                Some(b) => Some(b),
                None => {
                    return Err(Error::InvalidParams);
                },
            },
            None => None,
        };
        let value = match &patch.value {
            Some(v) => match parse_quantity(v.as_str()) {
                Some(q) => Some(q),
                None => {
                    return Err(Error::InvalidParams);
                },
            },
            None => None,
        };
        if let Some(b) = data {
            self.request.data = Some(b);
        }
        if let Some(q) = value {
            self.request.value = Some(q);
        }
        Ok(())
    }

    /// The simulator's input for the current draft.
    pub fn simulation_request(&self, wallets: &WalletDirectory) -> (r: Result<SimulationRequest, Error>)
        ensures
            self.simulation_of(wallets, r),
    {
        let from = match self.from(wallets) {
            Ok(a) => a,
            Err(_) => {
                return Err(Error::CannotSimulate);
            },
        };
        let to = match &self.request.to {
            Some(NameOrAddress::Address(a)) => *a,
            _ => {
                return Err(Error::CannotSimulate);
            },
        };
        let gas_limit = match self.request.gas {
            Some(g) => {
                if g > u64::MAX as u128 {
                    return Err(Error::CannotSimulate);
                }
                g as u64
            },
            None => {
                return Err(Error::CannotSimulate);
            },
        };
        let data = match &self.request.data {
            Some(d) => Some(copy_bytes(d)),
            None => None,
        };
        Ok(SimulationRequest { from, to, value: self.request.value, data, gas_limit })
    }

    /// The address of the bound account.
    pub fn from(&self, wallets: &WalletDirectory) -> (r: Result<Address, Error>)
        ensures
            wallets.named(self.wallet_name@) is None ==> r == Err::<Address, Error>(
                Error::WalletNameNotFound(self.wallet_name),
            ),
            wallets.named(self.wallet_name@) is Some && self.sender(wallets) is None ==> r == Err::<
                Address,
                Error,
            >(Error::CannotSimulate),
            self.sender(wallets) matches Some(a) ==> r is Ok && r->Ok_0@ == a,
    {
        match wallets.get(&self.wallet_name) {
            None => Err(Error::WalletNameNotFound(self.wallet_name.clone())),
            Some(wallet) => match wallet.get_address(&self.wallet_path) {
                Some(a) => Ok(a),
                None => Err(Error::CannotSimulate),
            },
        }
    }

    /// Whether the bound wallet is a hardware wallet.
    pub fn is_ledger(&self) -> (r: bool)
        ensures
            r == (self.wallet_type == WalletType::Ledger),
    {
        match self.wallet_type {
            WalletType::Ledger => true,
            _ => false,
        }
    }

    /// What the signer cache needs before the transaction can be sent.
    pub fn build_signer(&self, wallets: &WalletDirectory) -> (r: Result<SignerStep, Error>)
        ensures
            self.signer is Some ==> r matches Ok(SignerStep::Cached),
            self.signer is None && wallets.named(self.wallet_name@) is None ==> r == Err::<
                SignerStep,
                Error,
            >(Error::WalletNameNotFound(self.wallet_name)),
            self.signer is None && wallets.named(self.wallet_name@) is Some ==> (r matches Ok(
                SignerStep::Build { chain_id, wallet_path },
            ) && chain_id == self.network.chain_id && wallet_path == self.wallet_path),
    {
        if self.signer.is_some() {
            return Ok(SignerStep::Cached);
        }
        match wallets.get(&self.wallet_name) {
            None => Err(Error::WalletNameNotFound(self.wallet_name.clone())),
            Some(_) => Ok(
                SignerStep::Build {
                    chain_id: self.network.chain_id,
                    wallet_path: self.wallet_path.clone(),
                },
            ),
        }
    }

    /// Binds a signer; one that is already bound is kept.
    pub fn set_signer(&mut self, signer: S)
        ensures
            old(self).signer is Some ==> *final(self) == *old(self),
            old(self).signer is None ==> final(self).signer == Some(signer)
                && final(self).request == old(self).request,
            final(self).network == old(self).network,
            final(self).wallet_name == old(self).wallet_name,
            final(self).wallet_path == old(self).wallet_path,
            final(self).wallet_type == old(self).wallet_type,
    {
        if self.signer.is_none() {
            self.signer = Some(signer);
        }
    }

    /// The bound signer and the draft to send through it; `None` until a signer is bound.
    pub fn send(&self) -> (r: Option<(&S, TransactionRequest)>)
        ensures
            self.signer is None ==> r is None,
            self.signer matches Some(s) ==> (r matches Some(p) && *p.0 == s && p.1@ == self.request@),
    {
        match &self.signer {
            Some(s) => Some((s, self.request.duplicate())),
            None => None,
        }
    }
}

/// Review loop: each of two successive updates is answered by exactly one simulation step,
/// of the draft with every patch so far applied, and a close that follows still rejects,
/// with no signer bound.
pub proof fn lemma_updates_then_close<S>(
    t0: &SendTransaction<S>,
    p: UpdatePatch,
    q: UpdatePatch,
    wallets: &WalletDirectory,
    t1: &SendTransaction<S>,
    r1: Result<ReviewStep, Error>,
    t2: &SendTransaction<S>,
    r2: Result<ReviewStep, Error>,
    t3: &SendTransaction<S>,
    r3: Result<ReviewStep, Error>,
)
    requires
        patch_parses(&p),
        patch_parses(&q),
        SendTransaction::dialog_effect(t0, DialogMsg::Data(ReviewEvent::Update(p)), wallets, t1, r1),
        SendTransaction::dialog_effect(t1, DialogMsg::Data(ReviewEvent::Update(q)), wallets, t2, r2),
        SendTransaction::dialog_effect(t2, DialogMsg::Close, wallets, t3, r3),
    ensures
        t1.request@ == patched(t0.request@, &p),
        t2.request@ == patched(patched(t0.request@, &p), &q),
        r1 matches Ok(ReviewStep::Simulate(sim)) && t1.simulation_of(wallets, sim),
        r2 matches Ok(ReviewStep::Simulate(sim)) && t2.simulation_of(wallets, sim),
        r3 == Err::<ReviewStep, Error>(Error::TxDialogRejected),
        t3.signer == t0.signer,
{
}

/// An event that is not recognized rejects the transaction and leaves it as it was: nothing
/// is signed or sent.
pub proof fn lemma_unrecognized_event_rejects<S>(
    t0: &SendTransaction<S>,
    wallets: &WalletDirectory,
    t1: &SendTransaction<S>,
    r: Result<ReviewStep, Error>,
)
    requires
        SendTransaction::dialog_effect(t0, DialogMsg::Data(ReviewEvent::Reject), wallets, t1, r),
    ensures
        r == Err::<ReviewStep, Error>(Error::TxDialogRejected),
        *t1 == *t0,
{
}

/// A draft whose recipient is an unresolved name, or which has no gas limit, cannot be
/// simulated; asking for a simulation then leaves the session as it was, awaiting input.
pub proof fn lemma_simulation_skipped<S>(
    t0: &SendTransaction<S>,
    wallets: &WalletDirectory,
    t1: &SendTransaction<S>,
    r: Result<ReviewStep, Error>,
)
    requires
        t0.request.to matches Some(NameOrAddress::Name(_)) || t0.request.gas is None,
        SendTransaction::dialog_effect(t0, DialogMsg::Data(ReviewEvent::Simulate), wallets, t1, r),
    ensures
        r matches Ok(ReviewStep::Simulate(Err(Error::CannotSimulate))),
        *t1 == *t0,
{
}

} // verus!
