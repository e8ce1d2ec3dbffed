use vstd::prelude::*;

use crate::primitives::{same_address, Address};

verus! {

/// The kind of key store behind a wallet.
#[derive(Clone, Copy, Debug, PartialEq, Eq)]
pub enum WalletType {
    Plaintext,
    JsonKeystore,
    HdWallet,
    Ledger,
    PrivateKey,
    Impersonator,
}

/// One address that a wallet can sign for, with its derivation path.
#[derive(Debug)]
pub struct Account {
    pub address: Address,
    pub path: String,
}

/// A wallet: its name, kind, whether it is a development wallet, the accounts it holds and
/// the one currently selected.
#[derive(Debug)]
pub struct Wallet {
    pub name: String,
    pub wallet_type: WalletType,
    pub is_dev: bool,
    pub accounts: Vec<Account>,
    pub current: usize,
}

/// A snapshot of the wallet directory: every wallet, and the one currently selected.
#[derive(Debug)]
pub struct WalletDirectory {
    pub wallets: Vec<Wallet>,
    pub current: usize,
}

impl Wallet {
    pub open spec fn wf(&self) -> bool {
        self.current < self.accounts@.len()
    }

    pub open spec fn holds(&self, a: Seq<u8>, k: int) -> bool {
        0 <= k < self.accounts@.len() && self.accounts@[k].address@ == a
    }

    pub open spec fn holds_path(&self, p: Seq<char>, k: int) -> bool {
        0 <= k < self.accounts@.len() && self.accounts@[k].path@ == p
    }

    /// The first account with the given derivation path.
    pub open spec fn at_path(&self, p: Seq<char>) -> Option<int> {
        if exists|k: int| #[trigger] self.holds_path(p, k) {
            Some(
                choose|k: int|
                    #[trigger] self.holds_path(p, k) && forall|j: int|
                        0 <= j < k ==> !#[trigger] self.holds_path(p, j),
            )
        } else {
            None
        }
    }

    /// The address at a derivation path.
    pub fn get_address(&self, path: &String) -> (r: Option<Address>)
        ensures
            self.at_path(path@) is None ==> r is None,
            self.at_path(path@) matches Some(k) ==> r == Some(self.accounts@[k].address),
    {
        let mut i: usize = 0;
        while i < self.accounts.len()
            invariant
                0 <= i <= self.accounts@.len(),
                forall|j: int| 0 <= j < i ==> !#[trigger] self.holds_path(path@, j),
            decreases self.accounts@.len() - i,
        {
            if self.accounts[i].path == *path {
                let ghost k = i as int;
                assert(self.holds_path(path@, k));
                assert(self.at_path(path@) == Some(k)) by {
                    let c = self.at_path(path@)->0;
                    assert(self.holds_path(path@, c));
                    if c < k {
                    } else if c > k {
                    }
                }
                return Some(self.accounts[i].address);
            }
            i = i + 1;
        }
        None
    }
}

impl WalletDirectory {
    /// Every wallet has a selected account, and a wallet is selected.
    pub open spec fn wf(&self) -> bool {
        &&& self.current < self.wallets@.len()
        &&& forall|w: int| 0 <= w < self.wallets@.len() ==> (#[trigger] self.wallets@[w]).wf()
    }

    /// Wallet `w`, account `k` has address `a`.
    pub open spec fn holds(&self, a: Seq<u8>, w: int, k: int) -> bool {
        0 <= w < self.wallets@.len() && self.wallets@[w].holds(a, k)
    }

    /// `(w, k)` is the first account with address `a`, wallets in order, then accounts.
    pub open spec fn first_holder(&self, a: Seq<u8>, w: int, k: int) -> bool {
        &&& self.holds(a, w, k)
        &&& forall|v: int, j: int| #[trigger] self.holds(a, v, j) ==> w < v || (w == v && k <= j)
    }

    pub open spec fn has_address(&self, a: Seq<u8>) -> bool {
        exists|w: int, k: int| #[trigger] self.holds(a, w, k)
    }

    /// The wallet and account that an address resolves to.
    pub open spec fn resolve(&self, a: Seq<u8>) -> Option<(int, int)> {
        if self.has_address(a) {
            Some(choose|p: (int, int)| self.first_holder(a, p.0, p.1))
        } else {
            None
        }
    }

    /// The first wallet with the given name.
    pub open spec fn named(&self, name: Seq<char>) -> Option<int> {
        if exists|w: int| 0 <= w < self.wallets@.len() && #[trigger] self.wallets@[w].name@ == name {
            Some(
                choose|w: int|
                    0 <= w < self.wallets@.len() && #[trigger] self.wallets@[w].name@ == name && forall|
                        v: int,
                    | 0 <= v < w ==> #[trigger] self.wallets@[v].name@ != name,
            )
        } else {
            None
        }
    }

    /// Looks a wallet up by name.
    pub fn get(&self, name: &String) -> (r: Option<&Wallet>)
        ensures
            self.named(name@) is None ==> r is None,
            self.named(name@) matches Some(w) ==> r == Some(&self.wallets@[w]),
    {
        let mut i: usize = 0;
        while i < self.wallets.len()
            invariant
                0 <= i <= self.wallets@.len(),
                forall|v: int| 0 <= v < i ==> #[trigger] self.wallets@[v].name@ != name@,
            decreases self.wallets@.len() - i,
        {
            if self.wallets[i].name == *name {
                let ghost w = i as int;
                assert(0 <= w < self.wallets@.len() && self.wallets@[w].name@ == name@);
                assert(self.named(name@) == Some(w)) by {
                    let c = self.named(name@)->0;
                    if c < w {
                    } else if c > w {
                    }
                }
                return Some(&self.wallets[i]);
            }
            i = i + 1;
        }
        None
    }

    /// Finds the wallet and account that hold an address: the first match, wallets in
    /// order, then accounts.
    pub fn find(&self, a: &Address) -> (r: Option<(usize, usize)>)
        ensures
            r is None ==> self.resolve(a@) is None,
            r matches Some(p) ==> self.resolve(a@) == Some((p.0 as int, p.1 as int)) && self.holds(
                a@,
                p.0 as int,
                p.1 as int,
            ),
    {
        let mut w: usize = 0;
        while w < self.wallets.len()
            invariant
                0 <= w <= self.wallets@.len(),
                forall|v: int, j: int| v < w ==> !#[trigger] self.holds(a@, v, j),
            decreases self.wallets@.len() - w,
        {
            let wallet = &self.wallets[w];
            let mut k: usize = 0;
            while k < wallet.accounts.len()
                invariant
                    0 <= w < self.wallets@.len(),
                    wallet == &self.wallets@[w as int],
                    0 <= k <= wallet.accounts@.len(),
                    forall|v: int, j: int| v < w ==> !#[trigger] self.holds(a@, v, j),
                    forall|j: int| j < k ==> !#[trigger] self.holds(a@, w as int, j),
                decreases wallet.accounts@.len() - k,
            {
                if same_address(&wallet.accounts[k].address, a) {
                    assert(self.holds(a@, w as int, k as int));
                    let ghost p = (w as int, k as int);
                    assert(self.first_holder(a@, p.0, p.1));
                    let ghost c = choose|p: (int, int)| self.first_holder(a@, p.0, p.1);
                    assert(c == (w as int, k as int)) by {
                        assert(self.first_holder(a@, c.0, c.1));
                        assert(self.holds(a@, c.0, c.1));
                        assert(self.holds(a@, p.0, p.1));
                    }
                    return Some((w, k));
                }
                k = k + 1;
            }
            w = w + 1;
        }
        assert(!self.has_address(a@));
        None
    }
}

} // verus!
