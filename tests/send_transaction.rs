use ethui_rpc::{
    Account, Address, DialogMsg, Error, FinishStep, NameOrAddress, Network, RawParams,
    RequestParams, ReviewEvent, ReviewStep, SendTransaction, SignerStep, UpdatePatch, Wallet,
    WalletDirectory, WalletType, Wei,
};

const A: &str = "0x1111111111111111111111111111111111111111";
const A2: &str = "0x2222222222222222222222222222222222222222";
const B: &str = "0x3333333333333333333333333333333333333333";
const C: &str = "0x4444444444444444444444444444444444444444";
const UNKNOWN: &str = "0x9999999999999999999999999999999999999999";

fn addr(b: u8) -> Address {
    Address { bytes: [b; 20] }
}

fn wei(v: u64) -> Wei {
    Wei { limbs: [v, 0, 0, 0] }
}

fn directory(current: usize) -> WalletDirectory {
    WalletDirectory {
        wallets: vec![
            Wallet {
                name: "dev".to_string(),
                wallet_type: WalletType::Plaintext,
                is_dev: true,
                accounts: vec![
                    Account { address: addr(0x11), path: "m/44'/60'/0'/0/0".to_string() },
                    Account { address: addr(0x22), path: "m/44'/60'/0'/0/1".to_string() },
                ],
                current: 1,
            },
            Wallet {
                name: "hardware".to_string(),
                wallet_type: WalletType::Ledger,
                is_dev: false,
                accounts: vec![Account { address: addr(0x44), path: "m/44'/60'/1'/0/0".to_string() }],
                current: 0,
            },
        ],
        current,
    }
}

fn params(from: Option<&str>, to: Option<&str>, value: Option<&str>, data: Option<&str>) -> RequestParams {
    RequestParams {
        from: from.map(|s| s.to_string()),
        to: to.map(|s| s.to_string()),
        value: value.map(|s| s.to_string()),
        data: data.map(|s| s.to_string()),
    }
}

fn dev_network() -> Network {
    Network { chain_id: 31337, is_dev: true }
}

fn built(p: RequestParams, network: Network, dir: &WalletDirectory) -> SendTransaction<()> {
    SendTransaction::<()>::build(network)
        .set_request(RawParams::Object(p), dir)
        .unwrap()
        .build()
}

#[test]
fn set_request_resolves_explicit_sender() {
    let dir = directory(0);
    let b = SendTransaction::<()>::build(dev_network())
        .set_request(RawParams::Object(params(Some(C), None, None, None)), &dir)
        .unwrap();
    assert_eq!(b.wallet_name.as_deref(), Some("hardware"));
    assert_eq!(b.wallet_path.as_deref(), Some("m/44'/60'/1'/0/0"));
    assert_eq!(b.wallet_type, Some(WalletType::Ledger));
    assert_eq!(b.request.from, Some(addr(0x44)));

    let b = SendTransaction::<()>::build(dev_network())
        .set_request(RawParams::Object(params(Some(A2), None, None, None)), &dir)
        .unwrap();
    assert_eq!(b.wallet_name.as_deref(), Some("dev"));
    assert_eq!(b.wallet_path.as_deref(), Some("m/44'/60'/0'/0/1"));
}

#[test]
fn set_request_unknown_sender_is_wallet_not_found() {
    let dir = directory(0);
    let r = SendTransaction::<()>::build(dev_network())
        .set_request(RawParams::Object(params(Some(UNKNOWN), Some(B), Some("7"), None)), &dir);
    assert_eq!(r.unwrap_err(), Error::WalletNotFound(addr(0x99)));
}

#[test]
fn set_request_defaults_to_current_wallet() {
    let dir = directory(0);
    let b = SendTransaction::<()>::build(dev_network())
        .set_request(RawParams::Object(params(None, Some(B), None, None)), &dir)
        .unwrap();
    assert_eq!(b.wallet_name.as_deref(), Some("dev"));
    assert_eq!(b.wallet_path.as_deref(), Some("m/44'/60'/0'/0/1"));
    assert_eq!(b.request.from, Some(addr(0x22)));
    assert!(matches!(b.request.to, Some(NameOrAddress::Address(a)) if a == addr(0x33)));

    let dir = directory(1);
    let b = SendTransaction::<()>::build(dev_network())
        .set_request(RawParams::Object(params(None, None, None, None)), &dir)
        .unwrap();
    assert_eq!(b.wallet_name.as_deref(), Some("hardware"));
    assert_eq!(b.request.from, Some(addr(0x44)));
}

#[test]
fn set_request_accepts_array_wrapper() {
    let dir = directory(0);
    let b = SendTransaction::<()>::build(dev_network())
        .set_request(RawParams::Array(vec![params(Some(A), None, Some("12"), None)]), &dir)
        .unwrap();
    assert_eq!(b.wallet_path.as_deref(), Some("m/44'/60'/0'/0/0"));
    assert_eq!(b.request.value, Some(wei(12)));

    let r = SendTransaction::<()>::build(dev_network()).set_request(RawParams::Array(vec![]), &dir);
    assert_eq!(r.unwrap_err(), Error::InvalidParams);
}

#[test]
fn set_request_parses_fields() {
    let dir = directory(0);
    let b = SendTransaction::<()>::build(dev_network())
        .set_request(RawParams::Object(params(Some(A), Some(B), Some("0xff"), Some("0xdead"))), &dir)
        .unwrap();
    assert_eq!(b.request.value, Some(wei(255)));
    assert_eq!(b.request.data, Some(vec![0xde, 0xad]));
    assert_eq!(b.request.gas, None);

    let b = SendTransaction::<()>::build(dev_network())
        .set_request(RawParams::Object(params(Some(A), None, Some("1000000000000000000"), None)), &dir)
        .unwrap();
    assert_eq!(b.request.value, Some(wei(1_000_000_000_000_000_000)));

    let b = SendTransaction::<()>::build(dev_network())
        .set_request(
            RawParams::Object(params(Some(A), None, Some("0x10000000000000000"), None)),
            &dir,
        )
        .unwrap();
    assert_eq!(b.request.value, Some(Wei { limbs: [0, 1, 0, 0] }));
}

#[test]
fn set_request_rejects_malformed_fields() {
    let dir = directory(0);
    let bad = [
        params(Some("0x12"), None, None, None),
        params(Some(A), Some("not an address"), None, None),
        params(Some(A), None, Some("ten"), None),
        params(Some(A), None, None, Some("0xzz")),
    ];
    for p in bad {
        let r = SendTransaction::<()>::build(dev_network()).set_request(RawParams::Object(p), &dir);
        assert_eq!(r.unwrap_err(), Error::InvalidParams);
    }
}

#[test]
fn estimate_gas_adds_a_fifth() {
    let dir = directory(0);
    let mut tx = built(params(Some(A), Some(B), None, None), dev_network(), &dir);
    tx.estimate_gas(Some(100000));
    assert_eq!(tx.request.gas, Some(120000));
    tx.estimate_gas(Some(21001));
    assert_eq!(tx.request.gas, Some(25201));
}

#[test]
fn estimate_gas_falls_back_on_error() {
    let dir = directory(0);
    let mut tx = built(params(Some(A), Some(B), None, None), dev_network(), &dir);
    tx.estimate_gas(None);
    assert_eq!(tx.request.gas, Some(1000000));
}

#[test]
fn finish_fast_path_skips_review() {
    let dir = directory(0);
    let tx = built(params(Some(A), Some(B), None, None), dev_network(), &dir);
    assert_eq!(tx.finish(&dir, true), Ok(FinishStep::Send));
    assert_eq!(tx.finish(&dir, false), Ok(FinishStep::Review));

    let prod = Network { chain_id: 1, is_dev: false };
    let tx = built(params(Some(A), Some(B), None, None), prod, &dir);
    assert_eq!(tx.finish(&dir, true), Ok(FinishStep::Review));

    let tx = built(params(Some(C), Some(B), None, None), dev_network(), &dir);
    assert_eq!(tx.finish(&dir, true), Ok(FinishStep::Review));
}

#[test]
fn finish_fails_when_wallet_was_removed() {
    let dir = directory(0);
    let tx = built(params(Some(C), Some(B), None, None), dev_network(), &dir);
    let mut smaller = directory(0);
    smaller.wallets.pop();
    assert_eq!(tx.finish(&smaller, true), Err(Error::WalletNameNotFound("hardware".to_string())));
    assert_eq!(tx.build_signer(&smaller).unwrap_err(), Error::WalletNameNotFound("hardware".to_string()));
}

#[test]
fn update_resimulates_with_latest_patch() {
    let dir = directory(0);
    let mut tx = built(params(Some(A), Some(B), Some("1"), None), dev_network(), &dir);
    tx.estimate_gas(Some(50000));
    let patches = [("0x01", "2"), ("0x0203", "0x3")];
    let mut relayed = 0;
    for (data, value) in patches {
        let msg = DialogMsg::Data(ReviewEvent::Update(UpdatePatch {
            data: Some(data.to_string()),
            value: Some(value.to_string()),
        }));
        match tx.on_dialog_msg(msg, &dir) {
            Ok(ReviewStep::Simulate(Ok(sim))) => {
                relayed += 1;
                assert_eq!(sim.value, tx.request.value);
                assert_eq!(sim.data, tx.request.data);
                assert_eq!(sim.from, addr(0x11));
                assert_eq!(sim.to, addr(0x33));
                assert_eq!(sim.gas_limit, 60000);
            }
            other => panic!("unexpected step {:?}", other),
        }
    }
    assert_eq!(relayed, 2);
    assert_eq!(tx.request.value, Some(wei(3)));
    assert_eq!(tx.request.data, Some(vec![2, 3]));
}

#[test]
fn update_then_close_is_rejected() {
    let dir = directory(0);
    let mut tx = built(params(Some(A), Some(B), None, None), dev_network(), &dir);
    let msg = DialogMsg::Data(ReviewEvent::Update(UpdatePatch { data: None, value: Some("9".to_string()) }));
    assert!(tx.on_dialog_msg(msg, &dir).is_ok());
    assert_eq!(tx.on_dialog_msg(DialogMsg::Close, &dir).unwrap_err(), Error::TxDialogRejected);
    assert!(tx.signer.is_none());
}

#[test]
fn malformed_update_changes_nothing() {
    let dir = directory(0);
    let mut tx = built(params(Some(A), Some(B), Some("4"), None), dev_network(), &dir);
    let msg = DialogMsg::Data(ReviewEvent::Update(UpdatePatch {
        data: Some("0x00".to_string()),
        value: Some("four".to_string()),
    }));
    assert_eq!(tx.on_dialog_msg(msg, &dir).unwrap_err(), Error::InvalidParams);
    assert_eq!(tx.request.value, Some(wei(4)));
    assert_eq!(tx.request.data, None);
}

#[test]
fn unrecognized_event_rejects() {
    let dir = directory(0);
    let mut tx = built(params(Some(A), Some(B), None, None), dev_network(), &dir);
    let r = tx.on_dialog_msg(DialogMsg::Data(ReviewEvent::Reject), &dir);
    assert_eq!(r.unwrap_err(), Error::TxDialogRejected);
    assert!(tx.send().is_none());
}

#[test]
fn accept_asks_hardware_wallet_to_confirm() {
    let dir = directory(0);
    let mut tx = built(params(Some(C), Some(B), None, None), dev_network(), &dir);
    assert!(tx.is_ledger());
    match tx.on_dialog_msg(DialogMsg::Data(ReviewEvent::Accept), &dir) {
        Ok(ReviewStep::Accepted { check_ledger }) => assert!(check_ledger),
        other => panic!("unexpected step {:?}", other),
    }
    let mut tx = built(params(Some(A), Some(B), None, None), dev_network(), &dir);
    assert!(!tx.is_ledger());
    match tx.on_dialog_msg(DialogMsg::Data(ReviewEvent::Accept), &dir) {
        Ok(ReviewStep::Accepted { check_ledger }) => assert!(!check_ledger),
        other => panic!("unexpected step {:?}", other),
    }
}

#[test]
fn simulation_needs_resolved_recipient_and_gas() {
    let dir = directory(0);
    let mut tx = built(params(Some(A), None, None, None), dev_network(), &dir);
    tx.estimate_gas(Some(1000));
    tx.request.to = Some(NameOrAddress::Name("vitalik.eth".to_string()));
    match tx.on_dialog_msg(DialogMsg::Data(ReviewEvent::Simulate), &dir) {
        Ok(ReviewStep::Simulate(Err(Error::CannotSimulate))) => {}
        other => panic!("unexpected step {:?}", other),
    }

    let mut tx = built(params(Some(A), Some(B), None, None), dev_network(), &dir);
    match tx.on_dialog_msg(DialogMsg::Data(ReviewEvent::Simulate), &dir) {
        Ok(ReviewStep::Simulate(Err(Error::CannotSimulate))) => {}
        other => panic!("unexpected step {:?}", other),
    }
    // the review goes on: a later simulation with a gas limit succeeds
    tx.estimate_gas(None);
    match tx.on_dialog_msg(DialogMsg::Data(ReviewEvent::Simulate), &dir) {
        Ok(ReviewStep::Simulate(Ok(sim))) => assert_eq!(sim.gas_limit, 1000000),
        other => panic!("unexpected step {:?}", other),
    }
}

#[test]
fn sender_address_comes_from_the_bound_path() {
    let dir = directory(0);
    let tx = built(params(Some(A2), Some(B), None, None), dev_network(), &dir);
    assert_eq!(tx.from(&dir), Ok(addr(0x22)));

    let mut moved = directory(0);
    moved.wallets[0].accounts.pop();
    assert_eq!(tx.from(&moved), Err(Error::CannotSimulate));
    assert_eq!(tx.simulation_request(&moved).unwrap_err(), Error::CannotSimulate);

    let mut gone = directory(0);
    gone.wallets.remove(0);
    assert_eq!(tx.from(&gone), Err(Error::WalletNameNotFound("dev".to_string())));
}

#[test]
fn signer_is_built_once() {
    let dir = directory(0);
    let mut tx: SendTransaction<u32> = SendTransaction::<u32>::build(dev_network())
        .set_request(RawParams::Object(params(Some(A2), Some(B), None, None)), &dir)
        .unwrap()
        .build();
    assert!(tx.send().is_none());
    match tx.build_signer(&dir) {
        Ok(SignerStep::Build { chain_id, wallet_path }) => {
            assert_eq!(chain_id, 31337);
            assert_eq!(wallet_path, "m/44'/60'/0'/0/1");
        }
        other => panic!("unexpected step {:?}", other),
    }
    tx.set_signer(7);
    assert!(matches!(tx.build_signer(&dir), Ok(SignerStep::Cached)));
    tx.set_signer(8);
    assert_eq!(tx.signer, Some(7));
}

#[test]
fn end_to_end_fast_path_broadcasts_once() {
    let dir = directory(0);
    let mut tx = built(params(Some(A), Some(B), Some("0x5"), None), dev_network(), &dir);
    tx.estimate_gas(Some(21000));
    assert_eq!(tx.finish(&dir, true), Ok(FinishStep::Send));
    let mut opened_review = false;
    let mut broadcasts = Vec::new();
    match tx.finish(&dir, true).unwrap() {
        FinishStep::Review => opened_review = true,
        FinishStep::Send => {
            if let Ok(SignerStep::Build { .. }) = tx.build_signer(&dir) {
                tx.set_signer(());
            }
            let (_, request) = tx.send().unwrap();
            broadcasts.push(request);
        }
    }
    assert!(!opened_review);
    assert_eq!(broadcasts.len(), 1);
    assert_eq!(broadcasts[0].value, Some(wei(5)));
    assert_eq!(broadcasts[0].from, Some(addr(0x11)));
    assert_eq!(broadcasts[0].gas, Some(25200));
}
