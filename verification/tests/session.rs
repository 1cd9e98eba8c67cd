use shared_sdk::masp::MaspParams;
use shared_sdk::sdk::{Sdk, NATIVE_TOKEN};

fn blobs(n: u8) -> Vec<Vec<u8>> {
    (0..n).map(|i| vec![i; usize::from(i) + 1]).collect()
}

#[test]
fn a_new_session_knows_its_ledger_and_the_native_token() {
    let sdk = Sdk::new(String::from("http://localhost:27657"));
    assert_eq!(sdk.url(), "http://localhost:27657");
    assert_eq!(sdk.native_token(), "tnam1qxuqn53dtcckynnm35n8s27cftxcqym7gvesjrp9");
    assert_eq!(sdk.native_token(), NATIVE_TOKEN);
    assert_eq!(sdk.masp_params(), None);
}

#[test]
fn only_three_blobs_make_a_set() {
    assert!(!MaspParams::is_whole(&blobs(0)));
    assert!(!MaspParams::is_whole(&blobs(2)));
    assert!(MaspParams::is_whole(&blobs(3)));
    assert!(!MaspParams::is_whole(&blobs(4)));
}

#[test]
fn three_blobs_are_kept_as_spend_output_convert() {
    let params = MaspParams::from_blobs(vec![b"spend".to_vec(), b"output".to_vec(), b"convert".to_vec()]);
    assert_eq!(params.spend(), &b"spend".to_vec());
    assert_eq!(params.output(), &b"output".to_vec());
    assert_eq!(params.convert(), &b"convert".to_vec());
    assert_eq!(
        params,
        MaspParams::new(b"spend".to_vec(), b"output".to_vec(), b"convert".to_vec())
    );
}

#[test]
fn installed_blobs_are_the_blobs_retrieved() {
    let given = vec![b"spend".to_vec(), b"output".to_vec(), b"convert".to_vec()];
    let mut sdk = Sdk::new(String::from("http://localhost:27657"));
    sdk.load_masp_params(given.clone());
    assert_eq!(sdk.masp_params().unwrap().to_blobs(), given);
}

#[test]
fn a_second_load_replaces_the_whole_set() {
    let mut sdk = Sdk::new(String::from("http://localhost:27657"));
    sdk.load_masp_params(vec![vec![1], vec![2], vec![3]]);
    sdk.load_masp_params(vec![vec![4], vec![], vec![6, 6]]);
    assert_eq!(sdk.masp_params(), Some(&MaspParams::new(vec![4], vec![], vec![6, 6])));
    assert_eq!(sdk.url(), "http://localhost:27657");
    assert_eq!(sdk.native_token(), NATIVE_TOKEN);
}
