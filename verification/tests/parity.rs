use ethers::signers::LocalWallet;
use ethers::types::{Address, H256};
use pqsp::client::parse_storage_root;
use pqsp::error::StorageClientError;
use pqsp::json::statement_json;
use pqsp::keys::{parse_contract_address, parse_private_key};
use pqsp::onchain::VerifierError;
use std::str::FromStr;

struct Lcg(u64);

impl Lcg {
    fn next(&mut self) -> u64 {
        self.0 = self.0.wrapping_mul(6364136223846793005).wrapping_add(1442695040888963407);
        self.0 >> 33
    }
}

const PREFIXES: [&str; 5] = ["", "0x", "0X", "0X0x", " 0x"];
const RARE: [char; 9] = [' ', '\t', '\n', '\r', 'g', 'x', 'X', 'é', '#'];

fn sample(rng: &mut Lcg, digits: usize) -> String {
    let mut s = PREFIXES[(rng.next() % 5) as usize].to_string();
    let len = match rng.next() % 4 {
        0 => digits,
        1 => digits + 1,
        2 => digits.saturating_sub(1),
        _ => (rng.next() % (digits as u64 + 4)) as usize,
    };
    for _ in 0..len {
        if rng.next() % 40 == 0 {
            s.push(RARE[(rng.next() % 9) as usize]);
        } else {
            s.push(b"0123456789abcdefABCDEF"[(rng.next() % 22) as usize] as char);
        }
    }
    s
}

#[test]
fn storage_roots_agree_with_h256_on_many_texts() {
    let mut rng = Lcg(1);
    for _ in 0..3000 {
        let text = sample(&mut rng, 64);
        match (parse_storage_root(&text), H256::from_str(&text)) {
            (Ok(a), Ok(h)) => assert_eq!(a, h.0),
            (Err(StorageClientError::ZeroGSdk(m)), Err(e)) => assert_eq!(m, e.to_string()),
            _ => panic!("outcomes differ on {text:?}"),
        }
    }
}

#[test]
fn contract_addresses_agree_with_address_on_many_texts() {
    let mut rng = Lcg(2);
    for _ in 0..3000 {
        let text = sample(&mut rng, 40);
        match (parse_contract_address(&text), Address::from_str(&text)) {
            (Ok(a), Ok(h)) => assert_eq!(a, h.0),
            (Err(VerifierError::InvalidContractAddress(m)), Err(e)) => assert_eq!(m, e.to_string()),
            _ => panic!("outcomes differ on {text:?}"),
        }
    }
}

#[test]
fn private_keys_agree_with_local_wallet_on_many_texts() {
    let mut rng = Lcg(3);
    for _ in 0..3000 {
        let text = sample(&mut rng, 64);
        match (parse_private_key(&text), LocalWallet::from_str(&text)) {
            (Ok(k), Ok(w)) => assert_eq!(k.to_vec(), w.signer().to_bytes().to_vec()),
            (Err(VerifierError::InvalidPrivateKey(m)), Err(e)) => assert_eq!(m, e.to_string()),
            _ => panic!("outcomes differ on {text:?}"),
        }
    }
}

#[test]
fn statement_json_escapes_strings_like_serde_json() {
    let inputs = vec![
        "plain".to_string(),
        "q\"b\\s/".to_string(),
        "\u{8}\t\n\u{c}\r\u{0}\u{1f}\u{7f}".to_string(),
        "é漢😀".to_string(),
        String::new(),
    ];
    let json = statement_json(&[1, 200], &[], &inputs).unwrap();
    let expected = format!(
        "{{\"state_commitment\":[1,200],\"context\":[],\"public_inputs\":{}}}",
        String::from_utf8(serde_json::to_vec(&inputs).unwrap()).unwrap()
    );
    assert_eq!(String::from_utf8(json.clone()).unwrap(), expected);
    assert!(String::from_utf8(json)
        .unwrap()
        .contains("[\"plain\",\"q\\\"b\\\\s/\",\"\\b\\t\\n\\f\\r\\u0000\\u001f\u{7f}\",\"é漢😀\",\"\"]"));
}
