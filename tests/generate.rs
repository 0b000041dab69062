use std::collections::HashMap;

use keygen::generate::{
    funding_warning, public_key_of_key_pair, Cmd, Error, KeychainStep, Plan, HD_INDEX_LIMIT,
};
use keygen::locator::{Locator, LocatorError};
use keygen::secret::{keychain_entry_name, Secret, SecretError};

fn set_up_test() -> Cmd {
    Cmd {
        name: "test_name".to_string(),
        no_fund: true,
        seed: None,
        as_secret: false,
        keychain: false,
        hd_path: None,
        default_seed: false,
        fund: false,
    }
}

/// Runs the generate flow against an in-memory identity store and keychain.
fn run(
    cmd: &Cmd,
    identities: &mut Locator,
    keychain: &mut HashMap<String, Vec<u8>>,
) -> Result<Plan, Error> {
    let entry = keychain_entry_name(&cmd.name);
    let existing = keychain.get(&entry).and_then(public_key_of_key_pair);
    let plan = cmd.plan(existing)?;
    if let Some(KeychainStep::Store { entry_name, key_pair }) = &plan.keychain {
        keychain.insert(entry_name.clone(), key_pair.clone());
    }
    identities.write_identity(&cmd.name, &plan.secret);
    Ok(plan)
}

fn read_identity(identities: &Locator, name: &str) -> Secret {
    identities.read_identity(name).unwrap()
}

#[test]
fn test_storing_secret_as_a_seed_phrase() {
    let cmd = set_up_test();
    let mut identities = Locator::new();
    let mut keychain = HashMap::new();
    let result = run(&cmd, &mut identities, &mut keychain);
    assert!(result.is_ok());
    let identity = read_identity(&identities, "test_name");
    assert!(matches!(identity, Secret::SeedPhrase { .. }));
}

#[test]
fn test_storing_secret_as_a_secret_key() {
    let mut cmd = set_up_test();
    cmd.as_secret = true;
    let mut identities = Locator::new();
    let mut keychain = HashMap::new();
    let result = run(&cmd, &mut identities, &mut keychain);
    assert!(result.is_ok());
    let identity = read_identity(&identities, "test_name");
    assert!(matches!(identity, Secret::SecretKey { .. }));
}

#[test]
fn test_storing_secret_in_keychain() {
    let mut cmd = set_up_test();
    cmd.keychain = true;
    let mut identities = Locator::new();
    let mut keychain = HashMap::new();
    let result = run(&cmd, &mut identities, &mut keychain);
    assert!(result.is_ok());
    let identity = read_identity(&identities, "test_name");
    assert!(matches!(identity, Secret::Keychain { .. }));
}

#[test]
fn keychain_entry_name_has_namespace() {
    assert_eq!(keychain_entry_name("alice"), "keychain:org.stellar.cli-alice");
}

#[test]
fn test_seed_gives_a_twelve_word_phrase() {
    let mut cmd = set_up_test();
    cmd.default_seed = true;
    let secret = cmd.seed_phrase().unwrap();
    let text = secret.format();
    assert_ne!(text, "0000000000000000");
    assert_eq!(text.split(' ').count(), 12);
    assert!(secret.is_seed_phrase());
}

#[test]
fn test_seed_is_the_seed_text_of_zeros() {
    let mut a = set_up_test();
    a.default_seed = true;
    let mut b = set_up_test();
    b.seed = Some("0000000000000000".to_string());
    assert_eq!(a.seed_phrase().unwrap(), b.seed_phrase().unwrap());
}

#[test]
fn seeded_generation_is_deterministic() {
    let mut cmd = set_up_test();
    cmd.seed = Some("abcdefghijklmnopqrstuvwxyz012345".to_string());
    cmd.no_fund = false;
    let first = cmd.plan(None).unwrap();
    let second = cmd.plan(None).unwrap();
    assert_eq!(first, second);
    let address = first.fund_address.unwrap();
    assert_eq!(address.len(), 56);
    assert!(address.starts_with('G'));
    assert_eq!(first.secret.format().split(' ').count(), 24);
}

#[test]
fn different_hd_paths_give_different_keys() {
    let mut a = set_up_test();
    a.default_seed = true;
    a.as_secret = true;
    let mut b = a.clone();
    b.hd_path = Some(1);
    let ka = a.secret().unwrap().format();
    let kb = b.secret().unwrap().format();
    assert_ne!(ka, kb);
    assert_eq!(ka.len(), 56);
    assert!(ka.starts_with('S'));
}

#[test]
fn secret_key_text_round_trips() {
    let mut cmd = set_up_test();
    cmd.default_seed = true;
    cmd.as_secret = true;
    let secret = cmd.secret().unwrap();
    assert_eq!(Secret::parse(&secret.format()), Ok(secret));
}

#[test]
fn seed_phrase_text_round_trips() {
    let mut cmd = set_up_test();
    cmd.default_seed = true;
    let secret = cmd.secret().unwrap();
    assert_eq!(Secret::parse(&secret.format()), Ok(secret));
}

#[test]
fn keychain_text_round_trips() {
    let secret = Secret::Keychain { entry_name: "keychain:org.stellar.cli-bob".to_string() };
    assert_eq!(Secret::parse(&secret.format()), Ok(secret));
}

#[test]
fn unknown_text_is_refused() {
    assert_eq!(Secret::parse("not a secret"), Err(SecretError::InvalidSecretFormat));
    assert_eq!(Secret::parse("keychain:org.stellar.cli-"), Err(SecretError::InvalidSecretFormat));
    assert_eq!(Secret::parse("keychain:other-bob"), Err(SecretError::InvalidSecretFormat));
}

#[test]
fn seed_and_test_seed_together_are_refused() {
    let mut cmd = set_up_test();
    cmd.default_seed = true;
    cmd.seed = Some("0000000000000000".to_string());
    assert_eq!(cmd.seed_phrase(), Err(Error::ConflictingSeedOptions));
    assert_eq!(cmd.secret(), Err(Error::ConflictingSeedOptions));
    assert_eq!(cmd.plan(None), Err(Error::ConflictingSeedOptions));
}

#[test]
fn seed_of_wrong_length_is_refused() {
    let mut cmd = set_up_test();
    cmd.seed = Some("abc".to_string());
    assert_eq!(cmd.seed_phrase(), Err(Error::InvalidSeed));
    assert_eq!(cmd.plan(None), Err(Error::InvalidSeed));
}

#[test]
fn hd_path_out_of_range_is_refused() {
    let mut cmd = set_up_test();
    cmd.default_seed = true;
    cmd.as_secret = true;
    cmd.hd_path = Some(HD_INDEX_LIMIT);
    assert_eq!(cmd.secret(), Err(Error::UnsupportedPath));
    cmd.hd_path = Some(HD_INDEX_LIMIT - 1);
    assert!(cmd.secret().is_ok());
}

#[test]
fn generating_without_fund_flag_succeeds() {
    let mut cmd = set_up_test();
    cmd.no_fund = false;
    cmd.fund = false;
    let mut identities = Locator::new();
    let mut keychain = HashMap::new();
    let plan = run(&cmd, &mut identities, &mut keychain).unwrap();
    assert!(plan.warn_funding_default);
    assert!(plan.fund_address.is_some());
    assert!(identities.read_identity("test_name").is_ok());
}

#[test]
fn second_keychain_generation_keeps_the_entry() {
    let mut cmd = set_up_test();
    cmd.keychain = true;
    cmd.no_fund = false;
    let mut identities = Locator::new();
    let mut keychain = HashMap::new();
    let first = run(&cmd, &mut identities, &mut keychain).unwrap();
    assert!(matches!(first.keychain, Some(KeychainStep::Store { .. })));
    let stored = keychain.get("keychain:org.stellar.cli-test_name").unwrap().clone();
    assert_eq!(stored.len(), 64);
    let stored_public = public_key_of_key_pair(&stored).unwrap();
    assert_eq!(first.fund_address, Some(stored_public.clone()));
    let second = run(&cmd, &mut identities, &mut keychain).unwrap();
    assert_eq!(
        second.keychain,
        Some(KeychainStep::KeepExisting {
            entry_name: "keychain:org.stellar.cli-test_name".to_string(),
            public_key: stored_public.clone(),
        })
    );
    assert_eq!(second.fund_address, Some(stored_public));
    assert_eq!(keychain.get("keychain:org.stellar.cli-test_name").unwrap(), &stored);
}

#[test]
fn funding_failure_is_not_a_failure() {
    let mut cmd = set_up_test();
    cmd.no_fund = false;
    let mut identities = Locator::new();
    let mut keychain = HashMap::new();
    let plan = run(&cmd, &mut identities, &mut keychain).unwrap();
    let funded = Some(Err("network unreachable".to_string()));
    assert_eq!(plan.outcome(&funded), Ok(()));
    assert_eq!(
        funding_warning(&funded),
        Some("fund_address failed: network unreachable".to_string())
    );
    assert!(identities.read_identity("test_name").is_ok());
    assert_eq!(funding_warning(&Some(Ok(()))), None);
    assert_eq!(funding_warning(&None), None);
}

#[test]
fn unknown_identity_is_not_found() {
    let store = Locator::new();
    assert_eq!(store.read_identity("nobody"), Err(LocatorError::IdentityNotFound));
    assert!(store.list_identities().is_empty());
}

#[test]
fn writing_a_name_again_replaces_it() {
    let mut store = Locator::new();
    let first = Secret::Keychain { entry_name: "keychain:org.stellar.cli-a".to_string() };
    let second = Secret::Keychain { entry_name: "keychain:org.stellar.cli-b".to_string() };
    store.write_identity("alice", &first);
    store.write_identity("bob", &first);
    store.write_identity("alice", &second);
    assert_eq!(store.read_identity("alice"), Ok(second));
    assert_eq!(store.read_identity("bob"), Ok(first));
    let mut names = store.list_identities();
    names.sort();
    assert_eq!(names, vec!["alice".to_string(), "bob".to_string()]);
}

#[test]
fn stored_text_that_is_no_secret_is_refused() {
    let mut store = Locator::new();
    let odd = Secret::Keychain { entry_name: "elsewhere".to_string() };
    store.write_identity("carol", &odd);
    assert_eq!(store.read_identity("carol"), Err(LocatorError::InvalidSecretFormat));
}

#[test]
fn public_key_of_a_secret_key_matches_its_phrase() {
    let mut phrase_cmd = set_up_test();
    phrase_cmd.default_seed = true;
    phrase_cmd.hd_path = Some(3);
    let mut key_cmd = phrase_cmd.clone();
    key_cmd.as_secret = true;
    let phrase = phrase_cmd.secret().unwrap();
    let key = key_cmd.secret().unwrap();
    let from_phrase = phrase.public_key(Some(3), None).unwrap();
    let from_key = key.public_key(None, None).unwrap();
    assert_eq!(from_phrase, from_key);
    assert!(from_key.starts_with('G'));
    assert_ne!(from_phrase, phrase.public_key(Some(4), None).unwrap());
}

#[test]
fn keychain_public_key_comes_from_the_entry() {
    let secret = Secret::Keychain { entry_name: "keychain:org.stellar.cli-dave".to_string() };
    assert_eq!(secret.public_key(None, None), Err(Error::EntryNotFound));
    assert_eq!(secret.public_key(None, Some("GABC".to_string())), Ok("GABC".to_string()));
}

#[test]
fn key_pair_bytes_of_wrong_length_have_no_public_key() {
    assert_eq!(public_key_of_key_pair(&vec![7u8; 63]), None);
    assert_eq!(public_key_of_key_pair(&Vec::new()), None);
}

#[test]
fn public_key_of_key_pair_reads_the_second_half() {
    let mut bytes = vec![1u8; 32];
    bytes.extend(vec![2u8; 32]);
    let mut other = vec![9u8; 32];
    other.extend(vec![2u8; 32]);
    let key = public_key_of_key_pair(&bytes).unwrap();
    assert_eq!(key.len(), 56);
    assert!(key.starts_with('G'));
    assert_eq!(public_key_of_key_pair(&other), Some(key));
}

#[test]
fn fund_address_is_the_stored_secret_key() {
    let mut cmd = set_up_test();
    cmd.as_secret = true;
    cmd.no_fund = false;
    cmd.hd_path = Some(2);
    let plan = cmd.plan(None).unwrap();
    assert_eq!(plan.fund_address, Some(plan.secret.public_key(None, None).unwrap()));
}

#[test]
fn random_generation_reads_back() {
    let cmd = set_up_test();
    let secret = cmd.secret().unwrap();
    assert_eq!(Secret::parse(&secret.format()), Ok(secret.clone()));
    assert_eq!(secret.format().split(' ').count(), 24);
}

#[test]
fn hd_path_out_of_range_refused_only_when_used() {
    let mut cmd = set_up_test();
    cmd.hd_path = Some(HD_INDEX_LIMIT);
    assert!(cmd.plan(None).is_ok());
    cmd.no_fund = false;
    assert_eq!(cmd.plan(None), Err(Error::UnsupportedPath));
    cmd.keychain = true;
    assert!(cmd.plan(None).is_ok());
}
