use vstd::prelude::*;

verus! {

/// The seed phrase that sep5 encodes from the given entropy bytes, if the
/// entropy has a size that the mnemonic scheme accepts.
pub uninterp spec fn phrase_of_entropy(entropy: Seq<u8>) -> Option<Seq<char>>;

/// Whether sep5 accepts the text as a seed phrase.
pub uninterp spec fn is_phrase(text: Seq<char>) -> bool;

/// The (private, public) ed25519 key bytes that sep5 derives from a seed
/// phrase at the hardened account index, if the phrase and index are valid.
pub uninterp spec fn hd_keys(phrase: Seq<char>, index: nat) -> Option<(Seq<u8>, Seq<u8>)>;

/// The ed25519 public key of a 32-byte private key.
pub uninterp spec fn public_of_private(key: Seq<u8>) -> Seq<u8>;

/// The strkey text ("S...") of a 32-byte ed25519 private key.
pub uninterp spec fn private_strkey(key: Seq<u8>) -> Seq<char>;

/// The strkey text ("G...") of a 32-byte ed25519 public key.
pub uninterp spec fn public_strkey(key: Seq<u8>) -> Seq<char>;

/// The 32 bytes of the private key that a strkey text encodes, if any.
pub uninterp spec fn private_of_strkey(text: Seq<char>) -> Option<Seq<u8>>;

/// Entropy sizes, in bytes, that a mnemonic can encode (12 to 24 words).
pub open spec fn entropy_len_ok(n: nat) -> bool {
    n == 16 || n == 20 || n == 24 || n == 28 || n == 32
}

/// Relies on `sep5::SeedPhrase::from_entropy` and `SeedPhrase::phrase`: the
/// English mnemonic of the entropy, refused (through
/// `MnemonicType::for_key_size`) unless the entropy is 128, 160, 192, 224 or
/// 256 bits long. The phrase is list words with their checksum, joined by
/// spaces: `SeedPhrase::from_str` accepts it, and strkey decoding refuses it
/// (a space is no base32 character).
#[verifier::external_body]
pub(crate) fn phrase_from_entropy(entropy: &[u8]) -> (r: Option<String>)
    ensures
        r is Some <==> entropy_len_ok(entropy@.len()),
        r matches Some(p) ==> is_phrase(p@) && private_of_strkey(p@) is None,
        phrase_of_entropy(entropy@) == (match r {
            Some(p) => Some(p@),
            None => None::<Seq<char>>,
        }),
{
    sep5::SeedPhrase::from_entropy(entropy).ok().map(|p| p.phrase().to_string())
}

/// Relies on `sep5::SeedPhrase::random` with `MnemonicType::Words24`: a
/// phrase drawn from the operating system's random source. sep5 always
/// returns `Ok` here. Which words are drawn is unknown; like every phrase of
/// `bip39::Mnemonic::new` they carry their checksum and are joined by spaces,
/// so `SeedPhrase::from_str` accepts them and strkey decoding refuses them.
#[verifier::external_body]
pub(crate) fn random_phrase() -> (r: String)
    ensures
        is_phrase(r@),
        private_of_strkey(r@) is None,
{
    sep5::SeedPhrase::random(sep5::MnemonicType::Words24)
        .expect("sep5 returns Ok from random")
        .phrase()
        .to_string()
}

/// Relies on `sep5::SeedPhrase::from_str`: whether the text (with its
/// whitespace normalised) is a valid English mnemonic.
#[verifier::external_body]
pub(crate) fn parses_as_phrase(text: &str) -> (r: bool)
    ensures
        r == is_phrase(text@),
{
    text.parse::<sep5::SeedPhrase>().is_ok()
}

/// Relies on `sep5::SeedPhrase::from_seed_phrase` and
/// `SeedPhrase::from_path_index`: the key pair at `m/44'/148'/index'`. Both
/// keys of a `sep5::KeyPair` are 32 bytes, and `KeyPair::public` is the
/// ed25519-dalek verifying key of the private key. The hardened index is
/// computed as `index + 0x80000000` in `u32` by ows-signer, so the index stays
/// below 2^31. Below it, derivation fails only when the phrase does not parse.
#[verifier::external_body]
pub(crate) fn derive_hd_keys(phrase: &str, index: usize) -> (r: Option<(Vec<u8>, Vec<u8>)>)
    requires
        index < 0x8000_0000,
    ensures
        hd_keys(phrase@, index as nat) == (match r {
            Some(k) => Some((k.0@, k.1@)),
            None => None::<(Seq<u8>, Seq<u8>)>,
        }),
        r is Some <==> is_phrase(phrase@),
        r matches Some(k) ==> k.0@.len() == 32 && k.1@.len() == 32 && k.1@ == public_of_private(k.0@),
{
    let seed = sep5::SeedPhrase::from_seed_phrase(phrase).ok()?;
    let pair = seed.from_path_index(index, None).ok()?;
    Some((pair.private().0.to_vec(), pair.public().0.to_vec()))
}

/// Relies on `ed25519_dalek::SigningKey::from_bytes`, `verifying_key` and
/// `VerifyingKey::to_bytes`: the 32-byte public key of a private key.
#[verifier::external_body]
pub(crate) fn public_from_private(key: &Vec<u8>) -> (r: Vec<u8>)
    requires
        key@.len() == 32,
    ensures
        r@ == public_of_private(key@),
        r@.len() == 32,
{
    let bytes: [u8; 32] = key.as_slice().try_into().unwrap();
    ed25519_dalek::SigningKey::from_bytes(&bytes).verifying_key().to_bytes().to_vec()
}

/// Relies on `stellar_strkey::ed25519::PrivateKey` and its unredacted
/// `to_string`: the strkey text of the key, which `PrivateKey::from_string`
/// decodes back to the same bytes.
#[verifier::external_body]
pub(crate) fn encode_private_key(key: &Vec<u8>) -> (r: String)
    requires
        key@.len() == 32,
    ensures
        r@ == private_strkey(key@),
        private_of_strkey(r@) == Some(key@),
{
    let bytes: [u8; 32] = key.as_slice().try_into().unwrap();
    stellar_strkey::ed25519::PrivateKey(bytes).as_unredacted().to_string().as_str().to_string()
}

/// Relies on `stellar_strkey::ed25519::PublicKey::to_string`: the strkey text
/// of the key.
#[verifier::external_body]
pub(crate) fn encode_public_key(key: &Vec<u8>) -> (r: String)
    requires
        key@.len() == 32,
    ensures
        r@ == public_strkey(key@),
{
    let bytes: [u8; 32] = key.as_slice().try_into().unwrap();
    stellar_strkey::ed25519::PublicKey(bytes).to_string().as_str().to_string()
}

/// Relies on `stellar_strkey::ed25519::PrivateKey::from_string`: the key
/// bytes that the text encodes, if it is a private-key strkey. The payload
/// of a `PrivateKey` is 32 bytes.
#[verifier::external_body]
pub(crate) fn decode_private_key(text: &str) -> (r: Option<Vec<u8>>)
    ensures
        r matches Some(k) ==> k@.len() == 32,
        private_of_strkey(text@) == (match r {
            Some(k) => Some(k@),
            None => None::<Seq<u8>>,
        }),
{
    stellar_strkey::ed25519::PrivateKey::from_string(text).ok().map(|k| k.0.to_vec())
}

} // verus!
