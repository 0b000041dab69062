use vstd::prelude::*;
use crate::keys::{
    decode_private_key, derive_hd_keys, encode_private_key, encode_public_key, entropy_len_ok,
    hd_keys, is_phrase, phrase_from_entropy, phrase_of_entropy, private_of_strkey, private_strkey,
    public_from_private, public_of_private, public_strkey, random_phrase,
};
use crate::secret::{keychain_entry_name, keychain_entry_of, parse_view, Secret, SecretView};

verus! {

broadcast use vstd::string::group_string_axioms;

/// The first hardened HD index: account indices must stay below it.
pub const HD_INDEX_LIMIT: usize = 0x8000_0000;

/// Errors of generating an identity.
#[derive(Debug, Clone, PartialEq, Eq)]
pub enum Error {
    /// Both an explicit seed and the fixed test seed were asked for.
    ConflictingSeedOptions,
    /// The seed text has a byte length that no mnemonic encodes, or the
    /// random source gave no phrase.
    InvalidSeed,
    /// The HD index is not below [`HD_INDEX_LIMIT`].
    UnsupportedPath,
    /// The phrase and index give no key pair.
    DerivationFailed,
    /// The keychain reference built from the name is not a valid secret.
    InvalidSecretFormat,
    /// A keychain secret's public key was asked for, and the keychain holds
    /// no entry.
    EntryNotFound,
}

/// The options of one generation request.
#[derive(Debug, Clone, PartialEq, Eq)]
pub struct Cmd {
    /// Name of the identity.
    pub name: String,
    /// Do not fund the address.
    pub no_fund: bool,
    /// Text expanded into the entropy of the seed phrase; random otherwise.
    pub seed: Option<String>,
    /// Store the identity as a private key rather than as a seed phrase.
    pub as_secret: bool,
    /// Store the key pair in the platform keychain.
    pub keychain: bool,
    /// HD account index used when a private key is taken from the phrase.
    pub hd_path: Option<usize>,
    /// Use the fixed test seed.
    pub default_seed: bool,
    /// Funding was asked for explicitly.
    pub fund: bool,
}

/// What to do with the platform keychain.
#[derive(Debug, Clone, PartialEq, Eq)]
pub enum KeychainStep {
    /// An entry exists already: leave it as it is and report its public key.
    KeepExisting { entry_name: String, public_key: String },
    /// No entry exists: store the key pair bytes (private then public key).
    Store { entry_name: String, key_pair: Vec<u8> },
}

/// Everything that the generate flow does once the secret is known.
#[derive(Debug, Clone, PartialEq, Eq)]
pub struct Plan {
    /// The secret written under the identity's name.
    pub secret: Secret,
    /// The keychain work, in keychain mode only.
    pub keychain: Option<KeychainStep>,
    /// The public address handed to funding, unless funding is off.
    pub fund_address: Option<String>,
    /// Whether to print the notice on the future default of funding.
    pub warn_funding_default: bool,
}

/// The fixed seed text of test identities.
pub open spec fn test_seed() -> Seq<char> {
    "0000000000000000"@
}

/// The entropy that a seed text stands for: its UTF-8 bytes.
pub open spec fn seed_entropy(text: Seq<char>) -> Seq<u8> {
    vstd::utf8::encode_utf8(text)
}

/// The phrase, or the error, that a seed text gives.
pub open spec fn phrase_of_seed(text: Seq<char>) -> Result<Seq<char>, Error> {
    match phrase_of_entropy(seed_entropy(text)) {
        Some(p) => Ok(p),
        None => Err(Error::InvalidSeed),
    }
}

/// The key pair bytes stored in the keychain: the private key, then the
/// public key.
pub open spec fn key_pair_bytes(keys: (Seq<u8>, Seq<u8>)) -> Seq<u8> {
    keys.0 + keys.1
}

impl Cmd {
    /// The phrase is drawn at random: no seed text and no test seed.
    pub open spec fn is_random(self) -> bool {
        !self.default_seed && self.seed is None
    }

    /// The HD index that derivation uses; 0 when none is given.
    pub open spec fn hd_index(self) -> nat {
        match self.hd_path {
            Some(i) => i as nat,
            None => 0,
        }
    }

    /// The phrase, or the error, of a request that is not random.
    pub open spec fn phrase_spec(self) -> Result<Seq<char>, Error> {
        if self.default_seed && self.seed is Some {
            Err(Error::ConflictingSeedOptions)
        } else if self.default_seed {
            phrase_of_seed(test_seed())
        } else {
            phrase_of_seed(self.seed->Some_0@)
        }
    }

    /// The secret, or the error, that the request gives from a phrase.
    pub open spec fn secret_from_phrase(self, phrase: Seq<char>) -> Result<SecretView, Error> {
        if self.as_secret {
            if self.hd_index() >= HD_INDEX_LIMIT {
                Err(Error::UnsupportedPath)
            } else {
                match hd_keys(phrase, self.hd_index()) {
                    Some(k) => Ok(SecretView::SecretKey(private_strkey(k.0))),
                    None => Err(Error::DerivationFailed),
                }
            }
        } else if self.keychain {
            match parse_view(keychain_entry_of(self.name@)) {
                Some(SecretView::Keychain(e)) => Ok(SecretView::Keychain(e)),
                _ => Err(Error::InvalidSecretFormat),
            }
        } else {
            Ok(SecretView::SeedPhrase(phrase))
        }
    }

    /// The secret, or the error, of a request that is not random.
    pub open spec fn secret_spec(self) -> Result<SecretView, Error> {
        match self.phrase_spec() {
            Ok(p) => self.secret_from_phrase(p),
            Err(e) => Err(e),
        }
    }

    /// The phrase step succeeds: the phrase is random, or the seed text (or
    /// the test seed, alone) has a size that a mnemonic encodes.
    pub open spec fn phrase_ok(self) -> bool {
        self.is_random() || self.phrase_spec() is Ok
    }

    /// The identity is kept in the keychain.
    pub open spec fn keychain_mode(self) -> bool {
        !self.as_secret && self.keychain
    }

    /// Taking the secret from a valid phrase succeeds: the HD index of a
    /// private key is in range, and the keychain reference of the name is
    /// valid.
    pub open spec fn secret_ok(self) -> bool {
        &&& self.as_secret ==> self.hd_index() < HD_INDEX_LIMIT
        &&& self.keychain_mode() ==> parse_view(keychain_entry_of(self.name@)) matches Some(
            SecretView::Keychain(_),
        )
    }

    /// Planning from a valid phrase succeeds: the secret can be taken, and
    /// the HD index of the address to fund is in range.
    pub open spec fn plan_ok(self) -> bool {
        &&& self.secret_ok()
        &&& !self.no_fund && !self.keychain_mode() ==> self.hd_index() < HD_INDEX_LIMIT
    }

    /// The error of a step after the phrase.
    pub open spec fn step_error(self) -> Error {
        if self.keychain_mode() {
            Error::InvalidSecretFormat
        } else {
            Error::UnsupportedPath
        }
    }

    /// The error of a failed request.
    pub open spec fn error_spec(self) -> Error {
        if !self.phrase_ok() {
            self.phrase_spec()->Err_0
        } else {
            self.step_error()
        }
    }

    /// `s` is what the request makes of the valid phrase `p`; a secret that
    /// is no keychain reference has the public key of the phrase at the HD
    /// index.
    pub open spec fn made_from(self, p: Seq<char>, s: SecretView) -> bool {
        &&& is_phrase(p)
        &&& self.secret_from_phrase(p) == Ok::<SecretView, Error>(s)
        &&& !(s is Keychain) ==> public_key_spec(s, self.hd_path, None) == public_key_spec(
            SecretView::SeedPhrase(p),
            self.hd_path,
            None,
        )
    }

    /// The address to fund is the public key of the stored secret, when that
    /// secret is no keychain reference.
    pub open spec fn fund_matches_secret(self, pl: PlanView) -> bool {
        match pl.fund_address {
            Some(a) => !(pl.secret is Keychain) ==> public_key_spec(pl.secret, self.hd_path, None)
                == Ok::<Seq<char>, Error>(a),
            None => true,
        }
    }

    /// `pl` is what the request plans from the valid phrase `p`.
    pub open spec fn plan_made_from(self, p: Seq<char>, existing: Option<Seq<char>>, pl: PlanView) -> bool {
        &&& self.made_from(p, pl.secret)
        &&& self.plan_from_phrase(p, existing) == Ok::<PlanView, Error>(pl)
    }

    /// The seed phrase of the request: from the fixed test seed, from the
    /// seed text, or drawn at random. Asking for both a seed text and the test
    /// seed is refused before anything is generated.
    pub fn seed_phrase(&self) -> (r: Result<Secret, Error>)
        ensures
            !self.is_random() ==> view_result(r) == match self.phrase_spec() {
                Ok(p) => Ok(SecretView::SeedPhrase(p)),
                Err(e) => Err::<SecretView, Error>(e),
            },
            !self.is_random() && !(self.default_seed && self.seed is Some) ==> (r is Ok
                <==> entropy_len_ok(seed_entropy(
                if self.default_seed { test_seed() } else { self.seed->Some_0@ },
            ).len())),
            self.default_seed && self.seed is None ==> r is Ok,
            self.is_random() ==> r is Ok,
            r matches Ok(s) ==> s@ is SeedPhrase && s@.valid(),
    {
        let text: &str = if self.default_seed {
            if self.seed.is_some() {
                return Err(Error::ConflictingSeedOptions);
            }
            proof {
                reveal_strlit("0000000000000000");
                assert(vstd::string::is_ascii("0000000000000000"));
            }
            "0000000000000000"
        } else {
            match &self.seed {
                Some(s) => s.as_str(),
                None => {
                    return Ok(Secret::SeedPhrase { seed_phrase: random_phrase() });
                },
            }
        };
        match phrase_from_entropy(text.as_bytes()) {
            Some(p) => Ok(Secret::SeedPhrase { seed_phrase: p }),
            None => Err(Error::InvalidSeed),
        }
    }
}

/// The mathematical value of a [`KeychainStep`].
pub ghost enum KeychainView {
    KeepExisting(Seq<char>, Seq<char>),
    Store(Seq<char>, Seq<u8>),
}

/// The mathematical value of a [`Plan`].
pub ghost struct PlanView {
    pub secret: SecretView,
    pub keychain: Option<KeychainView>,
    pub fund_address: Option<Seq<char>>,
    pub warn_funding_default: bool,
}

impl View for KeychainStep {
    type V = KeychainView;

    open spec fn view(&self) -> KeychainView {
        match self {
            KeychainStep::KeepExisting { entry_name, public_key } => KeychainView::KeepExisting(
                entry_name@,
                public_key@,
            ),
            KeychainStep::Store { entry_name, key_pair } => KeychainView::Store(
                entry_name@,
                key_pair@,
            ),
        }
    }
}

impl View for Plan {
    type V = PlanView;

    open spec fn view(&self) -> PlanView {
        PlanView {
            secret: self.secret@,
            keychain: match self.keychain {
                Some(k) => Some(k@),
                None => None,
            },
            fund_address: match self.fund_address {
                Some(a) => Some(a@),
                None => None,
            },
            warn_funding_default: self.warn_funding_default,
        }
    }
}

/// The view of a secret result.
pub open spec fn view_result(r: Result<Secret, Error>) -> Result<SecretView, Error> {
    match r {
        Ok(s) => Ok(s@),
        Err(e) => Err(e),
    }
}

/// The view of a plan result.
pub open spec fn plan_result(r: Result<Plan, Error>) -> Result<PlanView, Error> {
    match r {
        Ok(p) => Ok(p@),
        Err(e) => Err(e),
    }
}

/// The key pair at an HD index, or why there is none.
pub open spec fn keys_spec(phrase: Seq<char>, index: nat) -> Result<(Seq<u8>, Seq<u8>), Error> {
    if index >= HD_INDEX_LIMIT {
        Err(Error::UnsupportedPath)
    } else {
        match hd_keys(phrase, index) {
            Some(k) => Ok(k),
            None => Err(Error::DerivationFailed),
        }
    }
}

impl Cmd {
    /// The keychain work for a secret: keep an existing entry, else store the
    /// key pair at index 0 of the phrase.
    pub open spec fn keychain_spec(
        self,
        s: SecretView,
        phrase: Seq<char>,
        existing: Option<Seq<char>>,
    ) -> Result<Option<KeychainView>, Error> {
        match s {
            SecretView::Keychain(e) => match existing {
                Some(k) => Ok(Some(KeychainView::KeepExisting(e, k))),
                None => match keys_spec(phrase, 0) {
                    Ok(k) => Ok(Some(KeychainView::Store(e, key_pair_bytes(k)))),
                    Err(err) => Err(err),
                },
            },
            _ => Ok(None),
        }
    }

    /// The address to fund: none when funding is off; for a keychain secret
    /// the key that the entry holds; else the public key at the HD index.
    pub open spec fn fund_spec(
        self,
        s: SecretView,
        phrase: Seq<char>,
        existing: Option<Seq<char>>,
    ) -> Result<Option<Seq<char>>, Error> {
        if self.no_fund {
            Ok(None)
        } else {
            match s {
                SecretView::Keychain(_) => match existing {
                    Some(k) => Ok(Some(k)),
                    None => match keys_spec(phrase, 0) {
                        Ok(k) => Ok(Some(public_strkey(k.1))),
                        Err(err) => Err(err),
                    },
                },
                _ => match keys_spec(phrase, self.hd_index()) {
                    Ok(k) => Ok(Some(public_strkey(k.1))),
                    Err(err) => Err(err),
                },
            }
        }
    }

    /// The plan, or the error, that the request gives from a phrase, with the
    /// public key of the keychain entry if one exists.
    pub open spec fn plan_from_phrase(
        self,
        phrase: Seq<char>,
        existing: Option<Seq<char>>,
    ) -> Result<PlanView, Error> {
        match self.secret_from_phrase(phrase) {
            Err(e) => Err(e),
            Ok(s) => match self.keychain_spec(s, phrase, existing) {
                Err(e) => Err(e),
                Ok(kc) => match self.fund_spec(s, phrase, existing) {
                    Err(e) => Err(e),
                    Ok(fa) => Ok(
                        PlanView {
                            secret: s,
                            keychain: kc,
                            fund_address: fa,
                            warn_funding_default: !self.fund,
                        },
                    ),
                },
            },
        }
    }

    /// The plan, or the error, of a request that is not random.
    pub open spec fn plan_spec(self, existing: Option<Seq<char>>) -> Result<PlanView, Error> {
        match self.phrase_spec() {
            Ok(p) => self.plan_from_phrase(p, existing),
            Err(e) => Err(e),
        }
    }

    /// The text of the phrase that `seed_phrase` gave.
    fn phrase_text(&self) -> (r: Result<String, Error>)
        ensures
            !self.is_random() ==> match r {
                Ok(p) => self.phrase_spec() == Ok::<Seq<char>, Error>(p@),
                Err(e) => self.phrase_spec() == Err::<Seq<char>, Error>(e),
            },
            self.is_random() ==> r is Ok,
            r matches Ok(p) ==> is_phrase(p@) && private_of_strkey(p@) is None,
    {
        match self.seed_phrase() {
            Ok(Secret::SeedPhrase { seed_phrase }) => Ok(seed_phrase),
            Ok(_) => Err(Error::InvalidSeed),
            Err(e) => Err(e),
        }
    }

    /// The secret that the request gives from a phrase.
    fn secret_from(&self, phrase: &String) -> (r: Result<Secret, Error>)
        requires
            is_phrase(phrase@),
            private_of_strkey(phrase@) is None,
        ensures
            view_result(r) == self.secret_from_phrase(phrase@),
            r is Ok <==> self.secret_ok(),
            r matches Err(e) ==> e == self.step_error(),
            r matches Ok(s) ==> parse_view(s@.text()) == Some(s@) && self.made_from(phrase@, s@),
    {
        if self.as_secret {
            let index: usize = match self.hd_path {
                Some(i) => i,
                None => 0,
            };
            match keys_at(phrase, index) {
                Ok(k) => {
                    let text = encode_private_key(&k.0);
                    Ok(Secret::SecretKey { secret_key: text })
                },
                Err(e) => Err(e),
            }
        } else if self.keychain {
            let entry = keychain_entry_name(self.name.as_str());
            match Secret::parse(entry.as_str()) {
                Ok(Secret::Keychain { entry_name }) => Ok(Secret::Keychain { entry_name }),
                _ => Err(Error::InvalidSecretFormat),
            }
        } else {
            Ok(Secret::SeedPhrase { seed_phrase: phrase.clone() })
        }
    }

    /// The secret to store under the identity's name: a private key taken
    /// from the phrase at the HD index, a reference to the keychain entry of
    /// the name, or the seed phrase itself.
    pub fn secret(&self) -> (r: Result<Secret, Error>)
        ensures
            self.default_seed && self.seed is Some ==> r matches Err(Error::ConflictingSeedOptions),
            r is Ok <==> self.phrase_ok() && self.secret_ok(),
            r matches Err(e) ==> e == self.error_spec(),
            r matches Ok(s) ==> parse_view(s@.text()) == Some(s@),
            !self.is_random() ==> view_result(r) == self.secret_spec(),
            !self.is_random() ==> (r matches Ok(s) ==> self.made_from(self.phrase_spec()->Ok_0, s@)),
            self.is_random() ==> (r matches Ok(s) ==> exists|p: Seq<char>| #[trigger] self.made_from(p, s@)),
    {
        let phrase = match self.phrase_text() {
            Ok(p) => p,
            Err(e) => return Err(e),
        };
        let r = self.secret_from(&phrase);
        assert(r matches Ok(s) ==> self.made_from(phrase@, s@));
        r
    }

    /// Everything that generation does, given the public key of the
    /// keychain entry of the name if one exists already. An existing entry
    /// is never overwritten.
    pub fn plan(&self, existing_key: Option<String>) -> (r: Result<Plan, Error>)
        ensures
            self.default_seed && self.seed is Some ==> r matches Err(Error::ConflictingSeedOptions),
            r is Ok <==> self.phrase_ok() && self.plan_ok(),
            r matches Err(e) ==> e == self.error_spec(),
            r matches Ok(pl) ==> parse_view(pl.secret@.text()) == Some(pl.secret@),
            r matches Ok(pl) ==> self.fund_matches_secret(pl@),
            !self.is_random() ==> plan_result(r) == self.plan_spec(opt_view(existing_key)),
            !self.is_random() ==> (r matches Ok(pl) ==> self.made_from(self.phrase_spec()->Ok_0, pl.secret@)),
            self.is_random() ==> (r matches Ok(pl) ==> exists|p: Seq<char>| #[trigger] self.plan_made_from(p, opt_view(existing_key), pl@)),
    {
        let phrase = match self.phrase_text() {
            Ok(p) => p,
            Err(e) => return Err(e),
        };
        let r = self.plan_from(&phrase, &existing_key);
        assert(r matches Ok(pl) ==> self.plan_made_from(phrase@, opt_view(existing_key), pl@));
        r
    }

    /// The plan that the request gives from a phrase.
    fn plan_from(&self, phrase: &String, existing_key: &Option<String>) -> (r: Result<Plan, Error>)
        requires
            is_phrase(phrase@),
            private_of_strkey(phrase@) is None,
        ensures
            plan_result(r) == self.plan_from_phrase(phrase@, opt_view(*existing_key)),
            r is Ok <==> self.plan_ok(),
            r matches Err(e) ==> e == self.step_error(),
            r matches Ok(pl) ==> parse_view(pl.secret@.text()) == Some(pl.secret@),
            r matches Ok(pl) ==> self.plan_made_from(phrase@, opt_view(*existing_key), pl@),
            r matches Ok(pl) ==> self.fund_matches_secret(pl@),
    {
        let secret = match self.secret_from(&phrase) {
            Ok(s) => s,
            Err(e) => return Err(e),
        };
        let keychain = match &secret {
            Secret::Keychain { entry_name } => match existing_key {
                Some(k) => Some(KeychainStep::KeepExisting { entry_name: entry_name.clone(), public_key: k.clone() }),
                None => match keys_at(phrase, 0) {
                    Ok(k) => {
                        let mut bytes = k.0.clone();
                        let mut rest = k.1.clone();
                        bytes.append(&mut rest);
                        Some(KeychainStep::Store { entry_name: entry_name.clone(), key_pair: bytes })
                    },
                    Err(e) => return Err(e),
                },
            },
            _ => None,
        };
        let fund_address = if self.no_fund {
            None
        } else {
            match &secret {
                Secret::Keychain { .. } => match existing_key {
                    Some(k) => Some(k.clone()),
                    None => match keys_at(phrase, 0) {
                        Ok(k) => Some(encode_public_key(&k.1)),
                        Err(e) => return Err(e),
                    },
                },
                _ => {
                    let index: usize = match self.hd_path {
                        Some(i) => i,
                        None => 0,
                    };
                    match keys_at(phrase, index) {
                        Ok(k) => Some(encode_public_key(&k.1)),
                        Err(e) => return Err(e),
                    }
                },
            }
        };
        Ok(Plan { secret, keychain, fund_address, warn_funding_default: !self.fund })
    }
}

impl Plan {
    /// The result of the whole generation once the identity is stored: a
    /// failed funding is only reported, never an error of the generation.
    pub fn outcome(&self, _funded: &Option<Result<(), String>>) -> (r: Result<(), Error>)
        ensures
            r is Ok,
    {
        Ok(())
    }
}

/// The text of the warning that a failed funding leaves, if it failed.
pub fn funding_warning(funded: &Option<Result<(), String>>) -> (w: Option<String>)
    ensures
        match funded {
            Some(Err(e)) => w matches Some(m) && m@ == "fund_address failed: "@ + e@,
            _ => w is None,
        },
{
    match funded {
        Some(Err(e)) => {
            let mut m = String::from_str("fund_address failed: ");
            m.append(e.as_str());
            Some(m)
        },
        _ => None,
    }
}

/// Generation from a seed text, or from the test seed, is deterministic: two
/// requests with the same seed options give the same phrase, and so the same
/// key pair at every HD index.
pub proof fn lemma_seeded_generation_deterministic(a: Cmd, b: Cmd, index: nat)
    requires
        !a.is_random(),
        a.default_seed == b.default_seed,
        a.seed == b.seed,
    ensures
        !b.is_random(),
        a.phrase_spec() == b.phrase_spec(),
        a.phrase_spec() is Ok ==> keys_spec(a.phrase_spec()->Ok_0, index) == keys_spec(
            b.phrase_spec()->Ok_0,
            index,
        ),
{
}

/// Funding is not needed for success: whether funding was asked for changes
/// neither whether generation succeeds nor the secret it stores.
pub proof fn lemma_funding_not_required(
    a: Cmd,
    b: Cmd,
    phrase: Seq<char>,
    existing: Option<Seq<char>>,
)
    requires
        a.name == b.name,
        a.no_fund == b.no_fund,
        a.seed == b.seed,
        a.as_secret == b.as_secret,
        a.keychain == b.keychain,
        a.hd_path == b.hd_path,
        a.default_seed == b.default_seed,
    ensures
        a.plan_from_phrase(phrase, existing) is Ok <==> b.plan_from_phrase(phrase, existing) is Ok,
        a.plan_from_phrase(phrase, existing) is Ok ==> a.plan_from_phrase(phrase, existing)->Ok_0.secret
            == b.plan_from_phrase(phrase, existing)->Ok_0.secret,
{
}

/// A keychain entry that exists already is never overwritten: generation
/// keeps it and reports its public key, also as the address to fund.
pub proof fn lemma_keychain_entry_kept(c: Cmd, phrase: Seq<char>, key: Seq<char>)
    requires
        c.keychain,
        !c.as_secret,
    ensures
        c.plan_from_phrase(phrase, Some(key)) matches Ok(pl) ==> {
            &&& pl.keychain == Some(
                KeychainView::KeepExisting(keychain_entry_of(c.name@), key),
            )
            &&& !c.no_fund ==> pl.fund_address == Some(key)
        },
{
}

/// The public key, in strkey form, of a secret: for a seed phrase the key at
/// the HD index (0 when none is given); for a private key the key itself,
/// with the HD index ignored; for a keychain reference the key that the
/// keychain entry holds.
pub open spec fn public_key_spec(
    s: SecretView,
    hd_path: Option<usize>,
    keychain_key: Option<Seq<char>>,
) -> Result<Seq<char>, Error> {
    match s {
        SecretView::SeedPhrase(p) => match keys_spec(
            p,
            match hd_path {
                Some(i) => i as nat,
                None => 0,
            },
        ) {
            Ok(k) => Ok(public_strkey(k.1)),
            Err(e) => Err(e),
        },
        SecretView::SecretKey(t) => match private_of_strkey(t) {
            Some(k) => Ok(public_strkey(public_of_private(k))),
            None => Err(Error::DerivationFailed),
        },
        SecretView::Keychain(_) => match keychain_key {
            Some(k) => Ok(k),
            None => Err(Error::EntryNotFound),
        },
    }
}

impl Secret {
    /// The public key of the secret, in strkey form; `keychain_key` is what
    /// the keychain entry of a keychain reference holds, if it exists.
    pub fn public_key(&self, hd_path: Option<usize>, keychain_key: Option<String>) -> (r: Result<
        String,
        Error,
    >)
        ensures
            match r {
                Ok(k) => public_key_spec(self@, hd_path, opt_view(keychain_key)) == Ok::<
                    Seq<char>,
                    Error,
                >(k@),
                Err(e) => public_key_spec(self@, hd_path, opt_view(keychain_key)) == Err::<
                    Seq<char>,
                    Error,
                >(e),
            },
    {
        match self {
            Secret::SeedPhrase { seed_phrase } => {
                let index: usize = match hd_path {
                    Some(i) => i,
                    None => 0,
                };
                match keys_at(seed_phrase, index) {
                    Ok(k) => Ok(encode_public_key(&k.1)),
                    Err(e) => Err(e),
                }
            },
            Secret::SecretKey { secret_key } => match decode_private_key(secret_key.as_str()) {
                Some(k) => {
                    let public = public_from_private(&k);
                    Ok(encode_public_key(&public))
                },
                None => Err(Error::DerivationFailed),
            },
            Secret::Keychain { .. } => match keychain_key {
                Some(k) => Ok(k),
                None => Err(Error::EntryNotFound),
            },
        }
    }
}

/// The public key, in strkey form, of key pair bytes as the keychain holds
/// them (the 32 bytes of the private key, then the 32 of the public key).
pub fn public_key_of_key_pair(bytes: &Vec<u8>) -> (r: Option<String>)
    ensures
        r is Some <==> bytes@.len() == 64,
        r matches Some(k) ==> k@ == public_strkey(bytes@.subrange(32, 64)),
{
    if bytes.len() != 64 {
        return None;
    }
    let mut public: Vec<u8> = Vec::new();
    let mut i: usize = 32;
    while i < 64
        invariant
            32 <= i <= 64,
            bytes@.len() == 64,
            public@ == bytes@.subrange(32, i as int),
        decreases 64 - i,
    {
        public.push(bytes[i]);
        i = i + 1;
    }
    Some(encode_public_key(&public))
}

/// The view of an optional text.
pub open spec fn opt_view(s: Option<String>) -> Option<Seq<char>> {
    match s {
        Some(t) => Some(t@),
        None => None,
    }
}

/// The key pair at an HD index below [`HD_INDEX_LIMIT`].
fn keys_at(phrase: &String, index: usize) -> (r: Result<(Vec<u8>, Vec<u8>), Error>)
    ensures
        is_phrase(phrase@) && index < HD_INDEX_LIMIT ==> r is Ok,
        match r {
            Ok(k) => keys_spec(phrase@, index as nat) == Ok::<(Seq<u8>, Seq<u8>), Error>((k.0@, k.1@))
                && k.0@.len() == 32 && k.1@.len() == 32 && k.1@ == public_of_private(k.0@),
            Err(e) => keys_spec(phrase@, index as nat) == Err::<(Seq<u8>, Seq<u8>), Error>(e),
        },
{
    if index >= HD_INDEX_LIMIT {
        return Err(Error::UnsupportedPath);
    }
    match derive_hd_keys(phrase.as_str(), index) {
        Some(k) => Ok(k),
        None => Err(Error::DerivationFailed),
    }
}

} // verus!
