use vstd::prelude::*;
use vstd::string::StrSliceExecFns;
use crate::keys::{
    decode_private_key, is_phrase, parses_as_phrase, private_of_strkey,
};

verus! {

/// How a secret is held: an inline seed phrase, an inline private key in
/// strkey form, or a reference to an entry of the platform keychain.
#[derive(Debug, Clone, PartialEq, Eq)]
pub enum Secret {
    SecretKey { secret_key: String },
    SeedPhrase { seed_phrase: String },
    Keychain { entry_name: String },
}

/// The mathematical value of a [`Secret`]: its variant and its text.
pub ghost enum SecretView {
    SecretKey(Seq<char>),
    SeedPhrase(Seq<char>),
    Keychain(Seq<char>),
}

/// Errors of reading a secret from its text.
#[derive(Debug, Clone, PartialEq, Eq)]
pub enum SecretError {
    /// The text is neither a private key, a seed phrase nor a keychain
    /// reference.
    InvalidSecretFormat,
}

/// The text that every keychain reference starts with: the `keychain:`
/// prefix followed by the service namespace and a dash.
pub open spec fn keychain_namespace() -> Seq<char> {
    "keychain:org.stellar.cli-"@
}

/// A keychain reference: the namespace followed by a non-empty entry suffix.
pub open spec fn is_keychain_entry(t: Seq<char>) -> bool {
    &&& t.len() > keychain_namespace().len()
    &&& t.subrange(0, keychain_namespace().len() as int) == keychain_namespace()
}

/// The keychain reference for an identity name.
pub open spec fn keychain_entry_of(name: Seq<char>) -> Seq<char> {
    keychain_namespace() + name
}

/// What a text reads as: a private key first, then a seed phrase, then a
/// keychain reference.
pub open spec fn parse_view(t: Seq<char>) -> Option<SecretView> {
    if private_of_strkey(t) is Some {
        Some(SecretView::SecretKey(t))
    } else if is_phrase(t) {
        Some(SecretView::SeedPhrase(t))
    } else if is_keychain_entry(t) {
        Some(SecretView::Keychain(t))
    } else {
        None
    }
}

impl SecretView {
    /// The canonical text of a secret.
    pub open spec fn text(self) -> Seq<char> {
        match self {
            SecretView::SecretKey(k) => k,
            SecretView::SeedPhrase(p) => p,
            SecretView::Keychain(e) => e,
        }
    }

    /// A valid secret: its text is well formed for its variant and reads as
    /// no variant that is tried before it.
    pub open spec fn valid(self) -> bool {
        match self {
            SecretView::SecretKey(k) => private_of_strkey(k) is Some,
            SecretView::SeedPhrase(p) => private_of_strkey(p) is None && is_phrase(p),
            SecretView::Keychain(e) => {
                &&& private_of_strkey(e) is None
                &&& !is_phrase(e)
                &&& is_keychain_entry(e)
            },
        }
    }
}

impl View for Secret {
    type V = SecretView;

    open spec fn view(&self) -> SecretView {
        match self {
            Secret::SecretKey { secret_key } => SecretView::SecretKey(secret_key@),
            Secret::SeedPhrase { seed_phrase } => SecretView::SeedPhrase(seed_phrase@),
            Secret::Keychain { entry_name } => SecretView::Keychain(entry_name@),
        }
    }
}

/// Whether `t` starts with `prefix` and has more characters after it.
fn has_proper_prefix(t: &str, prefix: &str) -> (r: bool)
    ensures
        r == (t@.len() > prefix@.len() && t@.subrange(0, prefix@.len() as int) == prefix@),
{
    let n = prefix.unicode_len();
    let m = t.unicode_len();
    if m <= n {
        return false;
    }
    let mut i: usize = 0;
    while i < n
        invariant
            n == prefix@.len(),
            m == t@.len(),
            n < m,
            i <= n,
            forall|j: int| 0 <= j < i ==> t@[j] == prefix@[j],
        decreases n - i,
    {
        if t.get_char(i) != prefix.get_char(i) {
            assert(t@.subrange(0, n as int)[i as int] != prefix@[i as int]);
            return false;
        }
        i = i + 1;
    }
    assert(t@.subrange(0, n as int) =~= prefix@);
    true
}

/// Whether the text is a keychain reference.
pub fn is_keychain_reference(t: &str) -> (r: bool)
    ensures
        r == is_keychain_entry(t@),
{
    has_proper_prefix(t, "keychain:org.stellar.cli-")
}

/// The keychain reference under which the identity `name` is stored.
pub fn keychain_entry_name(name: &str) -> (r: String)
    ensures
        r@ == keychain_entry_of(name@),
{
    let mut r = String::from_str("keychain:org.stellar.cli-");
    r.append(name);
    r
}

impl Secret {
    /// Reads a secret from its text. A private-key strkey is tried first,
    /// then a seed phrase, then a keychain reference.
    pub fn parse(text: &str) -> (r: Result<Secret, SecretError>)
        ensures
            match r {
                Ok(s) => parse_view(text@) == Some(s@),
                Err(e) => parse_view(text@) is None && e == SecretError::InvalidSecretFormat,
            },
    {
        if decode_private_key(text).is_some() {
            Ok(Secret::SecretKey { secret_key: String::from_str(text) })
        } else if parses_as_phrase(text) {
            Ok(Secret::SeedPhrase { seed_phrase: String::from_str(text) })
        } else if is_keychain_reference(text) {
            Ok(Secret::Keychain { entry_name: String::from_str(text) })
        } else {
            Err(SecretError::InvalidSecretFormat)
        }
    }

    /// The canonical text of the secret, as it is stored under an identity.
    pub fn format(&self) -> (r: String)
        ensures
            r@ == self@.text(),
    {
        match self {
            Secret::SecretKey { secret_key } => secret_key.clone(),
            Secret::SeedPhrase { seed_phrase } => seed_phrase.clone(),
            Secret::Keychain { entry_name } => entry_name.clone(),
        }
    }

    /// Whether the secret is held as a seed phrase.
    pub fn is_seed_phrase(&self) -> (r: bool)
        ensures
            r == (self@ is SeedPhrase),
    {
        matches!(self, Secret::SeedPhrase { .. })
    }

    /// Whether the secret is held as a private key.
    pub fn is_secret_key(&self) -> (r: bool)
        ensures
            r == (self@ is SecretKey),
    {
        matches!(self, Secret::SecretKey { .. })
    }

    /// Whether the secret refers to a keychain entry.
    pub fn is_keychain(&self) -> (r: bool)
        ensures
            r == (self@ is Keychain),
    {
        matches!(self, Secret::Keychain { .. })
    }
}

/// Reading the text of a valid secret gives the secret back.
pub proof fn lemma_parse_format(s: SecretView)
    requires
        s.valid(),
    ensures
        parse_view(s.text()) == Some(s),
{
}

/// What a text reads as is a valid secret whose text is that text.
pub proof fn lemma_format_parse(t: Seq<char>)
    requires
        parse_view(t) is Some,
    ensures
        parse_view(t)->Some_0.valid(),
        parse_view(t)->Some_0.text() == t,
{
}

} // verus!
