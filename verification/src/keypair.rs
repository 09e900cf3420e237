//! Gateway keypairs.
use vstd::prelude::*;
use helium_crypto::{Sign, Verify};
use crate::text::{copy_text, text_view};

verus! {

/// The error type of `helium_crypto`, as its functions return it.
#[verifier::external_type_specification]
#[verifier::external_body]
pub struct ExCryptoError(helium_crypto::Error);

/// The keypair that `helium_crypto::Keypair::generate_from_entropy` makes of a key tag and
/// entropy, in binary form. `None` if it makes none.
pub uninterp spec fn key_of_entropy(tag: u8, entropy: Seq<u8>) -> Option<Seq<u8>>;

/// Whether `helium_crypto::Keypair::try_from` reads a keypair from a byte string.
pub uninterp spec fn reads_as_key(key: Seq<u8>) -> bool;

/// The public key, in binary form, of a keypair in binary form: what
/// `helium_crypto::PublicKey::to_vec` gives.
pub uninterp spec fn public_key_of(key: Seq<u8>) -> Seq<u8>;

/// What the `Display` of the `helium_crypto::PublicKey` of a keypair in binary form writes.
pub uninterp spec fn address_of(key: Seq<u8>) -> Seq<char>;

/// Whether `helium_crypto::Verify::verify`, on the public key of a keypair in binary form, accepts
/// a signature of a message.
pub uninterp spec fn signature_accepted(
    key: Seq<u8>,
    message: Seq<u8>,
    signature: Seq<u8>,
) -> bool;

/// The key tag of new keys: main network, Ed25519.
pub const NEW_KEY_TAG: u8 = 0x01;

/// No signature is longer: an Ed25519 signature has 64 bytes, a DER-encoded ECDSA signature over a
/// curve of 256 bits at most 72.
pub const MAX_SIGNATURE_LEN: usize = 72;

/// Whether a secret has a byte other than zero.
pub open spec fn has_nonzero(secret: Seq<u8>) -> bool {
    exists|i: int| 0 <= i < secret.len() && secret[i] != 0
}

/// Whether a keypair in binary form says that it is one over the curve P-256.
pub open spec fn is_compact_kind(key: Seq<u8>) -> bool {
    key.len() > 0 && key[0] % 16 == 0
}

/// The secret of a P-256 keypair in binary form: up to 32 bytes behind the tag.
pub open spec fn compact_secret(key: Seq<u8>) -> Seq<u8> {
    key.subrange(1, if key.len() < 33 { key.len() as int } else { 33 })
}

/// Whether a byte string is the binary form of a keypair.
pub open spec fn is_key(key: Seq<u8>) -> bool {
    key.len() > 0 && reads_as_key(key)
}

/// Whether the public key of a keypair can be written. That of a P-256 keypair can be written only
/// if it is compact, which is when its secret makes a keypair as entropy does.
pub open spec fn is_writable(key: Seq<u8>) -> bool {
    is_compact_kind(key) ==> {
        &&& has_nonzero(compact_secret(key))
        &&& key_of_entropy(key[0], compact_secret(key)) is Some
    }
}

/// Whether the public key of a keypair in binary form is sure to belong to its secret. That of an
/// ECDSA keypair is always worked out from the secret. An Ed25519 keypair holds both, in 65 bytes
/// together with the tag: they belong together if the secret as entropy makes these bytes. Bytes
/// behind them do not count.
pub open spec fn is_paired(key: Seq<u8>) -> bool {
    key[0] % 16 == 1 ==> {
        &&& key.len() >= 65
        &&& has_nonzero(key.subrange(1, 33))
        &&& key_of_entropy(key[0], key.subrange(1, 33)) == Some(key.take(65))
    }
}

/// Calls `helium_crypto::Keypair::generate_from_entropy` and hands back the keypair in binary
/// form, as `key_of_entropy` names it. Such a keypair can be read back and its public key be
/// written. An Ed25519 keypair is made of exactly 32 bytes; its binary form is the tag, the
/// entropy and 32 bytes of public key. All-zero entropy would panic there.
#[verifier::external_body]
fn key_from_entropy(tag: u8, entropy: &[u8]) -> (result: Result<Vec<u8>, helium_crypto::Error>)
    requires
        has_nonzero(entropy@),
    ensures
        result is Ok <==> key_of_entropy(tag, entropy@) is Some,
        tag == NEW_KEY_TAG ==> (result is Ok <==> entropy@.len() == 32),
        result matches Ok(key) ==> {
            &&& key_of_entropy(tag, entropy@) == Some(key@)
            &&& is_key(key@)
            &&& is_writable(key@)
            &&& tag % 16 == 1 ==> {
                &&& key@.len() == 65
                &&& key@[0] == tag
                &&& key@.subrange(1, 33) == entropy@
            }
        },
{
    let key_tag = helium_crypto::KeyTag::try_from(tag)?;
    Ok(helium_crypto::Keypair::generate_from_entropy(key_tag, entropy)?.to_vec())
}

/// Calls `helium_crypto::Keypair::try_from`, as `reads_as_key` names whether it succeeds. It
/// panics where there is no first byte.
#[verifier::external_body]
fn key_read(key: &[u8]) -> (result: Result<(), helium_crypto::Error>)
    requires
        key@.len() > 0,
    ensures
        result is Ok <==> reads_as_key(key@),
{
    helium_crypto::Keypair::try_from(key)?;
    Ok(())
}

/// Calls `helium_crypto::PublicKey::to_vec` on the public key of a keypair, as `public_key_of`
/// names it. It fails exactly where there is no keypair, and would panic on a P-256 key that is
/// not compact.
#[verifier::external_body]
fn key_public_key(key: &[u8]) -> (result: Result<Vec<u8>, helium_crypto::Error>)
    requires
        key@.len() > 0,
        is_writable(key@),
    ensures
        result is Ok <==> reads_as_key(key@),
        result matches Ok(public_key) ==> public_key@ == public_key_of(key@),
{
    Ok(helium_crypto::Keypair::try_from(key)?.public_key().to_vec())
}

/// Calls the `Display` of the public key of a keypair, as `address_of` names it. It fails exactly
/// where there is no keypair, and would panic on a P-256 key that is not compact.
#[verifier::external_body]
fn key_address(key: &[u8]) -> (result: Result<String, helium_crypto::Error>)
    requires
        key@.len() > 0,
        is_writable(key@),
    ensures
        result is Ok <==> reads_as_key(key@),
        result matches Ok(address) ==> address@ == address_of(key@),
{
    Ok(helium_crypto::Keypair::try_from(key)?.public_key().to_string())
}

/// Calls `helium_crypto::Sign::sign`. A keypair signs every message, and its public key accepts
/// the signature where the two are sure to belong together. Which of the accepted signatures comes
/// out is left unsaid: Ed25519 signatures are made with random noise. Left unsaid, too, is whether
/// the signature is accepted of an Ed25519 keypair whose public half does not come from its secret
/// half, since it is read without a check of that, and of one with an all-zero secret.
#[verifier::external_body]
fn key_sign(key: &[u8], message: &[u8]) -> (result: Result<Vec<u8>, helium_crypto::Error>)
    requires
        key@.len() > 0,
    ensures
        result is Ok <==> reads_as_key(key@),
        result matches Ok(signature) ==> {
            &&& signature@.len() <= MAX_SIGNATURE_LEN
            &&& is_paired(key@) ==> signature_accepted(key@, message@, signature@)
        },
{
    helium_crypto::Keypair::try_from(key)?.sign(message)
}

/// Calls `helium_crypto::Verify::verify` on the public key of a keypair; `true` stands for its
/// `Ok`, as `signature_accepted` names it.
#[verifier::external_body]
fn key_verify(key: &[u8], message: &[u8], signature: &[u8]) -> (result: Result<
    bool,
    helium_crypto::Error,
>)
    requires
        key@.len() > 0,
    ensures
        result is Ok <==> reads_as_key(key@),
        result matches Ok(accepted) ==> accepted == signature_accepted(
            key@,
            message@,
            signature@,
        ),
{
    let keypair = helium_crypto::Keypair::try_from(key)?;
    Ok(keypair.public_key().verify(message, signature).is_ok())
}

/// Writes an error of `helium_crypto` with its `Display`. Nothing is claimed of the text.
#[verifier::external_body]
fn crypto_error_text(error: &helium_crypto::Error) -> (text: String) {
    error.to_string()
}

/// Why there is no keypair, or why signing failed.
#[derive(Debug)]
pub struct KeypairError {
    pub text: String,
}

/// Tells whether a secret has a byte other than zero.
fn any_nonzero(secret: &[u8]) -> (found: bool)
    ensures
        found == has_nonzero(secret@),
{
    let mut i: usize = 0;
    while i < secret.len()
        invariant
            i <= secret@.len(),
            forall|j: int| 0 <= j < i ==> secret@[j] == 0,
        decreases secret@.len() - i,
    {
        if secret[i] != 0 {
            assert(has_nonzero(secret@));
            return true;
        }
        i += 1;
    }
    false
}

/// Tells whether the public key of a keypair can be written.
fn check_writable(key: &[u8]) -> (writable: bool)
    ensures
        writable == is_writable(key@),
{
    if key.len() > 0 && key[0] % 16 == 0 {
        let end: usize = if key.len() < 33 { key.len() } else { 33 };
        let secret = vstd::slice::slice_subrange(key, 1, end);
        assert(secret@ == compact_secret(key@));
        any_nonzero(secret) && key_from_entropy(key[0], secret).is_ok()
    } else {
        true
    }
}

/// The keypair of a gateway: its binary form, with the public key and the address that belong to
/// it, if they can be written.
pub struct GatewayKeypair {
    key: Vec<u8>,
    public_key: Option<Vec<u8>>,
    address: Option<String>,
}

/// What a keypair holds.
#[verifier::ext_equal]
pub struct KeypairView {
    pub key: Seq<u8>,
    /// The public key in binary form, if it can be written.
    pub public_key: Option<Seq<u8>>,
    /// The public key as text, if it can be written.
    pub address: Option<Seq<char>>,
}

impl KeypairView {
    /// The keypair with this binary form.
    pub open spec fn of_key(key: Seq<u8>) -> KeypairView {
        KeypairView {
            key,
            public_key: if is_writable(key) {
                Some(public_key_of(key))
            } else {
                None
            },
            address: if is_writable(key) {
                Some(address_of(key))
            } else {
                None
            },
        }
    }

    /// There is a keypair, and the public key and the address are its own.
    pub open spec fn consistent(self) -> bool {
        is_key(self.key) && self == KeypairView::of_key(self.key)
    }

    /// Whether the public key can be shown, in both forms.
    pub open spec fn is_shown(self) -> bool {
        self.public_key is Some && self.address is Some
    }
}

/// The bytes of an optional byte string.
pub open spec fn bytes_view(bytes: Option<Vec<u8>>) -> Option<Seq<u8>> {
    match bytes {
        Some(b) => Some(b@),
        None => None,
    }
}

/// Copies an optional byte string.
fn copy_bytes(bytes: &Option<Vec<u8>>) -> (copy: Option<Vec<u8>>)
    ensures
        bytes_view(copy) == bytes_view(*bytes),
{
    match bytes {
        Some(b) => {
            let copy = b.clone();
            assert(copy@ =~= b@);
            Some(copy)
        },
        None => None,
    }
}

impl View for GatewayKeypair {
    type V = KeypairView;

    closed spec fn view(&self) -> KeypairView {
        KeypairView {
            key: self.key@,
            public_key: bytes_view(self.public_key),
            address: text_view(self.address),
        }
    }
}

impl GatewayKeypair {
    #[verifier::type_invariant]
    spec fn well_formed(self) -> bool {
        self@.consistent()
    }

    /// Reads a keypair from its binary form.
    pub fn from_bytes(key: Vec<u8>) -> (result: Result<GatewayKeypair, KeypairError>)
        ensures
            result is Ok <==> is_key(key@),
            result matches Ok(keypair) ==> {
                &&& keypair@ == KeypairView::of_key(key@)
                &&& keypair@.consistent()
            },
    {
        if key.len() == 0 {
            return Err(KeypairError { text: "key is empty".to_owned() });
        }
        match key_read(key.as_slice()) {
            Ok(_) => {},
            Err(error) => {
                return Err(KeypairError { text: crypto_error_text(&error) });
            },
        }
        if !check_writable(key.as_slice()) {
            return Ok(GatewayKeypair { key, public_key: None, address: None });
        }
        match (key_public_key(key.as_slice()), key_address(key.as_slice())) {
            (Ok(public_key), Ok(address)) => Ok(
                GatewayKeypair { key, public_key: Some(public_key), address: Some(address) },
            ),
            (Err(error), _) => Err(KeypairError { text: crypto_error_text(&error) }),
            (_, Err(error)) => Err(KeypairError { text: crypto_error_text(&error) }),
        }
    }

    /// Makes a new Ed25519 keypair of entropy: 32 bytes from a secure source.
    pub fn generate(entropy: &[u8]) -> (result: Result<GatewayKeypair, KeypairError>)
        ensures
            result is Ok <==> entropy@.len() == 32 && has_nonzero(entropy@),
            result matches Ok(keypair) ==> {
                &&& key_of_entropy(NEW_KEY_TAG, entropy@) == Some(keypair@.key)
                &&& keypair@.key.len() == 65
                &&& keypair@.key[0] == 0x01
                &&& keypair@.key.subrange(1, 33) == entropy@
                &&& keypair@ == KeypairView::of_key(keypair@.key)
                &&& keypair@.consistent()
                &&& keypair@.is_shown()
                &&& is_paired(keypair@.key)
            },
    {
        if !any_nonzero(entropy) {
            return Err(KeypairError { text: "entropy is all zeros".to_owned() });
        }
        match key_from_entropy(NEW_KEY_TAG, entropy) {
            Ok(key) => {
                assert(key@.take(65) =~= key@);
                GatewayKeypair::from_bytes(key)
            },
            Err(error) => Err(KeypairError { text: crypto_error_text(&error) }),
        }
    }

    /// The keypair in binary form.
    pub fn to_vec(&self) -> (key: Vec<u8>)
        ensures
            key@ == self@.key,
            self@.consistent(),
    {
        proof {
            use_type_invariant(self);
        }
        let key = self.key.clone();
        assert(key@ =~= self.key@);
        key
    }

    /// The public key in binary form, if it can be written.
    pub fn public_key(&self) -> (public_key: Option<Vec<u8>>)
        ensures
            bytes_view(public_key) == self@.public_key,
            self@.consistent(),
    {
        proof {
            use_type_invariant(self);
        }
        copy_bytes(&self.public_key)
    }

    /// The public key as text, if it can be written.
    pub fn address(&self) -> (address: Option<String>)
        ensures
            text_view(address) == self@.address,
            self@.consistent(),
    {
        proof {
            use_type_invariant(self);
        }
        copy_text(&self.address)
    }

    /// Tells whether the public key can be shown.
    pub fn is_shown(&self) -> (shown: bool)
        ensures
            shown == self@.is_shown(),
    {
        self.public_key.is_some() && self.address.is_some()
    }

    /// Signs a message.
    pub fn sign(&self, message: &[u8]) -> (result: Result<Vec<u8>, KeypairError>)
        ensures
            result is Ok,
            result->Ok_0@.len() <= MAX_SIGNATURE_LEN,
            is_paired(self@.key) ==> signature_accepted(
                self@.key,
                message@,
                result->Ok_0@,
            ),
    {
        proof {
            use_type_invariant(self);
        }
        match key_sign(self.key.as_slice(), message) {
            Ok(signature) => Ok(signature),
            Err(error) => Err(KeypairError { text: crypto_error_text(&error) }),
        }
    }

    /// Tells whether the public key accepts a signature of a message.
    pub fn verify(&self, message: &[u8], signature: &[u8]) -> (accepted: bool)
        ensures
            accepted == signature_accepted(self@.key, message@, signature@),
    {
        proof {
            use_type_invariant(self);
        }
        match key_verify(self.key.as_slice(), message, signature) {
            Ok(accepted) => accepted,
            Err(_) => false,
        }
    }
}

impl Clone for GatewayKeypair {
    fn clone(&self) -> (copy: Self)
        ensures
            copy@ == self@,
    {
        proof {
            use_type_invariant(self);
        }
        let key = self.key.clone();
        assert(key@ =~= self.key@);
        GatewayKeypair {
            key,
            public_key: copy_bytes(&self.public_key),
            address: copy_text(&self.address),
        }
    }
}

/// A keypair that was saved in binary form reads back as the same keypair.
pub proof fn law_saved_keypair_reads_back(keypair: KeypairView)
    requires
        keypair.consistent(),
    ensures
        is_key(keypair.key),
        KeypairView::of_key(keypair.key) == keypair,
{
}

/// The public key of every keypair but one over P-256 can be shown.
pub proof fn law_only_compact_keypairs_may_be_unshown(keypair: KeypairView)
    requires
        keypair.consistent(),
        keypair.key[0] % 16 != 0,
    ensures
        keypair.is_shown(),
{
}

/// A keypair is read from every byte string, but the empty one, that reads as one. It keeps these
/// bytes, and its public key and address are those that belong to them, both or neither.
pub proof fn law_keypair_is_what_its_bytes_read_as(key: Seq<u8>)
    ensures
        is_key(key) <==> key.len() > 0 && reads_as_key(key),
        KeypairView::of_key(key).key == key,
        KeypairView::of_key(key).public_key is Some <==> is_writable(key),
        KeypairView::of_key(key).address is Some <==> is_writable(key),
        KeypairView::of_key(key).public_key matches Some(public_key) ==> public_key
            == public_key_of(key),
        KeypairView::of_key(key).address matches Some(address) ==> address == address_of(key),
        is_key(key) ==> KeypairView::of_key(key).consistent(),
        KeypairView::of_key(key).is_shown() <==> is_writable(key),
{
}

/// The public key of every keypair can be written but that of a P-256 keypair whose secret makes no
/// keypair as entropy. The secret is what follows the first byte, up to 32 bytes.
pub proof fn law_what_public_keys_can_be_written(key: Seq<u8>)
    requires
        key.len() > 0,
    ensures
        key[0] % 16 != 0 ==> is_writable(key),
        key[0] % 16 == 0 && key.len() >= 33 ==> (is_writable(key) <==> (exists|i: int|
            1 <= i < 33 && #[trigger] key[i] != 0) && key_of_entropy(
            key[0],
            key.subrange(1, 33),
        ) is Some),
        key[0] % 16 == 0 && key.len() < 33 ==> (is_writable(key) <==> (exists|i: int|
            1 <= i < key.len() && #[trigger] key[i] != 0) && key_of_entropy(
            key[0],
            key.skip(1),
        ) is Some),
{
    let end = if key.len() < 33 {
        key.len() as int
    } else {
        33
    };
    let secret = compact_secret(key);
    assert(secret =~= key.subrange(1, end));
    assert(key.len() < 33 ==> key.subrange(1, end) =~= key.skip(1));
    assert(has_nonzero(secret) <==> exists|i: int| 1 <= i < end && #[trigger] key[i] != 0) by {
        if has_nonzero(secret) {
            let i = choose|i: int| 0 <= i < secret.len() && secret[i] != 0;
            assert(key[i + 1] != 0);
        }
        if exists|i: int| 1 <= i < end && #[trigger] key[i] != 0 {
            let i = choose|i: int| 1 <= i < end && #[trigger] key[i] != 0;
            assert(secret[i - 1] != 0);
        }
    }
}

/// The public key of every keypair that is not Ed25519 is sure to belong to its secret. That of an
/// Ed25519 keypair is if the 65 bytes of the keypair are what its secret makes as entropy.
pub proof fn law_what_public_keys_belong_to_their_secrets(key: Seq<u8>)
    ensures
        key[0] % 16 != 1 ==> is_paired(key),
        key[0] % 16 == 1 && key.len() >= 65 && (exists|i: int| 1 <= i < 33 && #[trigger] key[i] != 0)
            && key_of_entropy(key[0], key.subrange(1, 33)) == Some(key.take(65)) ==> is_paired(key),
{
    if key.len() >= 65 && (exists|i: int| 1 <= i < 33 && #[trigger] key[i] != 0) {
        let i = choose|i: int| 1 <= i < 33 && #[trigger] key[i] != 0;
        assert(key.subrange(1, 33)[i - 1] != 0);
    }
}

/// A secret has a byte other than zero unless all its bytes are zero.
pub proof fn law_secrets_are_zero_or_not(secret: Seq<u8>)
    ensures
        has_nonzero(secret) <==> !(forall|i: int| 0 <= i < secret.len() ==> #[trigger] secret[i] == 0),
{
}

/// What is said of an optional byte string is said of its bytes.
pub proof fn law_optional_bytes_are_their_bytes(bytes: Vec<u8>)
    ensures
        bytes_view(Some(bytes)) == Some(bytes@),
        bytes_view(None) is None,
{
}

} // verus!
