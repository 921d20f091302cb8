//! Snapshot encryption: AES-256-GCM under a key from the macOS Keychain, or the
//! data protection API of Windows.

use vstd::prelude::*;
use vstd::slice::*;
use vstd::string::*;

use crate::failure::{bytes_outcome, Failure};

verus! {

/// What an encrypted snapshot file starts with; a file without it is plain.
pub const MAGIC: &'static str = "DSENC1:";

/// The length of an AES-256 key.
pub const KEY_LEN: usize = 32;

/// The length of a nonce, which precedes what it was used for.
pub const NONCE_LEN: usize = 12;

/// By how much AES-GCM lengthens what it encrypts.
pub const TAG_LEN: usize = 16;

/// The longest text that AES-GCM encrypts.
pub const MAX_PLAIN_LEN: u64 = 0x10_0000_0000;

/// What the platform contributes to encrypting or decrypting one text.
#[derive(Debug)]
pub enum Vault {
    /// macOS: the key from the Keychain, or why there is none.
    Keychain(Result<[u8; 32], String>),
    /// Windows: what the data protection API made of the text.
    Dpapi(Result<Vec<u8>, String>),
    /// Elsewhere nothing.
    Unsupported,
}

/// What AES-256-GCM makes of a text under a key and a nonce.
pub uninterp spec fn aes_sealed(key: Seq<u8>, nonce: Seq<u8>, plain: Seq<u8>) -> Option<Seq<u8>>;

/// What AES-256-GCM reads out of an encrypted text under a key and a nonce.
pub uninterp spec fn aes_opened(key: Seq<u8>, nonce: Seq<u8>, sealed: Seq<u8>) -> Option<Seq<u8>>;

/// Optional bytes as a mathematical value.
pub open spec fn bytes_option(bytes: Option<Vec<u8>>) -> Option<Seq<u8>> {
    match bytes {
        Some(bytes) => Some(bytes@),
        None => None,
    }
}

/// `Aead::encrypt` of `aes_gcm::Aes256Gcm`, without associated data.
///
/// The bytes are only named ([`aes_sealed`]). Beside the name stands that texts
/// of up to [`MAX_PLAIN_LEN`] bytes, and no others, are encrypted, that the
/// result is longer by the tag, and that decrypting it under the same key and
/// nonce gives the text back.
#[verifier::external_body]
fn aes_seal(key: &[u8; 32], nonce: &[u8; 12], plain: &[u8]) -> (r: Option<Vec<u8>>)
    requires
        plain@.len() + TAG_LEN <= isize::MAX,
    ensures
        bytes_option(r) == aes_sealed(key@, nonce@, plain@),
        r is Some <==> plain@.len() <= MAX_PLAIN_LEN,
        r matches Some(sealed) ==> sealed@.len() == plain@.len() + TAG_LEN && aes_opened(
            key@,
            nonce@,
            sealed@,
        ) == Some(plain@),
{
    let key = aes_gcm::Key::<aes_gcm::Aes256Gcm>::from_slice(key);
    let cipher = <aes_gcm::Aes256Gcm as aes_gcm::KeyInit>::new(key);
    aes_gcm::aead::Aead::encrypt(&cipher, aes_gcm::Nonce::from_slice(nonce), plain).ok()
}

/// `Aead::decrypt` of `aes_gcm::Aes256Gcm`, without associated data.
///
/// What it reads is only named ([`aes_opened`]). Beside the name stands that the
/// result is shorter by the tag, and that, within the length that can be
/// encrypted, only what encrypting the result gives is ever accepted.
#[verifier::external_body]
fn aes_open(key: &[u8; 32], nonce: &[u8; 12], sealed: &[u8]) -> (r: Option<Vec<u8>>)
    ensures
        bytes_option(r) == aes_opened(key@, nonce@, sealed@),
        r matches Some(plain) ==> sealed@.len() == plain@.len() + TAG_LEN,
        r matches Some(plain) ==> (plain@.len() <= MAX_PLAIN_LEN ==> aes_sealed(
            key@,
            nonce@,
            plain@,
        ) == Some(sealed@)),
{
    let key = aes_gcm::Key::<aes_gcm::Aes256Gcm>::from_slice(key);
    let cipher = <aes_gcm::Aes256Gcm as aes_gcm::KeyInit>::new(key);
    aes_gcm::aead::Aead::decrypt(&cipher, aes_gcm::Nonce::from_slice(nonce), sealed).ok()
}

/// `RngCore::fill_bytes` of `rand::rngs::OsRng`: bytes from the random source of
/// the operating system. Nothing holds of them in every outcome. A system that
/// has no randomness to give ends the program here.
#[verifier::external_body]
fn random_bytes<const N: usize>() -> (r: [u8; N]) {
    let mut bytes = [0u8; N];
    rand::RngCore::fill_bytes(&mut rand::rngs::OsRng, &mut bytes);
    bytes
}

/// The first `N` of the bytes.
fn head_array<const N: usize>(bytes: &[u8]) -> (r: [u8; N])
    requires
        bytes@.len() >= N,
    ensures
        r@ == bytes@.take(N as int),
{
    let mut out = [0u8; N];
    let mut i: usize = 0;
    while i < N
        invariant
            i <= N <= bytes@.len(),
            forall|j: int| 0 <= j < i ==> out@[j] == bytes@[j],
        decreases N - i,
    {
        out[i] = bytes[i];
        i = i + 1;
    }
    assert(out@ =~= bytes@.take(N as int));
    out
}

/// The key to use, and whether it is new.
#[derive(Debug)]
pub enum KeyChoice {
    /// The key that the Keychain holds.
    Stored([u8; 32]),
    /// A new key, to be stored; `discard` tells whether an entry of the wrong
    /// length has to go first.
    Fresh { key: [u8; 32], discard: bool },
}

/// That a choice is the one to make, given what the Keychain holds and a key that
/// was drawn: a stored key of the right length is used, anything else gives way to
/// the key that was drawn.
pub open spec fn chosen(found: Option<Seq<u8>>, drawn: Seq<u8>, choice: KeyChoice) -> bool {
    match found {
        Some(bytes) => if bytes.len() == KEY_LEN {
            choice matches KeyChoice::Stored(key) && key@ == bytes
        } else {
            choice matches KeyChoice::Fresh { key, discard } && key@ == drawn && discard
        },
        None => choice matches KeyChoice::Fresh { key, discard } && key@ == drawn && !discard,
    }
}

/// The key for snapshots, given what the Keychain holds and a key that was drawn
/// for the case that it holds none.
pub fn key_choice(found: Option<Vec<u8>>, drawn: [u8; 32]) -> (r: KeyChoice)
    ensures
        chosen(bytes_option(found), drawn@, r),
        found matches Some(bytes) && bytes@.len() == 32 ==> (r matches KeyChoice::Stored(key)
            && key@ == found->Some_0@),
        r matches KeyChoice::Fresh { key, discard } ==> {
            &&& key@ == drawn@
            &&& discard == found is Some
            &&& found matches Some(bytes) ==> bytes@.len() != 32
        },
{
    let discard = match found {
        Some(bytes) => {
            if bytes.len() == KEY_LEN {
                let key = head_array::<32>(bytes.as_slice());
                assert(bytes@.take(32) =~= bytes@);
                return KeyChoice::Stored(key);
            }
            true
        },
        None => false,
    };
    KeyChoice::Fresh { key: drawn, discard }
}

/// The key for snapshots, given what the Keychain holds: a stored key of the right
/// length is used, anything else gives way to one from the random source of the
/// operating system.
pub fn get_or_create_key(found: Option<Vec<u8>>) -> (r: KeyChoice)
    ensures
        exists|drawn: Seq<u8>|
            drawn.len() == KEY_LEN && #[trigger] chosen(bytes_option(found), drawn, r),
        found matches Some(bytes) && bytes@.len() == 32 ==> (r matches KeyChoice::Stored(key)
            && key@ == found->Some_0@),
        r matches KeyChoice::Fresh { discard, .. } ==> {
            &&& discard == found is Some
            &&& found matches Some(bytes) ==> bytes@.len() != 32
        },
{
    let drawn = random_bytes();
    key_choice(found, drawn)
}

/// A nonce and what was encrypted with it, or the report that nothing was.
pub open spec fn sealed_message(key: Seq<u8>, nonce: Seq<u8>, plain: Seq<u8>) -> Result<
    Seq<u8>,
    Seq<char>,
> {
    match aes_sealed(key, nonce, plain) {
        Some(sealed) => Ok(nonce + sealed),
        None => Err("AES-256-GCM 加密失败"@),
    }
}

/// What a vault reads out of encrypted bytes.
pub open spec fn decrypted(data: Seq<u8>, vault: Vault) -> Result<Seq<u8>, Seq<char>> {
    match vault {
        Vault::Keychain(key) => if data.len() < NONCE_LEN {
            Err("加密数据不完整"@)
        } else {
            match key {
                Err(message) => Err(message@),
                Ok(key) => match aes_opened(
                    key@,
                    data.take(NONCE_LEN as int),
                    data.skip(NONCE_LEN as int),
                ) {
                    Some(plain) => Ok(plain),
                    None => Err("AES-256-GCM 解密失败（密钥可能已变更）"@),
                },
            }
        },
        Vault::Dpapi(reply) => match bytes_outcome(reply) {
            Ok(plain) => Ok(plain),
            Err(detail) => Err(Failure::DpapiDecrypt.text(detail)),
        },
        Vault::Unsupported => Err("当前平台不支持会话解密（encrypt-session）"@),
    }
}

/// That a vault may answer `outcome` when it is to encrypt `data`: with a key it
/// is the message under some nonce, and any other answer is fixed.
pub open spec fn encrypted(
    data: Seq<u8>,
    vault: Vault,
    outcome: Result<Seq<u8>, Seq<char>>,
) -> bool {
    match vault {
        Vault::Keychain(Ok(key)) => {
            &&& outcome is Ok <==> data.len() <= MAX_PLAIN_LEN
            &&& outcome matches Ok(message) ==> {
                &&& message.len() == NONCE_LEN + data.len() + TAG_LEN
                &&& decrypted(message, vault) == Ok::<Seq<u8>, Seq<char>>(data)
            }
            &&& exists|nonce: Seq<u8>|
                nonce.len() == NONCE_LEN && outcome == #[trigger] sealed_message(key@, nonce, data)
        },
        Vault::Keychain(Err(message)) => outcome == Err::<Seq<u8>, Seq<char>>(message@),
        Vault::Dpapi(reply) => outcome == (match bytes_outcome(reply) {
            Ok(sealed) => Ok(sealed),
            Err(detail) => Err(Failure::DpapiEncrypt.text(detail)),
        }),
        Vault::Unsupported => outcome == Err::<Seq<u8>, Seq<char>>(
            "当前平台不支持会话加密（encrypt-session）"@,
        ),
    }
}

/// That a key reads a text only out of what it makes of that text.
pub open spec fn authentic(data: Seq<u8>, vault: Vault, plain: Seq<u8>) -> bool {
    vault matches Vault::Keychain(Ok(key)) ==> (plain.len() <= MAX_PLAIN_LEN ==> sealed_message(
        key@,
        data.take(NONCE_LEN as int),
        plain,
    ) == Ok::<Seq<u8>, Seq<char>>(data))
}

/// Encrypts under a key and a nonce; the nonce comes first in the result.
pub fn encrypt_with_nonce(key: &[u8; 32], nonce: &[u8; 12], data: &[u8]) -> (r: Result<
    Vec<u8>,
    String,
>)
    requires
        data@.len() + NONCE_LEN + TAG_LEN <= isize::MAX,
    ensures
        bytes_outcome(r) == sealed_message(key@, nonce@, data@),
        encrypted(data@, Vault::Keychain(Ok(*key)), bytes_outcome(r)),
{
    let sealed = aes_seal(key, nonce, data);
    match sealed {
        None => {
            let r = Err("AES-256-GCM 加密失败".to_owned());
            assert(bytes_outcome(r) == sealed_message(key@, nonce@, data@));
            r
        },
        Some(sealed) => {
            let mut out = slice_to_vec(nonce.as_slice());
            let mut tail = sealed;
            let ghost sealed_bytes = tail@;
            out.append(&mut tail);
            let r: Result<Vec<u8>, String> = Ok(out);
            proof {
                assert(out@ =~= nonce@ + sealed_bytes);
                assert(out@.take(NONCE_LEN as int) =~= nonce@);
                assert(out@.skip(NONCE_LEN as int) =~= sealed_bytes);
                assert(bytes_outcome(r) == sealed_message(key@, nonce@, data@));
            }
            r
        },
    }
}

/// Encrypts a snapshot with what the platform contributes. With a key, a new
/// random nonce is drawn for every message.
pub fn encrypt(data: &[u8], vault: Vault) -> (r: Result<Vec<u8>, String>)
    requires
        data@.len() + NONCE_LEN + TAG_LEN <= isize::MAX,
    ensures
        encrypted(data@, vault, bytes_outcome(r)),
{
    match vault {
        Vault::Keychain(key) => match key {
            Err(message) => Err(message),
            Ok(key) => {
                let nonce = random_bytes();
                encrypt_with_nonce(&key, &nonce, data)
            },
        },
        Vault::Dpapi(reply) => match reply {
            Ok(sealed) => Ok(sealed),
            Err(detail) => Err(Failure::DpapiEncrypt.report(&detail)),
        },
        Vault::Unsupported => Err(
            "当前平台不支持会话加密（encrypt-session）".to_owned(),
        ),
    }
}

/// Whether decrypting these bytes takes the key from the Keychain: bytes too
/// short for a nonce are refused without it.
pub fn needs_key(data: &[u8]) -> (r: bool)
    ensures
        r == (data@.len() >= NONCE_LEN),
{
    data.len() >= NONCE_LEN
}

/// Decrypts a snapshot with what the platform contributes.
pub fn decrypt(data: &[u8], vault: Vault) -> (r: Result<Vec<u8>, String>)
    ensures
        bytes_outcome(r) == decrypted(data@, vault),
        bytes_outcome(r) matches Ok(plain) ==> authentic(data@, vault, plain),
        vault is Keychain ==> (r matches Ok(plain) ==> plain@.len() <= data@.len()),
{
    match vault {
        Vault::Keychain(key) => {
            if data.len() < NONCE_LEN {
                return Err("加密数据不完整".to_owned());
            }
            match key {
                Err(message) => Err(message),
                Ok(key) => {
                    let nonce = head_array::<12>(data);
                    let sealed = slice_subrange(data, NONCE_LEN, data.len());
                    assert(sealed@ =~= data@.skip(NONCE_LEN as int));
                    assert(nonce@ + sealed@ =~= data@);
                    match aes_open(&key, &nonce, sealed) {
                        Some(plain) => Ok(plain),
                        None => Err(
                            "AES-256-GCM 解密失败（密钥可能已变更）".to_owned(),
                        ),
                    }
                },
            }
        },
        Vault::Dpapi(reply) => match reply {
            Ok(plain) => Ok(plain),
            Err(detail) => Err(Failure::DpapiDecrypt.report(&detail)),
        },
        Vault::Unsupported => Err(
            "当前平台不支持会话解密（encrypt-session）".to_owned(),
        ),
    }
}

/// A key that was stored is the key that is used the next time: every entry of 32
/// bytes is chosen as it is, whatever its bytes and whatever was drawn meanwhile.
pub proof fn law_stored_keys_are_used_again(
    stored: Seq<u8>,
    drawn: Seq<u8>,
    choice: KeyChoice,
)
    requires
        stored.len() == 32,
        chosen(Some(stored), drawn, choice),
    ensures
        choice matches KeyChoice::Stored(key) && key@ == stored,
{
}

/// A new key is the one that was drawn, comes only where there is no key of 32
/// bytes, and is the key of every later use once it is stored. An entry has to go
/// first exactly where there is one.
pub proof fn law_new_keys_stay(
    found: Option<Seq<u8>>,
    drawn: Seq<u8>,
    first: KeyChoice,
    later: Seq<u8>,
    next: KeyChoice,
)
    requires
        drawn.len() == 32,
        found matches Some(bytes) ==> bytes.len() != 32,
        chosen(found, drawn, first),
        chosen(Some(drawn), later, next),
    ensures
        first matches KeyChoice::Fresh { key, discard } && key@ == drawn && discard == (found
            is Some),
        next matches KeyChoice::Stored(key) && key@ == drawn,
{
}

/// Whatever a key encrypts, the same key decrypts to the same bytes; the message is
/// longer by 28 bytes, and every text of up to 64 GiB is encrypted.
pub proof fn law_the_key_opens_what_it_sealed(
    data: Seq<u8>,
    sealing: [u8; 32],
    opening: [u8; 32],
    outcome: Result<Seq<u8>, Seq<char>>,
)
    requires
        encrypted(data, Vault::Keychain(Ok(sealing)), outcome),
        sealing@ == opening@,
    ensures
        data.len() <= 0x10_0000_0000 ==> outcome is Ok,
        outcome matches Ok(message) ==> message.len() == data.len() + 28 && decrypted(
            message,
            Vault::Keychain(Ok(opening)),
        ) == Ok::<Seq<u8>, Seq<char>>(data),
        outcome matches Err(m) ==> m == "AES-256-GCM 加密失败"@,
{
}

/// A message is a nonce of 12 bytes and what AES-256-GCM makes of the text under it.
pub proof fn law_messages_are_nonce_and_ciphertext(
    data: Seq<u8>,
    key: [u8; 32],
    message: Seq<u8>,
)
    requires
        encrypted(data, Vault::Keychain(Ok(key)), Ok(message)),
    ensures
        message.len() >= 12,
        aes_sealed(key@, message.take(12), data) == Some(message.skip(12)),
{
    let nonce = choose|nonce: Seq<u8>|
        nonce.len() == NONCE_LEN && Ok::<Seq<u8>, Seq<char>>(message) == #[trigger] sealed_message(
            key@,
            nonce,
            data,
        );
    let sealed = aes_sealed(key@, nonce, data)->Some_0;
    assert(message == nonce + sealed);
    assert(message.take(12) =~= nonce);
    assert(message.skip(12) =~= sealed);
}

/// Under a given nonce the message is that nonce and what AES-256-GCM makes of the
/// text under it.
pub proof fn law_messages_under_a_nonce(key: Seq<u8>, nonce: Seq<u8>, plain: Seq<u8>)
    ensures
        aes_sealed(key, nonce, plain) matches Some(sealed) ==> sealed_message(key, nonce, plain)
            == Ok::<Seq<u8>, Seq<char>>(nonce + sealed),
        aes_sealed(key, nonce, plain) is None ==> sealed_message(key, nonce, plain) == Err::<
            Seq<u8>,
            Seq<char>,
        >("AES-256-GCM 加密失败"@),
{
}

/// Without a key nothing is encrypted, Windows' answer is passed on as it is, and
/// on other platforms nothing is encrypted either.
pub proof fn law_encryption_without_a_key(
    data: Seq<u8>,
    vault: Vault,
    outcome: Result<Seq<u8>, Seq<char>>,
)
    requires
        encrypted(data, vault, outcome),
    ensures
        vault matches Vault::Keychain(Err(m)) ==> outcome == Err::<Seq<u8>, Seq<char>>(m@),
        vault matches Vault::Dpapi(Ok(sealed)) ==> outcome == Ok::<Seq<u8>, Seq<char>>(sealed@),
        vault matches Vault::Dpapi(Err(m)) ==> outcome == Err::<Seq<u8>, Seq<char>>(
            "DPAPI 加密失败: "@ + m@,
        ),
        vault is Unsupported ==> outcome == Err::<Seq<u8>, Seq<char>>(
            "当前平台不支持会话加密（encrypt-session）"@,
        ),
{
}

/// What is decrypted with a key: nothing that is shorter than a nonce, whatever the
/// key; nothing without a key; and otherwise what AES-256-GCM opens behind the nonce.
/// Windows' answer is passed on as it is.
pub proof fn law_decryption(data: Seq<u8>, vault: Vault)
    ensures
        vault is Keychain && data.len() < 12 ==> decrypted(data, vault) == Err::<
            Seq<u8>,
            Seq<char>,
        >("加密数据不完整"@),
        data.len() >= 12 ==> {
            &&& vault matches Vault::Keychain(Err(m)) ==> decrypted(data, vault) == Err::<
                Seq<u8>,
                Seq<char>,
            >(m@)
            &&& vault matches Vault::Keychain(Ok(key)) ==> match aes_opened(
                key@,
                data.take(12),
                data.skip(12),
            ) {
                Some(plain) => decrypted(data, vault) == Ok::<Seq<u8>, Seq<char>>(plain),
                None => decrypted(data, vault) == Err::<Seq<u8>, Seq<char>>(
                    "AES-256-GCM 解密失败（密钥可能已变更）"@,
                ),
            }
        },
        vault matches Vault::Dpapi(Ok(plain)) ==> decrypted(data, vault) == Ok::<
            Seq<u8>,
            Seq<char>,
        >(plain@),
        vault matches Vault::Dpapi(Err(m)) ==> decrypted(data, vault) == Err::<
            Seq<u8>,
            Seq<char>,
        >("DPAPI 解密失败: "@ + m@),
        vault is Unsupported ==> decrypted(data, vault) == Err::<Seq<u8>, Seq<char>>(
            "当前平台不支持会话解密（encrypt-session）"@,
        ),
{
}

/// What a key opens was sealed with that key: the bytes behind the nonce are what
/// AES-256-GCM makes of the text.
pub proof fn law_only_sealed_bytes_are_opened(data: Seq<u8>, key: [u8; 32], plain: Seq<u8>)
    requires
        authentic(data, Vault::Keychain(Ok(key)), plain),
        data.len() >= 12,
        plain.len() <= 0x10_0000_0000,
    ensures
        aes_sealed(key@, data.take(12), plain) == Some(data.skip(12)),
{
    let sealed = aes_sealed(key@, data.take(12), plain)->Some_0;
    assert(data == data.take(12) + sealed);
    assert(data.skip(12) =~= sealed);
}

/// Optional bytes say what they hold.
pub proof fn law_optional_bytes_say_what_they_hold(bytes: Option<Vec<u8>>)
    ensures
        bytes is None ==> bytes_option(bytes) is None,
        bytes matches Some(held) ==> bytes_option(bytes) == Some(held@),
{
}

} // verus!
