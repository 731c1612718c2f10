//! Client-side encryption of an upload: one fresh file key per file, wrapped
//! for every recipient's public key.
use vstd::prelude::*;
use vstd::string::*;

use dco3_crypto::{
    DracoonCrypto, DracoonCryptoError, DracoonRSACrypto, FileEncryptor, FileKey, PlainFileKey,
    PlainUserKeyPairContainer, PublicKeyContainer, UserKeyPairContainer,
};

use crate::errors::DracoonClientError;

verus! {

/// The text holds no NUL character.
pub open spec fn no_nul(s: Seq<char>) -> bool {
    forall|i: int| 0 <= i < s.len() ==> s[i] != '\0'
}

/// Whether `s` holds no NUL character.
pub fn has_no_nul(s: &str) -> (r: bool)
    ensures
        r == no_nul(s@),
{
    let n = s.unicode_len();
    let mut i: usize = 0;
    while i < n
        invariant
            n == s@.len(),
            i <= n,
            forall|j: int| 0 <= j < i ==> s@[j] != '\0',
        decreases n - i,
    {
        if s.get_char(i) == '\0' {
            return false;
        }
        i = i + 1;
    }
    true
}

/// The most bytes handed to the cipher in one update.
pub const MAX_UPDATE_LEN: usize = 33554432;

#[verifier::external_type_specification]
#[verifier::external_body]
pub struct ExFileKey(FileKey);

#[verifier::external_type_specification]
#[verifier::external_body]
pub struct ExPlainFileKey(PlainFileKey);

#[verifier::external_type_specification]
#[verifier::external_body]
pub struct ExPublicKeyContainer(PublicKeyContainer);

#[verifier::external_type_specification]
#[verifier::external_body]
pub struct ExFileEncryptor(FileEncryptor);

#[verifier::external_type_specification]
#[verifier::external_body]
pub struct ExUserKeyPairContainer(UserKeyPairContainer);

#[verifier::external_type_specification]
#[verifier::external_body]
pub struct ExPlainUserKeyPairContainer(PlainUserKeyPairContainer);

#[verifier::external_type_specification]
#[verifier::external_body]
pub struct ExDracoonCryptoError(DracoonCryptoError);

/// Relies on `DracoonCrypto::file_encryptor`: starts AES-256-GCM encryption
/// under a freshly generated file key. Nothing is promised of the outcome.
#[verifier::external_body]
fn new_file_encryptor() -> (r: Result<FileEncryptor, DracoonCryptoError>) {
    DracoonCrypto::file_encryptor()
}

/// Relies on `FileEncryptor::update`: encrypts the next bytes of the stream.
/// OpenSSL's `Crypter::update` takes at most `i32::MAX` bytes at a time and
/// panics on more.
#[verifier::external_body]
fn encrypt_chunk(encryptor: &mut FileEncryptor, data: &[u8]) -> (r: Result<
    Vec<u8>,
    DracoonCryptoError,
>)
    requires
        data@.len() <= MAX_UPDATE_LEN,
{
    encryptor.update(data)
}

/// Relies on `FileEncryptor::finalize`: the last ciphertext bytes, and the
/// plain file key that now carries the authentication tag.
#[verifier::external_body]
fn finish_encryption(encryptor: FileEncryptor) -> (r: Result<
    (Vec<u8>, PlainFileKey),
    DracoonCryptoError,
>) {
    match encryptor.finalize() {
        Ok(done) => Ok((done.final_chunk, done.plain_file_key)),
        Err(e) => Err(e),
    }
}

/// Relies on `DracoonRSACrypto::encrypt_file_key`: wraps a plain file key with
/// RSA-OAEP for the public key of one recipient, whose id goes with the result.
/// Nothing is promised of the wrapped key.
#[verifier::external_body]
fn wrap_file_key(plain_file_key: &PlainFileKey, recipient: &UserUserPublicKey) -> (r: Result<
    UserFileKey,
    DracoonCryptoError,
>)
    ensures
        r is Ok ==> r->Ok_0.user_id == recipient.id,
{
    match DracoonCrypto::encrypt_file_key(plain_file_key.clone(), recipient.public_key_container.clone()) {
        Ok(file_key) => Ok(UserFileKey { user_id: recipient.id, file_key }),
        Err(e) => Err(e),
    }
}

/// Relies on `DracoonRSACrypto::decrypt_keypair`: opens the private key of a
/// user key pair with its passphrase. Nothing is promised of the outcome.
/// OpenSSL turns the passphrase into a C string and panics on a NUL character.
#[verifier::external_body]
pub(crate) fn decrypt_user_keypair(secret: &str, keypair: UserKeyPairContainer) -> (r: Result<
    PlainUserKeyPairContainer,
    DracoonCryptoError,
>)
    requires
        no_nul(secret@),
{
    DracoonCrypto::decrypt_keypair(secret, keypair)
}

/// A recipient of an encrypted upload: a user and the public key of that user.
pub struct UserUserPublicKey {
    pub id: u64,
    pub public_key_container: PublicKeyContainer,
}

/// The file key wrapped for one recipient.
pub struct UserFileKey {
    pub user_id: u64,
    pub file_key: FileKey,
}

/// Ciphertext of a file together with the plain key it was encrypted under.
pub struct EncryptedPayload {
    pub data: Vec<u8>,
    pub plain_file_key: PlainFileKey,
}

/// What an encrypted upload sends: the ciphertext and the wrapped file keys.
pub struct EncryptedUpload {
    pub data: Vec<u8>,
    pub user_file_keys: Vec<UserFileKey>,
}

/// The ids of the recipients, in order.
pub open spec fn recipient_ids(keys: Seq<UserUserPublicKey>) -> Seq<u64> {
    keys.map_values(|k: UserUserPublicKey| k.id)
}

/// The users the wrapped keys belong to, in order.
pub open spec fn file_key_owners(keys: Seq<UserFileKey>) -> Seq<u64> {
    keys.map_values(|k: UserFileKey| k.user_id)
}

/// Joins what the cipher gave (the output of all updates, then the final
/// bytes) into the ciphertext of a file of `size` bytes. A ciphertext of any
/// other length is a `CryptoError`.
pub fn assemble_payload(body: Vec<u8>, tail: Vec<u8>, plain_file_key: PlainFileKey, size: u64) -> (r:
    Result<EncryptedPayload, DracoonClientError>)
    ensures
        (r is Ok) == (body@.len() + tail@.len() == size),
        r is Ok ==> r->Ok_0.data@ == body@ + tail@ && r->Ok_0.plain_file_key == plain_file_key,
        r is Err ==> r == Err::<EncryptedPayload, DracoonClientError>(
            DracoonClientError::CryptoError,
        ),
{
    let mut data = body;
    let mut tail = tail;
    let ghost joined = data@ + tail@;
    data.append(&mut tail);
    if data.len() as u64 != size {
        return Err(DracoonClientError::CryptoError);
    }
    proof {
        assert(data@ == joined);
    }
    Ok(EncryptedPayload { data, plain_file_key })
}

/// The bytes of `plain` that the ranges pick, one range after the other.
pub open spec fn concat_ranges(plain: Seq<u8>, ranges: Seq<(usize, usize)>) -> Seq<u8>
    decreases ranges.len(),
{
    if ranges.len() == 0 {
        Seq::empty()
    } else {
        concat_ranges(plain, ranges.drop_last()) + plain.subrange(
            ranges.last().0 as int,
            ranges.last().1 as int,
        )
    }
}

/// The pieces in which `plain` goes to the cipher, as `(start, end)` ranges:
/// non-empty, at most [MAX_UPDATE_LEN] bytes each, in order, and together
/// exactly `plain`.
pub fn cipher_ranges(plain: &Vec<u8>) -> (r: Vec<(usize, usize)>)
    ensures
        concat_ranges(plain@, r@) == plain@,
        forall|i: int|
            0 <= i < r@.len() ==> (#[trigger] r@[i]).0 < r@[i].1 <= plain@.len() && r@[i].1
                - r@[i].0 <= MAX_UPDATE_LEN,
{
    let len = plain.len();
    let mut ranges: Vec<(usize, usize)> = Vec::new();
    let mut start: usize = 0;
    while start < len
        invariant
            len == plain@.len(),
            start <= len,
            concat_ranges(plain@, ranges@) == plain@.subrange(0, start as int),
            forall|i: int|
                0 <= i < ranges@.len() ==> (#[trigger] ranges@[i]).0 < ranges@[i].1 <= start
                    && ranges@[i].1 - ranges@[i].0 <= MAX_UPDATE_LEN,
        decreases len - start,
    {
        let end = if len - start > MAX_UPDATE_LEN {
            start + MAX_UPDATE_LEN
        } else {
            len
        };
        let ghost before = ranges@;
        ranges.push((start, end));
        proof {
            assert(ranges@.drop_last() =~= before);
            assert(plain@.subrange(0, start as int) + plain@.subrange(start as int, end as int)
                =~= plain@.subrange(0, end as int));
        }
        start = end;
    }
    proof {
        assert(plain@.subrange(0, len as int) =~= plain@);
    }
    ranges
}

/// Encrypts the whole file under a fresh file key, handing it to the cipher
/// in the pieces of [cipher_ranges], in order. The file must be exactly
/// `size` bytes long, else `IoError`; a failure of the cipher, or a
/// ciphertext whose length differs from the plaintext's, gives `CryptoError`.
pub fn encrypt_payload(plain: &Vec<u8>, size: u64) -> (r: Result<EncryptedPayload, DracoonClientError>)
    ensures
        plain@.len() != size ==> r == Err::<EncryptedPayload, DracoonClientError>(
            DracoonClientError::IoError,
        ),
        plain@.len() == size ==> (r is Ok || r == Err::<EncryptedPayload, DracoonClientError>(
            DracoonClientError::CryptoError,
        )),
        r is Ok ==> r->Ok_0.data@.len() == size,
{
    if plain.len() as u64 != size {
        return Err(DracoonClientError::IoError);
    }
    let mut encryptor = match new_file_encryptor() {
        Ok(e) => e,
        Err(_) => return Err(DracoonClientError::CryptoError),
    };
    let ranges = cipher_ranges(plain);
    let mut body: Vec<u8> = Vec::new();
    let n = ranges.len();
    // the bytes handed to the cipher so far
    let ghost mut fed: Seq<u8> = Seq::empty();
    for k in 0..n
        invariant
            n == ranges@.len(),
            plain@.len() == size,
            concat_ranges(plain@, ranges@) == plain@,
            forall|i: int|
                0 <= i < ranges@.len() ==> (#[trigger] ranges@[i]).0 < ranges@[i].1
                    <= plain@.len() && ranges@[i].1 - ranges@[i].0 <= MAX_UPDATE_LEN,
            fed == concat_ranges(plain@, ranges@.take(k as int)),
    {
        let (start, end) = ranges[k];
        let piece = vstd::slice::slice_subrange(plain.as_slice(), start, end);
        let mut out = match encrypt_chunk(&mut encryptor, piece) {
            Ok(d) => d,
            Err(_) => return Err(DracoonClientError::CryptoError),
        };
        proof {
            assert(ranges@.take(k + 1).drop_last() =~= ranges@.take(k as int));
            fed = fed + piece@;
        }
        body.append(&mut out);
    }
    proof {
        assert(ranges@.take(n as int) =~= ranges@);
        assert(fed == plain@);
    }
    let (tail, plain_file_key) = match finish_encryption(encryptor) {
        Ok(done) => done,
        Err(_) => return Err(DracoonClientError::CryptoError),
    };
    assemble_payload(body, tail, plain_file_key, size)
}

/// The wrapped keys kept from the first `n` wrap outcomes: the key of each
/// recipient whose wrap succeeded, in order.
pub open spec fn kept_file_keys(wrapped: Seq<Result<UserFileKey, DracoonCryptoError>>, n: nat) -> Seq<
    UserFileKey,
>
    decreases n,
{
    if n == 0 {
        Seq::empty()
    } else {
        let before = kept_file_keys(wrapped, (n - 1) as nat);
        match wrapped[n - 1] {
            Ok(key) => before.push(key),
            Err(_) => before,
        }
    }
}

/// Each successful wrap outcome belongs to the recipient at its place.
pub open spec fn wraps_match_recipients(
    recipients: Seq<UserUserPublicKey>,
    wrapped: Seq<Result<UserFileKey, DracoonCryptoError>>,
) -> bool {
    &&& wrapped.len() == recipients.len()
    &&& forall|i: int|
        0 <= i < wrapped.len() && (#[trigger] wrapped[i]) is Ok ==> wrapped[i]->Ok_0.user_id
            == recipients[i].id
}

/// When every wrap succeeded, the kept keys belong to the recipients, in order.
proof fn lemma_all_kept(
    recipients: Seq<UserUserPublicKey>,
    wrapped: Seq<Result<UserFileKey, DracoonCryptoError>>,
    n: nat,
)
    requires
        n <= recipients.len(),
        wraps_match_recipients(recipients, wrapped),
        forall|j: int| 0 <= j < n ==> (#[trigger] wrapped[j]) is Ok,
    ensures
        file_key_owners(kept_file_keys(wrapped, n)) == recipient_ids(recipients.take(n as int)),
    decreases n,
{
    if n > 0 {
        lemma_all_kept(recipients, wrapped, (n - 1) as nat);
        assert(wrapped[n - 1] is Ok);
        assert(recipient_ids(recipients.take(n as int)) =~= recipient_ids(
            recipients.take(n - 1),
        ).push(recipients[n - 1].id));
        assert(file_key_owners(kept_file_keys(wrapped, n)) =~= file_key_owners(
            kept_file_keys(wrapped, (n - 1) as nat),
        ).push(recipients[n - 1].id));
    } else {
        assert(recipient_ids(recipients.take(0)) =~= Seq::empty());
        assert(file_key_owners(Seq::<UserFileKey>::empty()) =~= Seq::empty());
    }
}

/// Every kept key belongs to one of the recipients.
proof fn lemma_kept_from_recipients(
    recipients: Seq<UserUserPublicKey>,
    wrapped: Seq<Result<UserFileKey, DracoonCryptoError>>,
    n: nat,
)
    requires
        n <= recipients.len(),
        wraps_match_recipients(recipients, wrapped),
    ensures
        forall|i: int|
            0 <= i < kept_file_keys(wrapped, n).len() ==> recipient_ids(recipients).contains(
                #[trigger] kept_file_keys(wrapped, n)[i].user_id,
            ),
        kept_file_keys(wrapped, n).len() <= n,
    decreases n,
{
    if n > 0 {
        lemma_kept_from_recipients(recipients, wrapped, (n - 1) as nat);
        assert(recipient_ids(recipients)[n - 1] == recipients[n - 1].id);
        if wrapped[n - 1] is Ok {
            assert(kept_file_keys(wrapped, n).last().user_id == recipients[n - 1].id);
        }
    }
}

/// At least one wrap failed.
pub open spec fn some_wrap_failed(wrapped: Seq<Result<UserFileKey, DracoonCryptoError>>) -> bool {
    exists|i: int| 0 <= i < wrapped.len() && (#[trigger] wrapped[i]) is Err
}

/// Keeps, in order, the wrapped key of every recipient whose wrap succeeded.
/// A failed wrap is a `CryptoError`, unless `skip_failed` is set: then that
/// recipient is left out.
pub fn collect_file_keys(
    wrapped: Vec<Result<UserFileKey, DracoonCryptoError>>,
    skip_failed: bool,
) -> (r: Result<Vec<UserFileKey>, DracoonClientError>)
    ensures
        (r is Err) == (!skip_failed && some_wrap_failed(wrapped@)),
        r is Err ==> r == Err::<Vec<UserFileKey>, DracoonClientError>(
            DracoonClientError::CryptoError,
        ),
        r is Ok ==> r->Ok_0@ == kept_file_keys(wrapped@, wrapped@.len()),
{
    let ghost all = wrapped@;
    let mut rest = wrapped;
    let mut keys: Vec<UserFileKey> = Vec::new();
    let n = rest.len();
    let mut i: usize = 0;
    while i < n
        invariant
            all.len() == n,
            all == wrapped@,
            i <= n,
            rest@ == all.skip(i as int),
            keys@ == kept_file_keys(all, i as nat),
            !skip_failed ==> forall|j: int| 0 <= j < i ==> (#[trigger] all[j]) is Ok,
        decreases n - i,
    {
        assert(rest@[0] == all[i as int]);
        let outcome = rest.remove(0);
        assert(rest@ =~= all.skip(i + 1));
        match outcome {
            Ok(key) => {
                keys.push(key);
            },
            Err(_) => {
                if !skip_failed {
                    assert(all[i as int] is Err);
                    assert(some_wrap_failed(all));
                    return Err(DracoonClientError::CryptoError);
                }
            },
        }
        i = i + 1;
    }
    Ok(keys)
}

/// Wraps the file key for every recipient, in order. A failed wrap gives
/// `CryptoError`, unless `skip_failed` is set: then that recipient is left out.
pub fn wrap_file_keys(
    plain_file_key: &PlainFileKey,
    recipients: &Vec<UserUserPublicKey>,
    skip_failed: bool,
) -> (r: Result<Vec<UserFileKey>, DracoonClientError>)
    ensures
        recipients@.len() == 0 ==> r is Ok && r->Ok_0@.len() == 0,
        r is Ok ==> r->Ok_0@.len() <= recipients@.len(),
        r is Err ==> !skip_failed && r == Err::<Vec<UserFileKey>, DracoonClientError>(
            DracoonClientError::CryptoError,
        ),
        r is Ok && !skip_failed ==> file_key_owners(r->Ok_0@) == recipient_ids(recipients@),
        r is Ok ==> forall|i: int|
            0 <= i < r->Ok_0@.len() ==> recipient_ids(recipients@).contains(
                #[trigger] r->Ok_0@[i].user_id,
            ),
{
    let mut wrapped: Vec<Result<UserFileKey, DracoonCryptoError>> = Vec::new();
    let n = recipients.len();
    for i in 0..n
        invariant
            n == recipients@.len(),
            wrapped@.len() == i,
            forall|j: int|
                0 <= j < i && (#[trigger] wrapped@[j]) is Ok ==> wrapped@[j]->Ok_0.user_id
                    == recipients@[j].id,
    {
        wrapped.push(wrap_file_key(plain_file_key, &recipients[i]));
    }
    let ghost outcomes = wrapped@;
    proof {
        assert(wraps_match_recipients(recipients@, outcomes));
    }
    let r = collect_file_keys(wrapped, skip_failed);
    proof {
        lemma_kept_from_recipients(recipients@, outcomes, n as nat);
        if r is Ok && !skip_failed {
            lemma_all_kept(recipients@, outcomes, n as nat);
            assert(recipients@.take(n as int) =~= recipients@);
        }
    }
    r
}

} // verus!
