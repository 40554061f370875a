//! The key and the login in the credential store of the system: what is written,
//! read and removed, and what is made of the answers.

use vstd::prelude::*;

use crate::deepseek::{login_in, normalize_user_token};
use crate::utf16::{
    decoded_le, from_utf16le, law_bytes_hold_a_text, law_utf16le_round_trip, law_wide_is_injective,
    le_bytes, to_utf16le, units_of, wide, wide_of,
};

verus! {

/// The name under which the key is stored.
pub const API_TARGET: &'static str = "DeepSeekStatusWidget/ApiKey";

/// The name under which the login of the platform is stored.
pub const TOKEN_TARGET: &'static str = "DeepSeekStatusWidget/UserToken";

/// The user name in the stored records.
pub const USER: &'static str = "DeepSeekStatusWidget";

/// The kind of credential that is not tied to a protocol.
pub const CRED_TYPE_GENERIC: u32 = 1;

/// Keep the credential for later sessions on this machine.
pub const CRED_PERSIST_LOCAL_MACHINE: u32 = 2;

/// A record to write to the credential store.
#[derive(Debug)]
pub struct Credential {
    pub flags: u32,
    pub type_: u32,
    /// The name of the record, with the terminating zero.
    pub target_name: Vec<u16>,
    /// The number of bytes of the secret, in 32 bits.
    pub credential_blob_size: u32,
    /// The secret.
    pub credential_blob: Vec<u8>,
    pub persist: u32,
    pub attribute_count: u32,
    /// The user of the record, with the terminating zero.
    pub user_name: Vec<u16>,
}

/// What names a record of the credential store.
#[derive(Debug)]
pub struct CredentialName {
    /// The name of the record, with the terminating zero.
    pub target_name: Vec<u16>,
    pub type_: u32,
}

/// A record that was read.
#[derive(Debug)]
pub struct StoredCredential {
    /// The secret, if there is one.
    pub credential_blob: Option<Vec<u8>>,
}

/// Whether `c` stores the secret `value` under the name `target`.
pub open spec fn stores(c: Credential, target: Seq<char>, value: Seq<char>) -> bool {
    &&& c.flags == 0
    &&& c.type_ == CRED_TYPE_GENERIC
    &&& c.target_name@ == wide_of(target)
    &&& c.credential_blob@ == le_bytes(units_of(value))
    &&& c.credential_blob_size == c.credential_blob@.len() as u32
    &&& c.persist == CRED_PERSIST_LOCAL_MACHINE
    &&& c.attribute_count == 0
    &&& c.user_name@ == wide_of(USER@)
}

/// Whether `n` names the record `target`.
pub open spec fn names(n: CredentialName, target: Seq<char>) -> bool {
    &&& n.target_name@ == wide_of(target)
    &&& n.type_ == CRED_TYPE_GENERIC
}

/// The record that stores `value` under the name `target`.
pub fn write_cred(target: &str, value: &str) -> (r: Credential)
    ensures
        stores(r, target@, value@),
{
    let blob: Vec<u8> = to_utf16le(value);
    Credential {
        flags: 0,
        type_: CRED_TYPE_GENERIC,
        target_name: wide(target),
        credential_blob_size: blob.len() as u32,
        credential_blob: blob,
        persist: CRED_PERSIST_LOCAL_MACHINE,
        attribute_count: 0,
        user_name: wide(USER),
    }
}

/// What a write came to: the store reports success with a status other than 0.
pub fn write_outcome(status: i32) -> (r: Result<(), String>)
    ensures
        r is Ok <==> status != 0,
        r matches Err(m) ==> m@ == "保存到 Windows 凭据管理器失败"@,
{
    if status != 0 {
        Ok(())
    } else {
        Err("保存到 Windows 凭据管理器失败".to_owned())
    }
}

/// The name of the record `target`, to read it.
pub fn read_cred(target: &str) -> (r: CredentialName)
    ensures
        names(r, target@),
{
    CredentialName { target_name: wide(target), type_: CRED_TYPE_GENERIC }
}

/// The secret in a record that was read: none where the read failed or gave no
/// record; the empty text where the record has no secret; and none where the
/// secret is no little-endian UTF-16.
pub open spec fn secret_in(status: i32, record: Option<StoredCredential>) -> Option<Seq<char>> {
    match record {
        Some(c) => if status == 0 {
            None
        } else {
            match c.credential_blob {
                Some(bytes) => decoded_le(bytes@),
                None => Some(Seq::empty()),
            }
        },
        None => None,
    }
}

/// The secret in a record that was read.
pub fn read_outcome(status: i32, record: Option<StoredCredential>) -> (r: Option<String>)
    ensures
        match r {
            Some(s) => secret_in(status, record) == Some(s@),
            None => secret_in(status, record) is None,
        },
{
    match record {
        None => None,
        Some(c) => {
            if status == 0 {
                return None;
            }
            match c.credential_blob {
                Some(bytes) => from_utf16le(&bytes),
                None => Some(String::new()),
            }
        },
    }
}

/// The name of the record `target`, to remove it.
pub fn delete_cred(target: &str) -> (r: CredentialName)
    ensures
        names(r, target@),
{
    CredentialName { target_name: wide(target), type_: CRED_TYPE_GENERIC }
}

/// What a removal came to: a status other than 0 is reported as a failure.
pub fn delete_outcome(status: i32) -> (r: Result<(), String>)
    ensures
        r is Ok <==> status == 0,
        r matches Err(m) ==> m@ == "清除失败"@,
{
    if status != 0 {
        Err("清除失败".to_owned())
    } else {
        Ok(())
    }
}

/// The record that stores the key.
pub fn save_api_key(key: &str) -> (r: Credential)
    ensures
        stores(r, API_TARGET@, key@),
{
    write_cred(API_TARGET, key)
}

/// The name of the record of the key, to read it.
pub fn load_api_key() -> (r: CredentialName)
    ensures
        names(r, API_TARGET@),
{
    read_cred(API_TARGET)
}

/// The name of the record of the key, to remove it.
pub fn clear_api_key() -> (r: CredentialName)
    ensures
        names(r, API_TARGET@),
{
    delete_cred(API_TARGET)
}

/// The record that stores the login in what the user pasted: the wrapping of the
/// platform is taken off before.
pub fn save_user_token(token: &str) -> (r: Credential)
    ensures
        stores(r, TOKEN_TARGET@, login_in(token@)),
{
    let login: String = normalize_user_token(token);
    write_cred(TOKEN_TARGET, login.as_str())
}

/// The name of the record of the login, to read it.
pub fn load_user_token() -> (r: CredentialName)
    ensures
        names(r, TOKEN_TARGET@),
{
    read_cred(TOKEN_TARGET)
}

/// The name of the record of the login, to remove it.
pub fn clear_user_token() -> (r: CredentialName)
    ensures
        names(r, TOKEN_TARGET@),
{
    delete_cred(TOKEN_TARGET)
}

// ---------------------------------------------------------------------------
// What the store gives back
// ---------------------------------------------------------------------------

/// A secret that was stored is read back as it was: where the store keeps the
/// bytes of the record and finds them again, the read gives the same text. The
/// length of the secret has to fit the 32 bits that the record has for it.
pub proof fn law_stored_secret_reads_back(
    c: Credential,
    target: Seq<char>,
    value: Seq<char>,
    status: i32,
    found: StoredCredential,
)
    requires
        stores(c, target, value),
        c.credential_blob@.len() <= u32::MAX,
        status != 0,
        found.credential_blob matches Some(bytes) && bytes@ == c.credential_blob@.take(
            c.credential_blob_size as int,
        ),
    ensures
        secret_in(status, Some(found)) == Some(value),
{
    assert(c.credential_blob@.take(c.credential_blob_size as int) == c.credential_blob@);
    law_utf16le_round_trip(value);
}

/// A login that was saved is read back without the platform's wrapping: the read
/// gives the login in what the user pasted.
pub proof fn law_saved_login_reads_back(
    c: Credential,
    pasted: Seq<char>,
    status: i32,
    found: StoredCredential,
)
    requires
        stores(c, TOKEN_TARGET@, login_in(pasted)),
        c.credential_blob@.len() <= u32::MAX,
        status != 0,
        found.credential_blob matches Some(bytes) && bytes@ == c.credential_blob@.take(
            c.credential_blob_size as int,
        ),
    ensures
        secret_in(status, Some(found)) == Some(login_in(pasted)),
{
    law_stored_secret_reads_back(c, TOKEN_TARGET@, login_in(pasted), status, found);
}

/// What is stored, read and removed under one name is one record, and no two
/// names mean the same record.
pub proof fn law_names_tell_records_apart(
    c: Credential,
    value: Seq<char>,
    n: CredentialName,
    stored: Seq<char>,
    named: Seq<char>,
)
    requires
        stores(c, stored, value),
        names(n, named),
    ensures
        c.type_ == n.type_,
        c.target_name@ == n.target_name@ <==> stored == named,
{
    if c.target_name@ == n.target_name@ {
        law_wide_is_injective(stored, named);
    }
}

/// The key and the login have records of their own: whatever is stored, read or
/// removed for one leaves the record of the other alone.
pub proof fn law_key_and_login_are_apart(
    key_record: Credential,
    key: Seq<char>,
    key_name: CredentialName,
    login_record: Credential,
    login: Seq<char>,
    login_name: CredentialName,
)
    requires
        stores(key_record, API_TARGET@, key),
        names(key_name, API_TARGET@),
        stores(login_record, TOKEN_TARGET@, login),
        names(login_name, TOKEN_TARGET@),
    ensures
        key_record.target_name@ == key_name.target_name@,
        login_record.target_name@ == login_name.target_name@,
        key_record.target_name@ != login_record.target_name@,
        key_name.target_name@ != login_name.target_name@,
{
    reveal_strlit("DeepSeekStatusWidget/ApiKey");
    reveal_strlit("DeepSeekStatusWidget/UserToken");
    assert(API_TARGET@.len() != TOKEN_TARGET@.len());
    if wide_of(API_TARGET@) == wide_of(TOKEN_TARGET@) {
        law_wide_is_injective(API_TARGET@, TOKEN_TARGET@);
    }
}

/// A record to write is a generic one, kept for later sessions on this machine,
/// with the widget as its user, and its secret is all that the size counts, as far
/// as 32 bits go.
pub proof fn law_what_is_written(c: Credential, target: Seq<char>, value: Seq<char>)
    requires
        stores(c, target, value),
    ensures
        c.flags == 0,
        c.type_ == 1,
        c.persist == 2,
        c.attribute_count == 0,
        c.target_name@ == wide_of(target),
        c.user_name@ == wide_of("DeepSeekStatusWidget"@),
        c.credential_blob@ == le_bytes(units_of(value)),
        c.credential_blob@.len() <= u32::MAX ==> c.credential_blob_size
            == c.credential_blob@.len(),
{
}

/// A record is read and removed by its name and the generic kind.
pub proof fn law_what_is_named(n: CredentialName, target: Seq<char>)
    ensures
        names(n, target) <==> n.target_name@ == wide_of(target) && n.type_ == 1,
        API_TARGET@ == "DeepSeekStatusWidget/ApiKey"@,
        TOKEN_TARGET@ == "DeepSeekStatusWidget/UserToken"@,
{
}

/// A secret comes exactly where the read succeeded and gave a record whose bytes
/// are those of a text, or that has none: the empty text then.
pub proof fn law_what_a_read_gives(status: i32, bytes: Vec<u8>, value: Seq<char>)
    ensures
        secret_in(status, None) is None,
        secret_in(0, Some(StoredCredential { credential_blob: Some(bytes) })) is None,
        secret_in(0, Some(StoredCredential { credential_blob: None })) is None,
        status != 0 ==> (secret_in(
            status,
            Some(StoredCredential { credential_blob: Some(bytes) }),
        ) == Some(value) <==> bytes@ == le_bytes(units_of(value))),
        status != 0 ==> secret_in(status, Some(StoredCredential { credential_blob: None }))
            == Some(Seq::<char>::empty()),
{
    law_bytes_hold_a_text(bytes@, value);
}

// ---------------------------------------------------------------------------
// What the operations do
// ---------------------------------------------------------------------------

/// The key is saved, loaded and cleared under one name, as a generic record of the
/// widget that lasts, and all of it is saved.
pub proof fn law_key_has_one_record(
    key: &str,
    saved: Credential,
    loaded: CredentialName,
    cleared: CredentialName,
)
    requires
        call_ensures(save_api_key, (key,), saved),
        call_ensures(load_api_key, (), loaded),
        call_ensures(clear_api_key, (), cleared),
    ensures
        saved.target_name@ == wide_of("DeepSeekStatusWidget/ApiKey"@),
        loaded.target_name@ == saved.target_name@,
        cleared.target_name@ == saved.target_name@,
        saved.type_ == 1 && loaded.type_ == 1 && cleared.type_ == 1,
        saved.persist == 2 && saved.flags == 0 && saved.attribute_count == 0,
        saved.user_name@ == wide_of("DeepSeekStatusWidget"@),
        saved.credential_blob@ == le_bytes(units_of(key@)),
{
    law_what_is_written(saved, API_TARGET@, key@);
}

/// The login is saved, loaded and cleared under another name in the same way, and
/// what is saved is the login that `normalize_user_token` finds.
pub proof fn law_login_has_one_record(
    token: &str,
    login: String,
    saved: Credential,
    loaded: CredentialName,
    cleared: CredentialName,
)
    requires
        call_ensures(normalize_user_token, (token,), login),
        call_ensures(save_user_token, (token,), saved),
        call_ensures(load_user_token, (), loaded),
        call_ensures(clear_user_token, (), cleared),
    ensures
        saved.target_name@ == wide_of("DeepSeekStatusWidget/UserToken"@),
        loaded.target_name@ == saved.target_name@,
        cleared.target_name@ == saved.target_name@,
        saved.type_ == 1 && loaded.type_ == 1 && cleared.type_ == 1,
        saved.persist == 2 && saved.flags == 0 && saved.attribute_count == 0,
        saved.user_name@ == wide_of("DeepSeekStatusWidget"@),
        saved.credential_blob@ == le_bytes(units_of(login@)),
{
    law_what_is_written(saved, TOKEN_TARGET@, login@);
}

/// `read_outcome` gives back the secret that `write_cred` made a record of, where
/// the store finds its bytes; nothing where the read failed or found no record,
/// and the empty text where the record has no secret.
pub proof fn law_written_secret_is_read(
    target: &str,
    value: &str,
    written: Credential,
    status: i32,
    found: StoredCredential,
    read: Option<String>,
    nothing: Option<StoredCredential>,
    unread: Option<String>,
)
    requires
        call_ensures(write_cred, (target, value), written),
        call_ensures(read_outcome, (status, Some(found)), read),
        nothing is None,
        call_ensures(read_outcome, (status, nothing), unread),
    ensures
        status != 0 && found.credential_blob is Some && found.credential_blob->0@
            == written.credential_blob@ ==> read is Some && read->0@ == value@,
        status != 0 && found.credential_blob is None ==> read is Some && read->0@.len() == 0,
        status == 0 ==> read is None,
        unread is None,
{
    law_utf16le_round_trip(value@);
}

/// A write has succeeded where the status is not 0, a removal where it is; each
/// has its message otherwise.
pub proof fn law_outcomes_of_the_store(
    status: i32,
    written: Result<(), String>,
    removed: Result<(), String>,
)
    requires
        call_ensures(write_outcome, (status,), written),
        call_ensures(delete_outcome, (status,), removed),
    ensures
        written is Ok <==> status != 0,
        written is Err ==> written->Err_0@ == "保存到 Windows 凭据管理器失败"@,
        removed is Ok <==> status == 0,
        removed is Err ==> removed->Err_0@ == "清除失败"@,
{
}

/// `write_cred`, `read_cred` and `delete_cred` mean the same record by the same
/// name, and the record has the secret in it.
pub proof fn law_one_name_means_one_record(
    target: &str,
    value: &str,
    written: Credential,
    read: CredentialName,
    deleted: CredentialName,
)
    requires
        call_ensures(write_cred, (target, value), written),
        call_ensures(read_cred, (target,), read),
        call_ensures(delete_cred, (target,), deleted),
    ensures
        written.target_name@ == wide_of(target@),
        read.target_name@ == written.target_name@,
        deleted.target_name@ == written.target_name@,
        written.type_ == 1 && read.type_ == 1 && deleted.type_ == 1,
        written.persist == 2 && written.flags == 0 && written.attribute_count == 0,
        written.user_name@ == wide_of("DeepSeekStatusWidget"@),
        written.credential_blob@ == le_bytes(units_of(value@)),
        written.credential_blob@.len() <= u32::MAX ==> written.credential_blob_size
            == written.credential_blob@.len(),
{
    law_what_is_written(written, target@, value@);
}

} // verus!
