//! The life of a database: create, rename, rotate its token, delete.
//!
//! Each request runs through steps. A step is either the answer or a piece of work for the
//! caller (a look at the records, a change of a namespace, a copy of a file), who does the work
//! and hands its outcome to the next function.

use vstd::prelude::*;

use crate::auth::{carries_key, require_admin};
use crate::encoding::base64_url;
use crate::headers::header_text;
use crate::http::{error_response, ErrorReply, Status};
use crate::namespace_config::RestoreOption;
use crate::platform::{
    authority, client_url, connection_host, host_of, is_database_id, is_host_of_url,
    lemma_client_url, lemma_host_matches_url, port_is_implied, valid_database_id, MinitursoConfig,
};
use crate::records::{
    database_file, database_path, describes, enrich_database, file_stats, read_stats, texts,
    DatabaseRecord, DatabaseView,
};
use crate::text::{is_decimal_of, joined, opt_string, str_eq};
use crate::token::{
    ed25519_public_key, generate_keypair, is_utc_time, lemma_token_tells_claims,
    lemma_token_verifies, rfc3339_now, sign_token_at, signature_holds, token, unix_now,
    verifies_under, SigningKey,
};

verus! {

/// How long a token is valid, in seconds: 90 days.
pub const TOKEN_LIFETIME_SECS: i64 = 90 * 24 * 3600;

// Requests.

/// A request to create a database.
#[derive(Debug)]
pub struct CreateDatabaseReq {
    pub id: Option<String>,
}

/// A request to rename a database.
#[derive(Debug)]
pub struct RenameDatabaseReq {
    pub id: Option<String>,
}

/// A request to check the admin key.
#[derive(Debug)]
pub struct VerifyKeyReq {
    pub key: Option<String>,
}

// Who may ask.

/// The admin key of the platform, if it is configured.
pub open spec fn configured_key(platform: Option<&MinitursoConfig>) -> Option<Seq<char>> {
    match platform {
        Some(config) => Some(config.admin_key@),
        None => None,
    }
}

/// How the platform refuses a request before it looks at it, or `None` when it does not.
pub open spec fn platform_refusal(
    admin_key: Option<Seq<char>>,
    header: Option<Seq<char>>,
) -> Option<(Status, Seq<char>)> {
    match admin_key {
        None => Some((Status::ServiceUnavailable, "miniturso not configured"@)),
        Some(key) => if carries_key(header, key) {
            None
        } else {
            Some((Status::Unauthorized, "Unauthorized"@))
        },
    }
}

/// Lets a request in if the platform is configured and the request carries the admin key.
pub fn authorized<'a>(
    platform: Option<&'a MinitursoConfig>,
    headers: &hyper::HeaderMap<hyper::header::HeaderValue>,
) -> (r: Result<&'a MinitursoConfig, ErrorReply>)
    ensures
        match r {
            Ok(config) => platform_refusal(
                configured_key(platform),
                header_text(*headers, "authorization"@),
            ) is None && platform == Some(config),
            Err(e) => platform_refusal(
                configured_key(platform),
                header_text(*headers, "authorization"@),
            ) == Some(e@),
        },
{
    match platform {
        None => Err(error_response(Status::ServiceUnavailable, "miniturso not configured")),
        Some(config) => match require_admin(headers, config.admin_key.as_str()) {
            Ok(()) => Ok(config),
            Err(status) => Err(error_response(status, "Unauthorized")),
        },
    }
}

/// Tells whether a key is the admin key. Without a platform no key is.
pub fn verify_key(platform: Option<&MinitursoConfig>, body: &VerifyKeyReq) -> (r: bool)
    ensures
        r == match platform {
            Some(config) => opt_string(body.key) == Some(config.admin_key@),
            None => false,
        },
{
    match platform {
        Some(config) => match &body.key {
            Some(key) => str_eq(key.as_str(), config.admin_key.as_str()),
            None => false,
        },
        None => false,
    }
}

// Ids.

/// Why an id in a request is refused, if it is.
pub open spec fn id_refusal(id: Option<Seq<char>>) -> Option<(Status, Seq<char>)> {
    match id {
        None => Some((Status::BadRequest, "id is required"@)),
        Some(id) => if is_database_id(id) {
            None
        } else {
            Some((Status::BadRequest, "id must be 1-36 characters, only [0-9a-z]"@))
        },
    }
}

fn require_id(id: Option<String>) -> (r: Result<String, ErrorReply>)
    ensures
        match r {
            Ok(text) => id_refusal(opt_string(id)) is None && id == Some(text),
            Err(e) => id_refusal(opt_string(id)) == Some(e@),
        },
{
    match id {
        None => Err(error_response(Status::BadRequest, "id is required")),
        Some(text) => if valid_database_id(text.as_str()) {
            Ok(text)
        } else {
            Err(
                error_response(
                    Status::BadRequest,
                    "id must be 1-36 characters, only [0-9a-z]",
                ),
            )
        },
    }
}

// Keys and credentials.

/// A fresh key pair.
pub struct Keys {
    pub signing_key: SigningKey,
    pub public_key: String,
}

impl Keys {
    /// The public key belongs to the signing key.
    pub open spec fn matched(&self) -> bool {
        &&& self.public_key@ == base64_url(ed25519_public_key(self.signing_key@))
        &&& ed25519_public_key(self.signing_key@).len() == 32
    }
}

fn fresh_keys() -> (r: Keys)
    ensures
        r.matched(),
{
    let (signing_key, public_key) = generate_keypair();
    Keys { signing_key, public_key }
}

/// A namespace that is created or changed: its name, and the public key that its tokens are
/// checked with.
#[derive(Debug)]
pub struct NamespaceKey {
    pub name: String,
    pub jwt_key: String,
}

/// Whether a namespace has a name and the public one of a pair of keys.
pub open spec fn is_keyed(namespace: NamespaceKey, name: Seq<char>, keys: Keys) -> bool {
    namespace.name@ == name && namespace.jwt_key == keys.public_key
}

fn keyed(name: &str, keys: &Keys) -> (r: NamespaceKey)
    ensures
        is_keyed(r, name@, *keys),
{
    NamespaceKey { name: name.to_owned(), jwt_key: keys.public_key.clone() }
}

/// Whether a text is a token for a namespace that is valid for the usual time from some second
/// that the clock can show, and whose signature holds.
pub open spec fn is_fresh_token(text: Seq<char>, namespace: Seq<char>, secret: Seq<u8>) -> bool {
    exists|now: i64|
        0 <= now < 0x800_0000_0000 && text == #[trigger] token(
            namespace,
            secret,
            now + TOKEN_LIFETIME_SECS,
        ) && signature_holds(namespace, secret, now + TOKEN_LIFETIME_SECS)
}

/// What a client needs to use a database.
#[derive(Debug)]
pub struct Credentials {
    pub id: String,
    pub namespace: String,
    pub token: String,
    pub host: String,
    pub connection_url: String,
    /// Not part of the answer to a rotation.
    pub created_at: Option<String>,
}

/// Whether credentials are those of a record and a token.
pub open spec fn is_credentials(
    c: Credentials,
    config: MinitursoConfig,
    record: DatabaseRecord,
    token: String,
    with_created_at: bool,
) -> bool {
    &&& c.id == record.id
    &&& c.namespace == record.namespace
    &&& c.token == token
    &&& c.host@ == host_of(client_url(config))
    &&& c.connection_url@ == client_url(config)
    &&& c.created_at == if with_created_at {
        Some(record.created_at)
    } else {
        None
    }
}

fn credentials(
    config: &MinitursoConfig,
    record: DatabaseRecord,
    token: String,
    with_created_at: bool,
) -> (r: Credentials)
    ensures
        is_credentials(r, *config, record, token, with_created_at),
{
    let connection_url = config.connection_url();
    let host = connection_host(connection_url.as_str());
    let created_at = if with_created_at {
        Some(record.created_at)
    } else {
        None
    };
    Credentials {
        id: record.id,
        namespace: record.namespace,
        token,
        host,
        connection_url,
        created_at,
    }
}

/// Whether a reply is an internal error with a message.
pub open spec fn is_internal(e: ErrorReply, message: Seq<char>) -> bool {
    e@ == (Status::InternalServerError, message)
}

fn internal(label: &str, message: &str) -> (r: ErrorReply)
    ensures
        is_internal(r, label@ + message@),
{
    ErrorReply { status: Status::InternalServerError, message: joined(label, message) }
}

fn internal_plain(message: &str) -> (r: ErrorReply)
    ensures
        is_internal(r, message@),
{
    error_response(Status::InternalServerError, message)
}

// Records.

/// Whether a record is that of a database with an id, a pair of keys and a creation time.
pub open spec fn is_record_of(
    record: DatabaseRecord,
    id: Seq<char>,
    keys: Keys,
    created_at: Seq<char>,
) -> bool {
    &&& record.id@ == id
    &&& record.namespace@ == id
    &&& record.jwt_public_key == keys.public_key
    &&& record.jwt_private_key@ == base64_url(keys.signing_key@)
    &&& record.created_at@ == created_at
    &&& record.last_accessed_at is None
}

/// The record of a database, and a token that is signed at `now`.
pub fn make_record(id: &str, keys: Keys, created_at: String, now: i64) -> (r: (
    DatabaseRecord,
    String,
))
    requires
        now <= i64::MAX - TOKEN_LIFETIME_SECS,
    ensures
        is_record_of(r.0, id@, keys, created_at@),
        r.1@ == token(id@, keys.signing_key@, now + TOKEN_LIFETIME_SECS),
        signature_holds(id@, keys.signing_key@, now + TOKEN_LIFETIME_SECS),
{
    let text = sign_token_at(id, &keys.signing_key, now, TOKEN_LIFETIME_SECS);
    let jwt_private_key = keys.signing_key.secret_text();
    let record = DatabaseRecord {
        id: id.to_owned(),
        namespace: id.to_owned(),
        jwt_public_key: keys.public_key,
        jwt_private_key,
        created_at,
        last_accessed_at: None,
    };
    (record, text)
}

// Create.

/// A step of the creation of a database.
pub enum CreateStep {
    /// The request is refused.
    Refuse(ErrorReply),
    /// Look whether there is a record with the id. A record that cannot be read counts as none.
    Lookup { id: String },
    /// Create the namespace from this state, with the default configuration and the key.
    CreateNamespace {
        namespace: NamespaceKey,
        restore: RestoreOption,
        id: String,
        keys: Keys,
    },
    /// Insert the record.
    Insert { record: DatabaseRecord, token: String },
    /// The database is there; answer with `201`.
    Reply(Credentials),
}

/// How the creation of a database is refused at once, or `None` when it is not.
pub open spec fn create_refusal(
    admin_key: Option<Seq<char>>,
    header: Option<Seq<char>>,
    id: Option<Seq<char>>,
) -> Option<(Status, Seq<char>)> {
    match platform_refusal(admin_key, header) {
        Some(e) => Some(e),
        None => id_refusal(id),
    }
}

/// Starts to create a database.
pub fn create_database(
    platform: Option<&MinitursoConfig>,
    headers: &hyper::HeaderMap<hyper::header::HeaderValue>,
    body: CreateDatabaseReq,
) -> (r: CreateStep)
    ensures
        match create_refusal(
            configured_key(platform),
            header_text(*headers, "authorization"@),
            opt_string(body.id),
        ) {
            Some(error) => r matches CreateStep::Refuse(e) && e@ == error,
            None => r matches CreateStep::Lookup { id } && body.id == Some(id),
        },
{
    match authorized(platform, headers) {
        Err(e) => CreateStep::Refuse(e),
        Ok(_) => match require_id(body.id) {
            Err(e) => CreateStep::Refuse(e),
            Ok(id) => CreateStep::Lookup { id },
        },
    }
}

/// Goes on once it is known whether the id is taken.
pub fn create_after_lookup(id: String, found: bool) -> (r: CreateStep)
    ensures
        if found {
            r matches CreateStep::Refuse(e) && e@ == (
                Status::Conflict,
                "A database with this id already exists"@,
            )
        } else {
            r matches CreateStep::CreateNamespace { namespace, restore, id: i, keys } && i == id
                && restore == RestoreOption::Latest && keys.matched() && is_keyed(
                namespace,
                id@,
                keys,
            )
        },
{
    if found {
        CreateStep::Refuse(
            error_response(Status::Conflict, "A database with this id already exists"),
        )
    } else {
        let keys = fresh_keys();
        let namespace = keyed(id.as_str(), &keys);
        CreateStep::CreateNamespace { namespace, restore: RestoreOption::Latest, id, keys }
    }
}

/// Goes on once the namespace was created, or could not be.
pub fn create_after_namespace(id: String, keys: Keys, outcome: Result<(), String>) -> (r: CreateStep)
    ensures
        match outcome {
            Err(message) => r matches CreateStep::Refuse(e) && is_internal(
                e,
                "failed to create namespace: "@ + message@,
            ),
            Ok(()) => r matches CreateStep::Insert { record, token } && is_record_of(
                record,
                id@,
                keys,
                record.created_at@,
            ) && is_utc_time(record.created_at@) && is_fresh_token(
                token@,
                id@,
                keys.signing_key@,
            ),
        },
{
    match outcome {
        Err(message) => CreateStep::Refuse(
            internal("failed to create namespace: ", message.as_str()),
        ),
        Ok(()) => {
            let (record, token) = make_record(id.as_str(), keys, rfc3339_now(), unix_now());
            CreateStep::Insert { record, token }
        },
    }
}

/// Finishes once the record was inserted, or could not be.
pub fn create_after_insert(
    config: &MinitursoConfig,
    record: DatabaseRecord,
    token: String,
    outcome: Result<(), String>,
) -> (r: CreateStep)
    ensures
        match outcome {
            Err(message) => r matches CreateStep::Refuse(e) && is_internal(e, message@),
            Ok(()) => r matches CreateStep::Reply(c) && is_credentials(
                c,
                *config,
                record,
                token,
                true,
            ),
        },
{
    match outcome {
        Err(message) => CreateStep::Refuse(internal_plain(message.as_str())),
        Ok(()) => CreateStep::Reply(credentials(config, record, token, true)),
    }
}

// Rename.

/// The state of a rename.
pub struct Renaming {
    pub old_id: String,
    pub new_id: String,
    pub old_record: DatabaseRecord,
    pub keys: Keys,
}

/// A step of the renaming of a database.
pub enum RenameStep {
    /// The request is refused.
    Refuse(ErrorReply),
    /// Look for the record with the old id.
    LookupOld { old_id: String, new_id: String },
    /// Look whether there is a record with the new id.
    LookupNew { old_id: String, new_id: String, old_record: DatabaseRecord },
    /// Create the new namespace from this state, with the default configuration and the key.
    CreateNamespace { namespace: NamespaceKey, restore: RestoreOption, state: Renaming },
    /// Copy the database file of the old namespace to the new one, if there is one. The paths
    /// lie below the data directory.
    CopyDatabase { from: Vec<String>, to: Vec<String>, state: Renaming },
    /// Delete the old namespace, with its backups if they are pruned.
    DeleteNamespace { name: String, prune_all: bool, state: Renaming },
    /// Replace the record with the old id.
    Replace { old_id: String, record: DatabaseRecord, token: String },
    /// The database is renamed; answer with `200`.
    Reply(Credentials),
}

/// How the renaming of a database is refused at once, or `None` when it is not.
pub open spec fn rename_refusal(
    admin_key: Option<Seq<char>>,
    header: Option<Seq<char>>,
    old_id: Seq<char>,
    new_id: Option<Seq<char>>,
) -> Option<(Status, Seq<char>)> {
    match platform_refusal(admin_key, header) {
        Some(e) => Some(e),
        None => match id_refusal(new_id) {
            Some(e) => Some(e),
            None => if new_id == Some(old_id) {
                Some((Status::BadRequest, "new id must be different from current id"@))
            } else {
                None
            },
        },
    }
}

/// Starts to rename a database.
pub fn rename_database(
    platform: Option<&MinitursoConfig>,
    headers: &hyper::HeaderMap<hyper::header::HeaderValue>,
    old_id: String,
    body: RenameDatabaseReq,
) -> (r: RenameStep)
    ensures
        match rename_refusal(
            configured_key(platform),
            header_text(*headers, "authorization"@),
            old_id@,
            opt_string(body.id),
        ) {
            Some(error) => r matches RenameStep::Refuse(e) && e@ == error,
            None => r matches RenameStep::LookupOld { old_id: o, new_id: n } && o == old_id
                && body.id == Some(n),
        },
{
    match authorized(platform, headers) {
        Err(e) => RenameStep::Refuse(e),
        Ok(_) => match require_id(body.id) {
            Err(e) => RenameStep::Refuse(e),
            Ok(new_id) => if str_eq(new_id.as_str(), old_id.as_str()) {
                RenameStep::Refuse(
                    error_response(
                        Status::BadRequest,
                        "new id must be different from current id",
                    ),
                )
            } else {
                RenameStep::LookupOld { old_id, new_id }
            },
        },
    }
}

/// Goes on once the record with the old id was looked for.
pub fn rename_after_old(old_id: String, new_id: String, found: Option<DatabaseRecord>) -> (r:
    RenameStep)
    ensures
        match found {
            None => r matches RenameStep::Refuse(e) && e@ == (
                Status::NotFound,
                "Database not found"@,
            ),
            Some(record) => r == (RenameStep::LookupNew { old_id, new_id, old_record: record }),
        },
{
    match found {
        None => RenameStep::Refuse(error_response(Status::NotFound, "Database not found")),
        Some(old_record) => RenameStep::LookupNew { old_id, new_id, old_record },
    }
}

/// Goes on once it is known whether the new id is taken.
pub fn rename_after_new(
    old_id: String,
    new_id: String,
    old_record: DatabaseRecord,
    found: bool,
) -> (r: RenameStep)
    ensures
        if found {
            r matches RenameStep::Refuse(e) && e@ == (
                Status::Conflict,
                "A database with this id already exists"@,
            )
        } else {
            r matches RenameStep::CreateNamespace { namespace, restore, state } && restore
                == RestoreOption::Latest && state.old_id == old_id && state.new_id == new_id
                && state.old_record == old_record && state.keys.matched() && is_keyed(
                namespace,
                new_id@,
                state.keys,
            )
        },
{
    if found {
        RenameStep::Refuse(
            error_response(Status::Conflict, "A database with this id already exists"),
        )
    } else {
        let keys = fresh_keys();
        let namespace = keyed(new_id.as_str(), &keys);
        RenameStep::CreateNamespace {
            namespace,
            restore: RestoreOption::Latest,
            state: Renaming { old_id, new_id, old_record, keys },
        }
    }
}

/// Goes on once the new namespace was created, or could not be.
pub fn rename_after_namespace(state: Renaming, outcome: Result<(), String>) -> (r: RenameStep)
    ensures
        match outcome {
            Err(message) => r matches RenameStep::Refuse(e) && is_internal(
                e,
                "failed to create namespace: "@ + message@,
            ),
            Ok(()) => r matches RenameStep::CopyDatabase { from, to, state: s } && s == state
                && texts(from@) == database_file(state.old_record.namespace@) && texts(to@)
                == database_file(state.new_id@),
        },
{
    match outcome {
        Err(message) => RenameStep::Refuse(
            internal("failed to create namespace: ", message.as_str()),
        ),
        Ok(()) => RenameStep::CopyDatabase {
            from: database_path(state.old_record.namespace.as_str()),
            to: database_path(state.new_id.as_str()),
            state,
        },
    }
}

/// Goes on once the file was copied, or could not be. A file that is not there needs no copy.
/// The old namespace is deleted only when its data is safe.
pub fn rename_after_copy(state: Renaming, outcome: Result<(), String>) -> (r: RenameStep)
    ensures
        match outcome {
            Err(message) => r matches RenameStep::Refuse(e) && is_internal(e, message@),
            Ok(()) => r == (RenameStep::DeleteNamespace {
                name: state.old_record.namespace,
                prune_all: true,
                state,
            }),
        },
{
    match outcome {
        Err(message) => RenameStep::Refuse(internal_plain(message.as_str())),
        Ok(()) => RenameStep::DeleteNamespace {
            name: state.old_record.namespace.clone(),
            prune_all: true,
            state,
        },
    }
}

/// Goes on once the old namespace was deleted, or could not be.
pub fn rename_after_delete(state: Renaming, outcome: Result<(), String>) -> (r: RenameStep)
    ensures
        match outcome {
            Err(message) => r matches RenameStep::Refuse(e) && is_internal(
                e,
                "failed to delete old namespace: "@ + message@,
            ),
            Ok(()) => r matches RenameStep::Replace { old_id, record, token } && old_id
                == state.old_id && is_record_of(
                record,
                state.new_id@,
                state.keys,
                state.old_record.created_at@,
            ) && is_fresh_token(token@, state.new_id@, state.keys.signing_key@),
        },
{
    match outcome {
        Err(message) => RenameStep::Refuse(
            internal("failed to delete old namespace: ", message.as_str()),
        ),
        Ok(()) => {
            let Renaming { old_id, new_id, old_record, keys } = state;
            let (record, token) = make_record(
                new_id.as_str(),
                keys,
                old_record.created_at,
                unix_now(),
            );
            RenameStep::Replace { old_id, record, token }
        },
    }
}

/// Finishes once the record was replaced, or could not be.
pub fn rename_after_replace(
    config: &MinitursoConfig,
    record: DatabaseRecord,
    token: String,
    outcome: Result<(), String>,
) -> (r: RenameStep)
    ensures
        match outcome {
            Err(message) => r matches RenameStep::Refuse(e) && is_internal(e, message@),
            Ok(()) => r matches RenameStep::Reply(c) && is_credentials(
                c,
                *config,
                record,
                token,
                true,
            ),
        },
{
    match outcome {
        Err(message) => RenameStep::Refuse(internal_plain(message.as_str())),
        Ok(()) => RenameStep::Reply(credentials(config, record, token, true)),
    }
}

// Rotate.

/// A step of the rotation of a database's token.
pub enum RotateStep {
    /// The request is refused.
    Refuse(ErrorReply),
    /// Look for the record with the id.
    Lookup { id: String },
    /// Give the namespace its new key.
    UpdateKey { namespace: NamespaceKey, id: String, record: DatabaseRecord, keys: Keys },
    /// Replace the record with the id.
    Replace { id: String, record: DatabaseRecord, token: String },
    /// The token is rotated; answer with `200`.
    Reply(Credentials),
}

/// Starts to rotate the token of a database.
pub fn rotate_token(
    platform: Option<&MinitursoConfig>,
    headers: &hyper::HeaderMap<hyper::header::HeaderValue>,
    id: String,
) -> (r: RotateStep)
    ensures
        match platform_refusal(configured_key(platform), header_text(*headers, "authorization"@)) {
            Some(error) => r matches RotateStep::Refuse(e) && e@ == error,
            None => r == (RotateStep::Lookup { id }),
        },
{
    match authorized(platform, headers) {
        Err(e) => RotateStep::Refuse(e),
        Ok(_) => RotateStep::Lookup { id },
    }
}

/// Goes on once the record was looked for.
pub fn rotate_after_lookup(id: String, found: Option<DatabaseRecord>) -> (r: RotateStep)
    ensures
        match found {
            None => r matches RotateStep::Refuse(e) && e@ == (
                Status::NotFound,
                "Database not found"@,
            ),
            Some(record) => r matches RotateStep::UpdateKey { namespace, id: i, record: rec, keys }
                && i == id && rec == record && keys.matched() && is_keyed(
                namespace,
                record.namespace@,
                keys,
            ),
        },
{
    match found {
        None => RotateStep::Refuse(error_response(Status::NotFound, "Database not found")),
        Some(record) => {
            let keys = fresh_keys();
            let namespace = keyed(record.namespace.as_str(), &keys);
            RotateStep::UpdateKey { namespace, id, record, keys }
        },
    }
}

/// Whether a record is another one with new keys.
pub open spec fn is_rekeyed(record: DatabaseRecord, old: DatabaseRecord, keys: Keys) -> bool {
    &&& record.id == old.id
    &&& record.namespace == old.namespace
    &&& record.created_at == old.created_at
    &&& record.last_accessed_at == old.last_accessed_at
    &&& record.jwt_public_key == keys.public_key
    &&& record.jwt_private_key@ == base64_url(keys.signing_key@)
}

/// The record with new keys, and a token that is signed at `now`.
pub fn rekey_record(record: DatabaseRecord, keys: Keys, now: i64) -> (r: (DatabaseRecord, String))
    requires
        now <= i64::MAX - TOKEN_LIFETIME_SECS,
    ensures
        is_rekeyed(r.0, record, keys),
        r.1@ == token(record.namespace@, keys.signing_key@, now + TOKEN_LIFETIME_SECS),
        signature_holds(record.namespace@, keys.signing_key@, now + TOKEN_LIFETIME_SECS),
{
    let text = sign_token_at(
        record.namespace.as_str(),
        &keys.signing_key,
        now,
        TOKEN_LIFETIME_SECS,
    );
    let jwt_private_key = keys.signing_key.secret_text();
    let new_record = DatabaseRecord { jwt_public_key: keys.public_key, jwt_private_key, ..record };
    (new_record, text)
}

/// Goes on once the key of the namespace was updated, or could not be.
pub fn rotate_after_update(
    id: String,
    record: DatabaseRecord,
    keys: Keys,
    outcome: Result<(), String>,
) -> (r: RotateStep)
    ensures
        match outcome {
            Err(message) => r matches RotateStep::Refuse(e) && is_internal(
                e,
                "failed to update namespace config: "@ + message@,
            ),
            Ok(()) => r matches RotateStep::Replace { id: i, record: rec, token } && i == id
                && is_rekeyed(rec, record, keys) && is_fresh_token(
                token@,
                record.namespace@,
                keys.signing_key@,
            ),
        },
{
    match outcome {
        Err(message) => RotateStep::Refuse(
            internal("failed to update namespace config: ", message.as_str()),
        ),
        Ok(()) => {
            let (new_record, token) = rekey_record(record, keys, unix_now());
            RotateStep::Replace { id, record: new_record, token }
        },
    }
}

/// Finishes once the record was replaced, or could not be.
pub fn rotate_after_replace(
    config: &MinitursoConfig,
    record: DatabaseRecord,
    token: String,
    outcome: Result<(), String>,
) -> (r: RotateStep)
    ensures
        match outcome {
            Err(message) => r matches RotateStep::Refuse(e) && is_internal(e, message@),
            Ok(()) => r matches RotateStep::Reply(c) && is_credentials(
                c,
                *config,
                record,
                token,
                false,
            ),
        },
{
    match outcome {
        Err(message) => RotateStep::Refuse(internal_plain(message.as_str())),
        Ok(()) => RotateStep::Reply(credentials(config, record, token, false)),
    }
}

// Delete.

/// A step of the deletion of a database.
pub enum DeleteStep {
    /// The request is refused.
    Refuse(ErrorReply),
    /// Look for the record with the id.
    Lookup { id: String },
    /// Delete the record's namespace, with its backups if they are pruned.
    DeleteNamespace { name: String, prune_all: bool, id: String, record: DatabaseRecord },
    /// Delete the record with the id.
    DeleteRecord { id: String, record: DatabaseRecord },
    /// The database is deleted; answer with `200`.
    Reply { id: String, namespace: String },
}

/// Starts to delete a database.
pub fn delete_database(
    platform: Option<&MinitursoConfig>,
    headers: &hyper::HeaderMap<hyper::header::HeaderValue>,
    id: String,
) -> (r: DeleteStep)
    ensures
        match platform_refusal(configured_key(platform), header_text(*headers, "authorization"@)) {
            Some(error) => r matches DeleteStep::Refuse(e) && e@ == error,
            None => r == (DeleteStep::Lookup { id }),
        },
{
    match authorized(platform, headers) {
        Err(e) => DeleteStep::Refuse(e),
        Ok(_) => DeleteStep::Lookup { id },
    }
}

/// Goes on once the record was looked for.
pub fn delete_after_lookup(id: String, found: Option<DatabaseRecord>) -> (r: DeleteStep)
    ensures
        match found {
            None => r matches DeleteStep::Refuse(e) && e@ == (
                Status::NotFound,
                "Database not found"@,
            ),
            Some(record) => r == (DeleteStep::DeleteNamespace {
                name: record.namespace,
                prune_all: true,
                id,
                record,
            }),
        },
{
    match found {
        None => DeleteStep::Refuse(error_response(Status::NotFound, "Database not found")),
        Some(record) => DeleteStep::DeleteNamespace {
            name: record.namespace.clone(),
            prune_all: true,
            id,
            record,
        },
    }
}

/// Goes on once the namespace was deleted, or could not be.
pub fn delete_after_namespace(id: String, record: DatabaseRecord, outcome: Result<(), String>) -> (r:
    DeleteStep)
    ensures
        match outcome {
            Err(message) => r matches DeleteStep::Refuse(e) && is_internal(
                e,
                "failed to delete namespace: "@ + message@,
            ),
            Ok(()) => r == (DeleteStep::DeleteRecord { id, record }),
        },
{
    match outcome {
        Err(message) => DeleteStep::Refuse(
            internal("failed to delete namespace: ", message.as_str()),
        ),
        Ok(()) => DeleteStep::DeleteRecord { id, record },
    }
}

/// Finishes once the record was deleted, or could not be.
pub fn delete_after_record(record: DatabaseRecord, outcome: Result<(), String>) -> (r: DeleteStep)
    ensures
        match outcome {
            Err(message) => r matches DeleteStep::Refuse(e) && is_internal(e, message@),
            Ok(()) => r == (DeleteStep::Reply { id: record.id, namespace: record.namespace }),
        },
{
    match outcome {
        Err(message) => DeleteStep::Refuse(internal_plain(message.as_str())),
        Ok(()) => DeleteStep::Reply { id: record.id, namespace: record.namespace },
    }
}

// List.

/// A step of a request for all databases.
pub enum ListStep {
    /// The request is refused.
    Refuse(ErrorReply),
    /// Read all records.
    List,
    /// Read the statistics file of each record.
    ReadStats { records: Vec<DatabaseRecord> },
}

/// Starts to list the databases.
pub fn list_databases(
    platform: Option<&MinitursoConfig>,
    headers: &hyper::HeaderMap<hyper::header::HeaderValue>,
) -> (r: ListStep)
    ensures
        match platform_refusal(configured_key(platform), header_text(*headers, "authorization"@)) {
            Some(error) => r matches ListStep::Refuse(e) && e@ == error,
            None => r is List,
        },
{
    match authorized(platform, headers) {
        Err(e) => ListStep::Refuse(e),
        Ok(_) => ListStep::List,
    }
}

/// Goes on once the records were read, or could not be.
pub fn list_after_records(records: Result<Vec<DatabaseRecord>, String>) -> (r: ListStep)
    ensures
        match records {
            Ok(list) => r == (ListStep::ReadStats { records: list }),
            Err(message) => r matches ListStep::Refuse(e) && is_internal(e, message@),
        },
{
    match records {
        Ok(list) => ListStep::ReadStats { records: list },
        Err(message) => ListStep::Refuse(internal_plain(message.as_str())),
    }
}

/// Reports the records, each with the content of its statistics file, in their order.
pub fn list_after_stats(
    config: &MinitursoConfig,
    records: &Vec<(DatabaseRecord, Option<String>)>,
) -> (r: Vec<DatabaseView>)
    ensures
        r@.len() == records@.len(),
        forall|i: int| #![trigger r@[i]]
            0 <= i < r@.len() ==> describes(
                r@[i],
                *config,
                file_stats(opt_string(records@[i].1)),
                records@[i].0,
            ),
{
    let mut out: Vec<DatabaseView> = Vec::new();
    let mut i: usize = 0;
    while i < records.len()
        invariant
            i <= records@.len(),
            out@.len() == i,
            forall|k: int| #![trigger out@[k]]
                0 <= k < i ==> describes(
                    out@[k],
                    *config,
                    file_stats(opt_string(records@[k].1)),
                    records@[k].0,
                ),
        decreases records@.len() - i,
    {
        out.push(get_after_stats(config, &records[i].0, &records[i].1));
        i = i + 1;
    }
    out
}

// Get.

/// A step of a request for one database.
pub enum GetStep {
    /// The request is refused.
    Refuse(ErrorReply),
    /// Look for the record with the id.
    Lookup { id: String },
    /// Read the statistics file of the record.
    ReadStats { record: DatabaseRecord },
}

/// Starts to report a database.
pub fn get_database(
    platform: Option<&MinitursoConfig>,
    headers: &hyper::HeaderMap<hyper::header::HeaderValue>,
    id: String,
) -> (r: GetStep)
    ensures
        match platform_refusal(configured_key(platform), header_text(*headers, "authorization"@)) {
            Some(error) => r matches GetStep::Refuse(e) && e@ == error,
            None => r == (GetStep::Lookup { id }),
        },
{
    match authorized(platform, headers) {
        Err(e) => GetStep::Refuse(e),
        Ok(_) => GetStep::Lookup { id },
    }
}

/// Goes on once the record was looked for.
pub fn get_after_lookup(found: Result<Option<DatabaseRecord>, String>) -> (r: GetStep)
    ensures
        match found {
            Ok(Some(record)) => r == (GetStep::ReadStats { record }),
            Ok(None) => r matches GetStep::Refuse(e) && e@ == (
                Status::NotFound,
                "Database not found"@,
            ),
            Err(message) => r matches GetStep::Refuse(e) && is_internal(e, message@),
        },
{
    match found {
        Ok(Some(record)) => GetStep::ReadStats { record },
        Ok(None) => GetStep::Refuse(error_response(Status::NotFound, "Database not found")),
        Err(message) => GetStep::Refuse(internal_plain(message.as_str())),
    }
}

/// Reports the record with the content of its statistics file.
pub fn get_after_stats(
    config: &MinitursoConfig,
    record: &DatabaseRecord,
    stats: &Option<String>,
) -> (r: DatabaseView)
    ensures
        describes(r, *config, file_stats(opt_string(*stats)), *record),
{
    let data = match stats {
        Some(text) => Some(text.as_str()),
        None => None,
    };
    enrich_database(config, read_stats(data), record)
}

// Laws.

/// What the records keep of a record: the time of the last access is not written.
pub open spec fn stored(record: DatabaseRecord) -> DatabaseRecord {
    DatabaseRecord { last_accessed_at: None, ..record }
}

/// The records after one was inserted.
pub open spec fn after_insert(
    records: Map<Seq<char>, DatabaseRecord>,
    record: DatabaseRecord,
) -> Map<Seq<char>, DatabaseRecord> {
    records.insert(record.id@, stored(record))
}

/// The records after the one with `old_id` was replaced.
pub open spec fn after_replace(
    records: Map<Seq<char>, DatabaseRecord>,
    old_id: Seq<char>,
    record: DatabaseRecord,
) -> Map<Seq<char>, DatabaseRecord> {
    records.remove(old_id).insert(record.id@, stored(record))
}

/// Every record is found under its own id, which is a valid id and the name of its namespace.
pub open spec fn consistent(records: Map<Seq<char>, DatabaseRecord>) -> bool {
    forall|id: Seq<char>| #[trigger]
        records.contains_key(id) ==> {
            &&& is_database_id(id)
            &&& records[id].id@ == id
            &&& records[id].namespace@ == id
        }
}

/// No two databases share a namespace.
pub proof fn lemma_namespaces_are_unique(
    records: Map<Seq<char>, DatabaseRecord>,
    a: Seq<char>,
    b: Seq<char>,
)
    requires
        consistent(records),
        records.contains_key(a),
        records.contains_key(b),
        records[a].namespace@ == records[b].namespace@,
    ensures
        a == b,
{
}

/// A request to create a database that is not refused adds one record, under the id that was
/// asked for, and leaves the others as they are.
pub proof fn lemma_create_adds_a_record(
    records: Map<Seq<char>, DatabaseRecord>,
    admin_key: Option<Seq<char>>,
    header: Option<Seq<char>>,
    id: Seq<char>,
    keys: Keys,
    created_at: Seq<char>,
    record: DatabaseRecord,
)
    requires
        consistent(records),
        create_refusal(admin_key, header, Some(id)) is None,
        !records.contains_key(id),
        is_record_of(record, id, keys, created_at),
    ensures
        consistent(after_insert(records, record)),
        after_insert(records, record).contains_key(id),
        after_insert(records, record).remove(id) == records,
        after_insert(records, record)[id] == record,
{
    assert(after_insert(records, record).remove(id) =~= records);
}

/// A rename that is not refused moves one record to the new id. The record keeps its creation
/// time, the old id is free again, and the other records stay as they are.
pub proof fn lemma_rename_moves_a_record(
    records: Map<Seq<char>, DatabaseRecord>,
    admin_key: Option<Seq<char>>,
    header: Option<Seq<char>>,
    old_id: Seq<char>,
    new_id: Seq<char>,
    keys: Keys,
    record: DatabaseRecord,
)
    requires
        consistent(records),
        rename_refusal(admin_key, header, old_id, Some(new_id)) is None,
        records.contains_key(old_id),
        !records.contains_key(new_id),
        is_record_of(record, new_id, keys, records[old_id].created_at@),
    ensures
        consistent(after_replace(records, old_id, record)),
        !after_replace(records, old_id, record).contains_key(old_id),
        after_replace(records, old_id, record).contains_key(new_id),
        after_replace(records, old_id, record)[new_id].created_at@ == records[old_id].created_at@,
        after_replace(records, old_id, record).remove(new_id) == records.remove(old_id),
{
    assert(after_replace(records, old_id, record).remove(new_id) =~= records.remove(old_id));
}

/// The files below the data directory after one was copied, if it is there.
pub open spec fn after_copy(
    files: Map<Seq<Seq<char>>, Seq<u8>>,
    from: Seq<Seq<char>>,
    to: Seq<Seq<char>>,
) -> Map<Seq<Seq<char>>, Seq<u8>> {
    if files.contains_key(from) {
        files.insert(to, files[from])
    } else {
        files
    }
}

/// The files below the data directory after a namespace was deleted: only those of other
/// namespaces are left.
pub open spec fn after_destroy(
    files: Map<Seq<Seq<char>>, Seq<u8>>,
    namespace: Seq<char>,
) -> Map<Seq<Seq<char>>, Seq<u8>> {
    files.remove_keys(
        Set::new(|path: Seq<Seq<char>>| path.len() > 1 && path[0] == "dbs"@ && path[1] == namespace),
    )
}

/// A rename keeps the data: once the file was copied and the old namespace deleted, the database
/// file of the new namespace holds what that of the old one held.
pub proof fn lemma_rename_keeps_data(
    records: Map<Seq<char>, DatabaseRecord>,
    files: Map<Seq<Seq<char>>, Seq<u8>>,
    admin_key: Option<Seq<char>>,
    header: Option<Seq<char>>,
    old_id: Seq<char>,
    new_id: Seq<char>,
)
    requires
        consistent(records),
        rename_refusal(admin_key, header, old_id, Some(new_id)) is None,
        records.contains_key(old_id),
        files.contains_key(database_file(records[old_id].namespace@)),
    ensures
        ({
            let namespace = records[old_id].namespace@;
            let copied = after_copy(files, database_file(namespace), database_file(new_id));
            let left = after_destroy(copied, namespace);
            &&& left.contains_key(database_file(new_id))
            &&& left[database_file(new_id)] == files[database_file(namespace)]
        }),
{
    assert(database_file(new_id)[1] == new_id);
}

/// A rotation changes the keys of one record and nothing else: the ids, the namespaces and the
/// creation times stay, and so do the other records.
pub proof fn lemma_rotate_changes_keys_only(
    records: Map<Seq<char>, DatabaseRecord>,
    id: Seq<char>,
    keys: Keys,
    record: DatabaseRecord,
)
    requires
        consistent(records),
        records.contains_key(id),
        is_rekeyed(record, records[id], keys),
    ensures
        consistent(after_replace(records, id, record)),
        after_replace(records, id, record).dom() == records.dom(),
        after_replace(records, id, record)[id].namespace == records[id].namespace,
        after_replace(records, id, record)[id].created_at == records[id].created_at,
        after_replace(records, id, record)[id].jwt_public_key == keys.public_key,
        after_replace(records, id, record).remove(id) == records.remove(id),
{
    assert(after_replace(records, id, record).dom() =~= records.dom());
    assert(after_replace(records, id, record).remove(id) =~= records.remove(id));
}

/// A deletion leaves the other records as they are, and frees the id for a new database.
pub proof fn lemma_delete_frees_the_id(records: Map<Seq<char>, DatabaseRecord>, id: Seq<char>)
    requires
        consistent(records),
    ensures
        consistent(records.remove(id)),
        !records.remove(id).contains_key(id),
        forall|other: Seq<char>|
            other != id ==> (#[trigger] records.remove(id).contains_key(other)
                == records.contains_key(other)),
{
}

/// Whether a token opens the namespace of a record: it is signed with the record's private
/// key, whose public key the record holds.
pub open spec fn opens(text: Seq<char>, record: DatabaseRecord) -> bool {
    exists|secret: Seq<u8>|
        {
            &&& record.jwt_private_key@ == base64_url(secret)
            &&& record.jwt_public_key@ == base64_url(ed25519_public_key(secret))
            &&& #[trigger] is_fresh_token(text, record.namespace@, secret)
        }
}

/// The token that a creation or a rename hands out opens the namespace of the record that it
/// writes.
pub proof fn lemma_new_token_opens_record(
    record: DatabaseRecord,
    id: Seq<char>,
    keys: Keys,
    created_at: Seq<char>,
    text: Seq<char>,
)
    requires
        keys.matched(),
        is_record_of(record, id, keys, created_at),
        is_fresh_token(text, id, keys.signing_key@),
    ensures
        opens(text, record),
{
    assert(is_fresh_token(text, record.namespace@, keys.signing_key@));
}

/// The token that a rotation hands out opens the namespace of the record that it writes.
pub proof fn lemma_rotated_token_opens_record(
    record: DatabaseRecord,
    old_record: DatabaseRecord,
    keys: Keys,
    text: Seq<char>,
)
    requires
        keys.matched(),
        is_rekeyed(record, old_record, keys),
        is_fresh_token(text, old_record.namespace@, keys.signing_key@),
    ensures
        opens(text, record),
{
    assert(is_fresh_token(text, record.namespace@, keys.signing_key@));
}

/// A token that opens the namespace of a record verifies under the public key of the record.
pub proof fn lemma_opening_token_verifies(text: Seq<char>, record: DatabaseRecord)
    requires
        opens(text, record),
    ensures
        verifies_under(text, record.jwt_public_key@),
{
    let secret = choose|secret: Seq<u8>|
        {
            &&& record.jwt_private_key@ == base64_url(secret)
            &&& record.jwt_public_key@ == base64_url(ed25519_public_key(secret))
            &&& #[trigger] is_fresh_token(text, record.namespace@, secret)
        };
    let now = choose|now: i64|
        0 <= now < 0x800_0000_0000 && text == #[trigger] token(
            record.namespace@,
            secret,
            now + TOKEN_LIFETIME_SECS,
        ) && signature_holds(record.namespace@, secret, now + TOKEN_LIFETIME_SECS);
    lemma_token_verifies(
        record.namespace@,
        secret,
        now + TOKEN_LIFETIME_SECS,
        record.jwt_public_key@,
    );
}

/// A token that opens a namespace opens no other one.
pub proof fn lemma_token_opens_one_namespace(text: Seq<char>, a: DatabaseRecord, b: DatabaseRecord)
    requires
        opens(text, a),
        opens(text, b),
    ensures
        a.namespace@ == b.namespace@,
{
    let s = choose|s: Seq<u8>| #[trigger] is_fresh_token(text, a.namespace@, s);
    let t = choose|t: Seq<u8>| #[trigger] is_fresh_token(text, b.namespace@, t);
    let n = choose|n: i64|
        0 <= n < 0x800_0000_0000 && text == #[trigger] token(
            a.namespace@,
            s,
            n + TOKEN_LIFETIME_SECS,
        );
    let m = choose|m: i64|
        0 <= m < 0x800_0000_0000 && text == #[trigger] token(
            b.namespace@,
            t,
            m + TOKEN_LIFETIME_SECS,
        );
    lemma_token_tells_claims(
        a.namespace@,
        s,
        n + TOKEN_LIFETIME_SECS,
        b.namespace@,
        t,
        m + TOKEN_LIFETIME_SECS,
    );
}


// What requests come to.

/// Whether a request is let in: there is a platform, and the request carries its admin key.
pub open spec fn let_in(
    platform: Option<&MinitursoConfig>,
    headers: hyper::HeaderMap<hyper::header::HeaderValue>,
) -> bool {
    platform matches Some(config) && carries_key(
        header_text(headers, "authorization"@),
        config.admin_key@,
    )
}

/// Whether a reply tells why a request is not let in: `401` where there is a platform, `503`
/// where there is none.
pub open spec fn is_shut_out(platform: Option<&MinitursoConfig>, e: ErrorReply) -> bool {
    if platform is Some {
        e.status.spec_code() == 401 && e.message@ == "Unauthorized"@
    } else {
        e.status.spec_code() == 503 && e.message@ == "miniturso not configured"@
    }
}

/// A request is let in exactly if there is a platform whose admin key it carries, and is then
/// served by that platform.
pub proof fn lemma_let_in(
    platform: Option<&MinitursoConfig>,
    headers: &hyper::HeaderMap<hyper::header::HeaderValue>,
    r: Result<&MinitursoConfig, ErrorReply>,
)
    requires
        call_ensures(authorized, (platform, headers), r),
    ensures
        r is Ok <==> let_in(platform, *headers),
        r matches Ok(config) ==> platform == Some(config),
        r matches Err(e) ==> is_shut_out(platform, e),
{
}

/// Who carries the admin key may list, look at, rotate and delete every database; who does not is
/// refused, whatever the id. The request goes on with the id that it names.
pub proof fn lemma_key_opens_databases(
    platform: Option<&MinitursoConfig>,
    headers: &hyper::HeaderMap<hyper::header::HeaderValue>,
    id: String,
    list: ListStep,
    get: GetStep,
    rotate: RotateStep,
    delete: DeleteStep,
)
    requires
        call_ensures(list_databases, (platform, headers), list),
        call_ensures(get_database, (platform, headers, id), get),
        call_ensures(rotate_token, (platform, headers, id), rotate),
        call_ensures(delete_database, (platform, headers, id), delete),
    ensures
        if let_in(platform, *headers) {
            &&& list is List
            &&& get matches GetStep::Lookup { id: i } && i == id
            &&& rotate matches RotateStep::Lookup { id: i } && i == id
            &&& delete matches DeleteStep::Lookup { id: i } && i == id
        } else {
            &&& list matches ListStep::Refuse(e) && is_shut_out(platform, e)
            &&& get matches GetStep::Refuse(e) && is_shut_out(platform, e)
            &&& rotate matches RotateStep::Refuse(e) && is_shut_out(platform, e)
            &&& delete matches DeleteStep::Refuse(e) && is_shut_out(platform, e)
        },
{
}

/// Whether a reply tells what is wrong with an id: it is missing, or not valid.
pub open spec fn is_bad_id(id: Option<Seq<char>>, e: ErrorReply) -> bool {
    e.status.spec_code() == 400 && e.message@ == if id is None {
        "id is required"@
    } else {
        "id must be 1-36 characters, only [0-9a-z]"@
    }
}

/// A request to create a database that is let in goes on exactly if it names a valid id, and then
/// with that id.
pub proof fn lemma_create_starts(
    platform: Option<&MinitursoConfig>,
    headers: &hyper::HeaderMap<hyper::header::HeaderValue>,
    body: CreateDatabaseReq,
    r: CreateStep,
)
    requires
        call_ensures(create_database, (platform, headers, body), r),
    ensures
        !let_in(platform, *headers) ==> (r matches CreateStep::Refuse(e) && is_shut_out(
            platform,
            e,
        )),
        let_in(platform, *headers) && (body.id matches Some(id) && is_database_id(id@)) ==> (
        r matches CreateStep::Lookup { id } && Some(id) == body.id),
        let_in(platform, *headers) && !(body.id matches Some(id) && is_database_id(id@)) ==> (
        r matches CreateStep::Refuse(e) && is_bad_id(opt_string(body.id), e)),
{
}

/// A request to rename a database that is let in goes on exactly if it names a valid id that is
/// not the old one, and then with both ids.
pub proof fn lemma_rename_starts(
    platform: Option<&MinitursoConfig>,
    headers: &hyper::HeaderMap<hyper::header::HeaderValue>,
    old_id: String,
    body: RenameDatabaseReq,
    r: RenameStep,
)
    requires
        call_ensures(rename_database, (platform, headers, old_id, body), r),
    ensures
        !let_in(platform, *headers) ==> (r matches RenameStep::Refuse(e) && is_shut_out(
            platform,
            e,
        )),
        let_in(platform, *headers) && (body.id matches Some(id) && is_database_id(id@) && id@
            != old_id@) ==> (r matches RenameStep::LookupOld { old_id: o, new_id: n } && o == old_id
            && Some(n) == body.id),
        let_in(platform, *headers) && !(body.id matches Some(id) && is_database_id(id@)) ==> (
        r matches RenameStep::Refuse(e) && is_bad_id(opt_string(body.id), e)),
        let_in(platform, *headers) && is_database_id(old_id@) && opt_string(body.id) == Some(
            old_id@,
        ) ==> (r matches RenameStep::Refuse(e) && e.status.spec_code() == 400 && e.message@
            == "new id must be different from current id"@),
{
}

/// The refusals of a rename, over texts: with the admin key, a rename to a valid id is refused at
/// once only if the id stays the same.
pub proof fn lemma_rename_refused_only_to_itself(
    key: Seq<char>,
    header: Option<Seq<char>>,
    old_id: Seq<char>,
    new_id: Seq<char>,
)
    requires
        carries_key(header, key),
        is_database_id(new_id),
    ensures
        rename_refusal(Some(key), header, old_id, Some(new_id)) is None <==> new_id != old_id,
        create_refusal(Some(key), header, Some(new_id)) is None,
{
}

/// A key is the admin key only where there is a platform, and only if it is the platform's.
pub proof fn lemma_verify_key(
    platform: Option<&MinitursoConfig>,
    body: &VerifyKeyReq,
    r: bool,
)
    requires
        call_ensures(verify_key, (platform, body), r),
    ensures
        r <==> (platform matches Some(config) && (body.key matches Some(key) && key@
            == config.admin_key@)),
{
}

/// Whether a reply tells of work that failed: an internal error with the failure behind a label.
pub open spec fn tells_failure(e: ErrorReply, label: Seq<char>, message: Seq<char>) -> bool {
    e.status.spec_code() == 500 && e.message@ == label + message
}

/// Whether a reply tells of a failure without a label.
pub open spec fn tells_plain_failure(e: ErrorReply, message: Seq<char>) -> bool {
    e.status.spec_code() == 500 && e.message@ == message
}

/// A creation goes on as long as nothing stands against it: only an id that is taken ends it with
/// `409`, and only work that failed ends it with `500` and the failure.
pub proof fn lemma_create_goes_on(
    config: &MinitursoConfig,
    id: String,
    found: bool,
    keys: Keys,
    made: Result<(), String>,
    record: DatabaseRecord,
    text: String,
    inserted: Result<(), String>,
    a: CreateStep,
    b: CreateStep,
    c: CreateStep,
)
    requires
        call_ensures(create_after_lookup, (id, found), a),
        call_ensures(create_after_namespace, (id, keys, made), b),
        call_ensures(create_after_insert, (config, record, text, inserted), c),
    ensures
        if found {
            a matches CreateStep::Refuse(e) && e.status.spec_code() == 409 && e.message@ == "A database with this id already exists"@
        } else {
            a is CreateNamespace
        },
        match made {
            Ok(()) => b is Insert,
            Err(m) => b matches CreateStep::Refuse(e) && tells_failure(
                e,
                "failed to create namespace: "@,
                m@,
            ),
        },
        match inserted {
            Ok(()) => c is Reply,
            Err(m) => c matches CreateStep::Refuse(e) && tells_plain_failure(e, m@),
        },
{
}

/// A rename goes on as long as nothing stands against it: only a database that is not there ends
/// it with `404`, only a new id that is taken with `409`, and only work that failed with `500`
/// and the failure.
pub proof fn lemma_rename_goes_on(
    config: &MinitursoConfig,
    old_id: String,
    new_id: String,
    found: Option<DatabaseRecord>,
    old_record: DatabaseRecord,
    taken: bool,
    state: Renaming,
    outcome: Result<(), String>,
    record: DatabaseRecord,
    text: String,
    steps: (RenameStep, RenameStep, RenameStep, RenameStep, RenameStep, RenameStep),
)
    requires
        call_ensures(rename_after_old, (old_id, new_id, found), steps.0),
        call_ensures(rename_after_new, (old_id, new_id, old_record, taken), steps.1),
        call_ensures(rename_after_namespace, (state, outcome), steps.2),
        call_ensures(rename_after_copy, (state, outcome), steps.3),
        call_ensures(rename_after_delete, (state, outcome), steps.4),
        call_ensures(rename_after_replace, (config, record, text, outcome), steps.5),
    ensures
        if found is Some {
            steps.0 is LookupNew
        } else {
            steps.0 matches RenameStep::Refuse(e) && e.status.spec_code() == 404 && e.message@ == "Database not found"@
        },
        if taken {
            steps.1 matches RenameStep::Refuse(e) && e.status.spec_code() == 409 && e.message@ == "A database with this id already exists"@
        } else {
            steps.1 is CreateNamespace
        },
        match outcome {
            Ok(()) => steps.2 is CopyDatabase && steps.3 is DeleteNamespace && steps.4 is Replace
                && steps.5 is Reply,
            Err(m) => {
                &&& steps.2 matches RenameStep::Refuse(e) && tells_failure(
                    e,
                    "failed to create namespace: "@,
                    m@,
                )
                &&& steps.3 matches RenameStep::Refuse(e) && tells_plain_failure(e, m@)
                &&& steps.4 matches RenameStep::Refuse(e) && tells_failure(
                    e,
                    "failed to delete old namespace: "@,
                    m@,
                )
                &&& steps.5 matches RenameStep::Refuse(e) && tells_plain_failure(e, m@)
            },
        },
{
}

/// A rotation goes on as long as nothing stands against it: only a database that is not there
/// ends it with `404`, and only work that failed with `500` and the failure.
pub proof fn lemma_rotate_goes_on(
    config: &MinitursoConfig,
    id: String,
    found: Option<DatabaseRecord>,
    record: DatabaseRecord,
    keys: Keys,
    text: String,
    outcome: Result<(), String>,
    a: RotateStep,
    b: RotateStep,
    c: RotateStep,
)
    requires
        call_ensures(rotate_after_lookup, (id, found), a),
        call_ensures(rotate_after_update, (id, record, keys, outcome), b),
        call_ensures(rotate_after_replace, (config, record, text, outcome), c),
    ensures
        if found is Some {
            a is UpdateKey
        } else {
            a matches RotateStep::Refuse(e) && e.status.spec_code() == 404 && e.message@ == "Database not found"@
        },
        match outcome {
            Ok(()) => b is Replace && c is Reply,
            Err(m) => {
                &&& b matches RotateStep::Refuse(e) && tells_failure(
                    e,
                    "failed to update namespace config: "@,
                    m@,
                )
                &&& c matches RotateStep::Refuse(e) && tells_plain_failure(e, m@)
            },
        },
{
}

/// A deletion goes on as long as nothing stands against it: only a database that is not there
/// ends it with `404`, and only work that failed with `500` and the failure.
pub proof fn lemma_delete_goes_on(
    id: String,
    found: Option<DatabaseRecord>,
    record: DatabaseRecord,
    outcome: Result<(), String>,
    a: DeleteStep,
    b: DeleteStep,
    c: DeleteStep,
)
    requires
        call_ensures(delete_after_lookup, (id, found), a),
        call_ensures(delete_after_namespace, (id, record, outcome), b),
        call_ensures(delete_after_record, (record, outcome), c),
    ensures
        if found is Some {
            a is DeleteNamespace
        } else {
            a matches DeleteStep::Refuse(e) && e.status.spec_code() == 404 && e.message@ == "Database not found"@
        },
        match outcome {
            Ok(()) => b is DeleteRecord && c is Reply,
            Err(m) => {
                &&& b matches DeleteStep::Refuse(e) && tells_failure(
                    e,
                    "failed to delete namespace: "@,
                    m@,
                )
                &&& c matches DeleteStep::Refuse(e) && tells_plain_failure(e, m@)
            },
        },
{
}

/// Whether a token is for a namespace, is signed with a secret key, and expires 90 days after some
/// second since the epoch.
pub open spec fn lives_ninety_days(text: Seq<char>, namespace: Seq<char>, secret: Seq<u8>) -> bool {
    exists|now: int| 0 <= now && text == #[trigger] token(namespace, secret, now + 7_776_000)
}

proof fn lemma_fresh_lives_ninety_days(text: Seq<char>, namespace: Seq<char>, secret: Seq<u8>)
    requires
        is_fresh_token(text, namespace, secret),
    ensures
        lives_ninety_days(text, namespace, secret),
{
    let now = choose|now: i64|
        0 <= now < 0x800_0000_0000 && text == #[trigger] token(
            namespace,
            secret,
            now + TOKEN_LIFETIME_SECS,
        ) && signature_holds(namespace, secret, now + TOKEN_LIFETIME_SECS);
    assert(text == token(namespace, secret, now as int + 7_776_000));
}

/// A creation from the request to the answer. The database gets the id that was asked for; its
/// namespace has the same name, and the public key under which the token that is handed out
/// verifies. The record holds that key and its secret key, and the answer its creation time.
pub proof fn lemma_create_run(
    platform: Option<&MinitursoConfig>,
    headers: &hyper::HeaderMap<hyper::header::HeaderValue>,
    body: CreateDatabaseReq,
    config: &MinitursoConfig,
    id: String,
    namespace: NamespaceKey,
    restore: RestoreOption,
    next_id: String,
    keys: Keys,
    record: DatabaseRecord,
    text: String,
    c: Credentials,
)
    requires
        call_ensures(create_database, (platform, headers, body), CreateStep::Lookup { id }),
        call_ensures(
            create_after_lookup,
            (id, false),
            CreateStep::CreateNamespace { namespace, restore, id: next_id, keys },
        ),
        call_ensures(
            create_after_namespace,
            (next_id, keys, Ok(())),
            CreateStep::Insert { record, token: text },
        ),
        call_ensures(
            create_after_insert,
            (config, record, text, Ok(())),
            CreateStep::Reply(c),
        ),
    ensures
        opt_string(body.id) == Some(c.id@),
        is_database_id(c.id@),
        c.namespace@ == c.id@,
        namespace.name@ == c.id@,
        restore == RestoreOption::Latest,
        record.id@ == c.id@,
        record.namespace@ == c.id@,
        record.jwt_public_key@ == namespace.jwt_key@,
        record.jwt_private_key@ == base64_url(keys.signing_key@),
        record.last_accessed_at is None,
        c.token == text,
        verifies_under(c.token@, namespace.jwt_key@),
        lives_ninety_days(c.token@, c.namespace@, keys.signing_key@),
        c.created_at == Some(record.created_at),
        is_utc_time(record.created_at@),
{
    lemma_new_token_opens_record(record, id@, keys, record.created_at@, text@);
    lemma_opening_token_verifies(text@, record);
    lemma_fresh_lives_ninety_days(text@, id@, keys.signing_key@);
}

/// A rename from the request to the answer. The database gets the new id and a namespace of that
/// name with new keys, under which the token that is handed out verifies. The file of the old
/// namespace is copied to the same place in the new one, the old namespace is deleted with its
/// backups, and the record under the old id is replaced. The creation time stays.
pub proof fn lemma_rename_run(
    platform: Option<&MinitursoConfig>,
    headers: &hyper::HeaderMap<hyper::header::HeaderValue>,
    asked: String,
    body: RenameDatabaseReq,
    config: &MinitursoConfig,
    ids: (String, String),
    next_ids: (String, String),
    found: DatabaseRecord,
    old_record: DatabaseRecord,
    namespace: NamespaceKey,
    restore: RestoreOption,
    states: (Renaming, Renaming, Renaming),
    from: Vec<String>,
    to: Vec<String>,
    name: String,
    prune_all: bool,
    replaced: String,
    record: DatabaseRecord,
    text: String,
    c: Credentials,
)
    requires
        call_ensures(
            rename_database,
            (platform, headers, asked, body),
            RenameStep::LookupOld { old_id: ids.0, new_id: ids.1 },
        ),
        call_ensures(
            rename_after_old,
            (ids.0, ids.1, Some(found)),
            RenameStep::LookupNew { old_id: next_ids.0, new_id: next_ids.1, old_record },
        ),
        call_ensures(
            rename_after_new,
            (next_ids.0, next_ids.1, old_record, false),
            RenameStep::CreateNamespace { namespace, restore, state: states.0 },
        ),
        call_ensures(
            rename_after_namespace,
            (states.0, Ok(())),
            RenameStep::CopyDatabase { from, to, state: states.1 },
        ),
        call_ensures(
            rename_after_copy,
            (states.1, Ok(())),
            RenameStep::DeleteNamespace { name, prune_all, state: states.2 },
        ),
        call_ensures(
            rename_after_delete,
            (states.2, Ok(())),
            RenameStep::Replace { old_id: replaced, record, token: text },
        ),
        call_ensures(
            rename_after_replace,
            (config, record, text, Ok(())),
            RenameStep::Reply(c),
        ),
    ensures
        opt_string(body.id) == Some(c.id@),
        is_database_id(c.id@),
        c.id@ != asked@,
        replaced@ == asked@,
        c.namespace@ == c.id@,
        namespace.name@ == c.id@,
        restore == RestoreOption::Latest,
        record.id@ == c.id@,
        record.namespace@ == c.id@,
        record.jwt_public_key@ == namespace.jwt_key@,
        record.jwt_private_key@ == base64_url(states.0.keys.signing_key@),
        record.created_at@ == found.created_at@,
        c.created_at == Some(record.created_at),
        c.token == text,
        verifies_under(c.token@, namespace.jwt_key@),
        lives_ninety_days(c.token@, c.namespace@, states.0.keys.signing_key@),
        name@ == found.namespace@,
        prune_all,
        texts(from@) == seq!["dbs"@, found.namespace@, "data"@],
        texts(to@) == seq!["dbs"@, c.id@, "data"@],
{
    let keys = states.0.keys;
    lemma_new_token_opens_record(record, ids.1@, keys, record.created_at@, text@);
    lemma_opening_token_verifies(text@, record);
    lemma_fresh_lives_ninety_days(text@, ids.1@, keys.signing_key@);
}

/// A rotation from the request to the answer. Only the keys change: the namespace gets a new
/// public key, the record under the id gets the pair, and the token that is handed out verifies
/// under it. Id, namespace and times stay.
pub proof fn lemma_rotate_run(
    platform: Option<&MinitursoConfig>,
    headers: &hyper::HeaderMap<hyper::header::HeaderValue>,
    asked: String,
    config: &MinitursoConfig,
    ids: (String, String, String),
    found: DatabaseRecord,
    namespace: NamespaceKey,
    old_record: DatabaseRecord,
    keys: Keys,
    record: DatabaseRecord,
    text: String,
    c: Credentials,
)
    requires
        call_ensures(rotate_token, (platform, headers, asked), RotateStep::Lookup { id: ids.0 }),
        call_ensures(
            rotate_after_lookup,
            (ids.0, Some(found)),
            RotateStep::UpdateKey { namespace, id: ids.1, record: old_record, keys },
        ),
        call_ensures(
            rotate_after_update,
            (ids.1, old_record, keys, Ok(())),
            RotateStep::Replace { id: ids.2, record, token: text },
        ),
        call_ensures(
            rotate_after_replace,
            (config, record, text, Ok(())),
            RotateStep::Reply(c),
        ),
    ensures
        ids.2@ == asked@,
        namespace.name@ == found.namespace@,
        record.id@ == found.id@,
        record.namespace@ == found.namespace@,
        record.created_at@ == found.created_at@,
        record.last_accessed_at == found.last_accessed_at,
        record.jwt_public_key@ == namespace.jwt_key@,
        record.jwt_private_key@ == base64_url(keys.signing_key@),
        c.id@ == found.id@,
        c.namespace@ == found.namespace@,
        c.created_at is None,
        c.token == text,
        verifies_under(c.token@, namespace.jwt_key@),
        lives_ninety_days(c.token@, c.namespace@, keys.signing_key@),
{
    lemma_rotated_token_opens_record(record, old_record, keys, text@);
    lemma_opening_token_verifies(text@, record);
    lemma_fresh_lives_ninety_days(text@, found.namespace@, keys.signing_key@);
}

/// A deletion from the request to the answer. The namespace of the record is deleted with its
/// backups, then the record under the id that was asked for, and the answer names what was
/// deleted.
pub proof fn lemma_delete_run(
    platform: Option<&MinitursoConfig>,
    headers: &hyper::HeaderMap<hyper::header::HeaderValue>,
    asked: String,
    ids: (String, String, String),
    found: DatabaseRecord,
    name: String,
    prune_all: bool,
    records: (DatabaseRecord, DatabaseRecord),
    id: String,
    namespace: String,
)
    requires
        call_ensures(delete_database, (platform, headers, asked), DeleteStep::Lookup { id: ids.0 }),
        call_ensures(
            delete_after_lookup,
            (ids.0, Some(found)),
            DeleteStep::DeleteNamespace { name, prune_all, id: ids.1, record: records.0 },
        ),
        call_ensures(
            delete_after_namespace,
            (ids.1, records.0, Ok(())),
            DeleteStep::DeleteRecord { id: ids.2, record: records.1 },
        ),
        call_ensures(
            delete_after_record,
            (records.1, Ok(())),
            DeleteStep::Reply { id, namespace },
        ),
    ensures
        name@ == found.namespace@,
        prune_all,
        ids.2@ == asked@,
        id@ == found.id@,
        namespace@ == found.namespace@,
{
}

/// Whether credentials are handed out at the end of a creation, a rename or a rotation.
pub open spec fn are_handed_out(
    config: &MinitursoConfig,
    record: DatabaseRecord,
    text: String,
    c: Credentials,
) -> bool {
    ||| call_ensures(create_after_insert, (config, record, text, Ok(())), CreateStep::Reply(c))
    ||| call_ensures(rename_after_replace, (config, record, text, Ok(())), RenameStep::Reply(c))
    ||| call_ensures(rotate_after_replace, (config, record, text, Ok(())), RotateStep::Reply(c))
}

/// Credentials name the database of the record and carry the token. Their host belongs to their
/// address: it is the address without its scheme, with the port wherever the address has one. A
/// configured address is used as it is.
pub proof fn lemma_credentials_lead_to_the_server(
    config: &MinitursoConfig,
    record: DatabaseRecord,
    text: String,
    c: Credentials,
)
    requires
        are_handed_out(config, record, text, c),
    ensures
        c.id == record.id,
        c.namespace == record.namespace,
        c.token == text,
        c.created_at matches Some(t) ==> t == record.created_at,
        is_host_of_url(c.host@, c.connection_url@),
        config.connection_url matches Some(url) ==> c.connection_url@ == url@,
        config.connection_url is None ==> ({
            let base = config.scheme@ + "://"@ + config.host@;
            if port_is_implied(*config) {
                c.connection_url@ == base
            } else {
                exists|port: Seq<char>|
                    c.connection_url@ == #[trigger] (base + ":"@ + port) && is_decimal_of(
                        port,
                        config.port as int,
                    )
            }
        }),
        config.connection_url is None && (config.scheme@ == "http"@ || config.scheme@ == "https"@)
            && !"http://"@.is_prefix_of(authority(*config)) && !"https://"@.is_prefix_of(
            authority(*config),
        ) && !port_is_implied(*config) ==> exists|port: Seq<char>|
            c.host@ == #[trigger] (config.host@ + ":"@ + port) && is_decimal_of(
                port,
                config.port as int,
            ),
{
    lemma_client_url(*config);
    lemma_host_matches_url(*config);
}

/// A list reports every record once, in the order of the records and with its own statistics; a
/// single report does the same for one record.
pub proof fn lemma_reports_follow_records(
    config: &MinitursoConfig,
    records: &Vec<(DatabaseRecord, Option<String>)>,
    views: Vec<DatabaseView>,
    i: int,
    record: &DatabaseRecord,
    data: &Option<String>,
    view: DatabaseView,
)
    requires
        call_ensures(list_after_stats, (config, records), views),
        call_ensures(get_after_stats, (config, record, data), view),
        0 <= i < records@.len(),
    ensures
        views@.len() == records@.len(),
        views@[i].id@ == records@[i].0.id@,
        views@[i].namespace@ == records@[i].0.namespace@,
        views@[i].created_at@ == records@[i].0.created_at@,
        describes(
            views@[i],
            *config,
            file_stats(opt_string(records@[i].1)),
            records@[i].0,
        ),
        view.id@ == record.id@,
        view.namespace@ == record.namespace@,
        describes(view, *config, file_stats(opt_string(*data)), *record),
{
}

/// Records that were read are all handed on, in their order; a failure to read them is told. A
/// single record that is not there is answered with `404`.
pub proof fn lemma_reads_go_on(
    records: Result<Vec<DatabaseRecord>, String>,
    found: Result<Option<DatabaseRecord>, String>,
    list: ListStep,
    get: GetStep,
)
    requires
        call_ensures(list_after_records, (records,), list),
        call_ensures(get_after_lookup, (found,), get),
    ensures
        match records {
            Ok(all) => list matches ListStep::ReadStats { records: r } && r@ == all@,
            Err(m) => list matches ListStep::Refuse(e) && tells_plain_failure(e, m@),
        },
        match found {
            Ok(Some(record)) => get matches GetStep::ReadStats { record: r } && r == record,
            Ok(None) => get matches GetStep::Refuse(e) && e.status.spec_code() == 404 && e.message@ == "Database not found"@,
            Err(m) => get matches GetStep::Refuse(e) && tells_plain_failure(e, m@),
        },
{
}

/// The token that goes with a record expires 90 days after it was signed, whether the record is
/// new or gets new keys. The record holds the public key that it was given.
pub proof fn lemma_token_of_record(
    id: &str,
    keys: Keys,
    created_at: String,
    old: DatabaseRecord,
    now: i64,
    made: (DatabaseRecord, String),
    rekeyed: (DatabaseRecord, String),
)
    requires
        call_ensures(make_record, (id, keys, created_at, now), made),
        call_ensures(rekey_record, (old, keys, now), rekeyed),
    ensures
        made.1@ == token(id@, keys.signing_key@, now + 7_776_000),
        rekeyed.1@ == token(old.namespace@, keys.signing_key@, now + 7_776_000),
        made.0.id@ == id@,
        made.0.namespace@ == id@,
        made.0.created_at@ == created_at@,
        made.0.jwt_public_key == keys.public_key,
        rekeyed.0.id == old.id,
        rekeyed.0.namespace == old.namespace,
        rekeyed.0.created_at == old.created_at,
        rekeyed.0.jwt_public_key == keys.public_key,
        made.0.jwt_private_key@ == rekeyed.0.jwt_private_key@,
{
}

} // verus!
