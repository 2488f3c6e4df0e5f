//! The configuration snapshot: one immutable bundle of handles and settings
//! that every request reads, and its lookups of named resources.

use ahash::AHashMap;
use ahash::RandomState;
use vstd::prelude::*;

verus! {

/// A handle to a resource that the surrounding program owns: a directory, a
/// lookup store, a signer, a script, a relay host, an expression.
#[derive(Clone, Copy, Debug, PartialEq, Eq, Structural)]
pub struct ResourceId(pub u32);

/// The hasher of `ahash`, opaque here.
#[verifier::external_type_specification]
#[verifier::external_body]
pub struct ExRandomState(RandomState);

/// The hash map of `ahash`, opaque here: what a table holds is spoken of
/// through `named_ids`.
#[verifier::external_type_specification]
#[verifier::external_body]
#[verifier::reject_recursive_types(K)]
#[verifier::reject_recursive_types(V)]
#[verifier::reject_recursive_types(S)]
pub struct ExAHashMap<K, V, S>(AHashMap<K, V, S>);

/// An IP address, as its number.
#[derive(Clone, Copy, Debug, PartialEq, Eq, Structural)]
pub enum IpAddress {
    V4(u32),
    V6(u128),
}

/// The ids that a table binds to names.
pub uninterp spec fn named_ids(table: AHashMap<String, u32>) -> Map<Seq<char>, u32>;

/// Calls `AHashMap::get`, which asks the hash map that the table wraps.
/// Trusted: the result is the id that the table binds to `name`, and none
/// where it binds none.
#[verifier::external_body]
fn table_get(table: &AHashMap<String, u32>, name: &str) -> (found: Option<u32>)
    ensures
        match found {
            Some(id) => named_ids(*table).contains_key(name@) && named_ids(*table)[name@] == id,
            None => !named_ids(*table).contains_key(name@),
        },
{
    table.get(name).copied()
}

/// What a lookup by name did not find.
#[derive(Clone, Copy, Debug, PartialEq, Eq, Structural)]
pub enum MissKind {
    DirectoryNotFound,
    StoreNotFound,
    SealerNotFound,
    SignerNotFound,
    ScriptNotFound,
    RemoteIdNotFound,
}

/// The event that a failed lookup asks the caller to record.
#[derive(Debug)]
pub struct MissEvent {
    pub kind: MissKind,
    pub id: String,
    pub span_id: u64,
}

/// The event is of `kind`, names `name` and belongs to `session_id`.
pub open spec fn reports(event: Option<MissEvent>, kind: MissKind, name: Seq<char>, session_id: u64) -> bool {
    match event {
        Some(e) => e.kind == kind && e.id@ == name && e.span_id == session_id,
        None => false,
    }
}

/// Stores and directories: the primary of each, and the named ones.
#[derive(Debug)]
pub struct Storage {
    pub data: ResourceId,
    pub blob: ResourceId,
    pub lookup: ResourceId,
    pub directory: ResourceId,
    pub directories: AHashMap<String, u32>,
    pub lookups: AHashMap<String, u32>,
}

/// The compiled Sieve scripts, by name.
#[derive(Debug)]
pub struct Scripting {
    pub trusted_scripts: AHashMap<String, u32>,
    pub untrusted_scripts: AHashMap<String, u32>,
}

/// The named resources of mail transfer.
#[derive(Debug)]
pub struct SmtpConfig {
    pub sealers: AHashMap<String, u32>,
    pub signers: AHashMap<String, u32>,
    pub relay_hosts: AHashMap<String, u32>,
}

/// The settings of the API and of its OAuth tokens. Durations are in seconds.
#[derive(Debug)]
pub struct JmapConfig {
    pub fallback_admin: Option<(String, String)>,
    pub master_user: Option<(String, String)>,
    pub oauth_key: String,
    pub oauth_expiry_token: u64,
    pub oauth_expiry_refresh_token: u64,
    pub oauth_expiry_refresh_token_renew: u64,
    pub oauth_expiry_auth_code: u64,
}

/// This node, the addresses it refuses and admits, and its HTTP policies.
#[derive(Debug)]
pub struct Network {
    pub node_id: u64,
    pub blocked_ips: Vec<IpAddress>,
    pub allowed_ips: Vec<IpAddress>,
    pub http_response_url: ResourceId,
    pub http_allowed_endpoint: ResourceId,
}

/// The snapshot.
#[derive(Debug)]
pub struct Core {
    pub storage: Storage,
    pub sieve: Scripting,
    pub network: Network,
    pub smtp: SmtpConfig,
    pub jmap: JmapConfig,
}

/// What a lookup without a default returns: the resource and no event, or no
/// resource and the event of `kind`.
pub open spec fn found_or_reported(
    table: Map<Seq<char>, u32>,
    kind: MissKind,
    name: Seq<char>,
    session_id: u64,
    found: Option<ResourceId>,
    event: Option<MissEvent>,
) -> bool {
    if table.contains_key(name) {
        found == Some(ResourceId(table[name])) && event is None
    } else {
        found is None && reports(event, kind, name, session_id)
    }
}

/// What a lookup with a default returns: the named resource and no event;
/// or the default, with the event of `kind` unless the name is empty.
pub open spec fn found_or_default(
    table: Map<Seq<char>, u32>,
    default: ResourceId,
    kind: MissKind,
    name: Seq<char>,
    session_id: u64,
    found: ResourceId,
    event: Option<MissEvent>,
) -> bool {
    if table.contains_key(name) {
        found == ResourceId(table[name]) && event is None
    } else if name.len() == 0 {
        found == default && event is None
    } else {
        found == default && reports(event, kind, name, session_id)
    }
}

fn lookup_or_report(table: &AHashMap<String, u32>, kind: MissKind, name: &str, session_id: u64) -> (r:
    (Option<ResourceId>, Option<MissEvent>))
    ensures
        found_or_reported(named_ids(*table), kind, name@, session_id, r.0, r.1),
{
    match table_get(table, name) {
        Some(id) => (Some(ResourceId(id)), None),
        None => (None, Some(MissEvent { kind, id: name.to_owned(), span_id: session_id })),
    }
}

fn lookup_or_default(
    table: &AHashMap<String, u32>,
    default: ResourceId,
    kind: MissKind,
    name: &str,
    session_id: u64,
) -> (r: (ResourceId, Option<MissEvent>))
    ensures
        found_or_default(named_ids(*table), default, kind, name@, session_id, r.0, r.1),
{
    match table_get(table, name) {
        Some(id) => (ResourceId(id), None),
        None => {
            if !name.is_empty() {
                (default, Some(MissEvent { kind, id: name.to_owned(), span_id: session_id }))
            } else {
                (default, None)
            }
        },
    }
}

impl Core {
    /// The directory named `name`.
    pub fn get_directory(&self, name: &str) -> (found: Option<ResourceId>)
        ensures
            match found {
                Some(id) => named_ids(self.storage.directories).contains_key(name@) && id
                    == ResourceId(named_ids(self.storage.directories)[name@]),
                None => !named_ids(self.storage.directories).contains_key(name@),
            },
    {
        match table_get(&self.storage.directories, name) {
            Some(id) => Some(ResourceId(id)),
            None => None,
        }
    }

    /// The directory named `name`, or the primary one; then with the event
    /// to record, unless the name is empty.
    pub fn get_directory_or_default(&self, name: &str, session_id: u64) -> (r: (ResourceId, Option<MissEvent>))
        ensures
            found_or_default(
                named_ids(self.storage.directories),
                self.storage.directory,
                MissKind::DirectoryNotFound,
                name@,
                session_id,
                r.0,
                r.1,
            ),
    {
        lookup_or_default(
            &self.storage.directories,
            self.storage.directory,
            MissKind::DirectoryNotFound,
            name,
            session_id,
        )
    }

    /// The lookup store named `name`, or the primary one; then with the event
    /// to record, unless the name is empty.
    pub fn get_lookup_store(&self, name: &str, session_id: u64) -> (r: (ResourceId, Option<MissEvent>))
        ensures
            found_or_default(
                named_ids(self.storage.lookups),
                self.storage.lookup,
                MissKind::StoreNotFound,
                name@,
                session_id,
                r.0,
                r.1,
            ),
    {
        lookup_or_default(
            &self.storage.lookups,
            self.storage.lookup,
            MissKind::StoreNotFound,
            name,
            session_id,
        )
    }

    /// The ARC sealer named `name`, or the event to record.
    pub fn get_arc_sealer(&self, name: &str, session_id: u64) -> (r: (Option<ResourceId>, Option<MissEvent>))
        ensures
            found_or_reported(
                named_ids(self.smtp.sealers),
                MissKind::SealerNotFound,
                name@,
                session_id,
                r.0,
                r.1,
            ),
    {
        lookup_or_report(&self.smtp.sealers, MissKind::SealerNotFound, name, session_id)
    }

    /// The DKIM signer named `name`, or the event to record.
    pub fn get_dkim_signer(&self, name: &str, session_id: u64) -> (r: (Option<ResourceId>, Option<MissEvent>))
        ensures
            found_or_reported(
                named_ids(self.smtp.signers),
                MissKind::SignerNotFound,
                name@,
                session_id,
                r.0,
                r.1,
            ),
    {
        lookup_or_report(&self.smtp.signers, MissKind::SignerNotFound, name, session_id)
    }

    /// The trusted Sieve script named `name`, or the event to record.
    pub fn get_trusted_sieve_script(&self, name: &str, session_id: u64) -> (r: (Option<ResourceId>, Option<MissEvent>))
        ensures
            found_or_reported(
                named_ids(self.sieve.trusted_scripts),
                MissKind::ScriptNotFound,
                name@,
                session_id,
                r.0,
                r.1,
            ),
    {
        lookup_or_report(&self.sieve.trusted_scripts, MissKind::ScriptNotFound, name, session_id)
    }

    /// The untrusted Sieve script named `name`, or the event to record.
    pub fn get_untrusted_sieve_script(&self, name: &str, session_id: u64) -> (r: (Option<ResourceId>, Option<MissEvent>))
        ensures
            found_or_reported(
                named_ids(self.sieve.untrusted_scripts),
                MissKind::ScriptNotFound,
                name@,
                session_id,
                r.0,
                r.1,
            ),
    {
        lookup_or_report(&self.sieve.untrusted_scripts, MissKind::ScriptNotFound, name, session_id)
    }

    /// The relay host named `name`, or the event to record.
    pub fn get_relay_host(&self, name: &str, session_id: u64) -> (r: (Option<ResourceId>, Option<MissEvent>))
        ensures
            found_or_reported(
                named_ids(self.smtp.relay_hosts),
                MissKind::RemoteIdNotFound,
                name@,
                session_id,
                r.0,
                r.1,
            ),
    {
        lookup_or_report(&self.smtp.relay_hosts, MissKind::RemoteIdNotFound, name, session_id)
    }
}

} // verus!
