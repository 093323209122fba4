//! The decisions of a schema download.
//!
//! A schema is fetched unless the file on disk is the one that the lock
//! pins. What is fetched is checked against the lock, or recorded in it where
//! the lock does not yet hold the schema.

use vstd::prelude::*;
use url::Url;
use crate::schema::{same_bytes, LockMap, Locked, LockedSchema, Schema};
use crate::util::text::{decimal, decimal_spec};
use crate::web::{clone_url, extend_path, url_text, with_segments};

verus! {

/// The SHA-512 digest of a sequence of bytes.
pub uninterp spec fn sha512_of(data: Seq<u8>) -> Seq<u8>;

/// `Sha512::digest` of the `sha2` crate. Trusted: the digest is that of
/// SHA-512, a function of the data alone.
#[verifier::external_body]
pub(crate) fn sha512(data: &[u8]) -> (sum: Vec<u8>)
    ensures
        sum@ == sha512_of(data@),
{
    <sha2::Sha512 as sha2::Digest>::digest(data).to_vec()
}

/// Whether what the lock records of a schema pins the checksum `sum`: the
/// lock holds the schema's subject, at the schema's version, with that
/// checksum.
pub open spec fn pins(lock_map: LockMap, schema: Schema, sum: Seq<u8>) -> bool {
    &&& lock_map.contains(schema.subject@)
    &&& lock_map.get(schema.subject@) == (Locked { version: schema.spec.version, sha512: sum })
}

/// Whether the lock holds a record of a schema: of its subject, at its
/// version.
pub open spec fn is_locked(lock_map: LockMap, schema: Schema) -> bool {
    lock_map.contains(schema.subject@) && lock_map.get(schema.subject@).version
        == schema.spec.version
}

/// Whether the file of a schema is the one that the lock pins. `file` holds
/// what the file holds, and is `None` where the file could not be read.
pub fn check_schema(file: Option<&[u8]>, schema: &Schema, lock_map: &LockMap) -> (current: bool)
    ensures
        current == (file matches Some(data) && pins(*lock_map, *schema, sha512_of(data@))),
{
    let Some(data) = file else {
        return false;
    };
    let sum = sha512(data);
    match lock_map.read_lock(schema) {
        Some(locked) => {
            let same = same_bytes(&locked.sha512, &sum);
            assert(same ==> locked.locked().sha512 =~= sha512_of(data@));
            same
        },
        None => false,
    }
}

/// The name of the file that a schema is downloaded to: its subject and the
/// extension `.proto`.
pub fn proto_file_name(schema: &Schema) -> (name: String)
    ensures
        name@ == schema.subject@ + ".proto"@,
{
    let mut name = schema.subject.clone();
    name.append(".proto");
    name
}

/// The path below the registry's endpoint at which a schema is served, by
/// its segments.
pub open spec fn registry_route_spec(schema: Schema) -> Seq<Seq<char>> {
    seq![
        "subjects"@,
        schema.subject@,
        "versions"@,
        decimal_spec(schema.spec.version as nat),
        "schema"@,
    ]
}

/// The path below the registry's endpoint at which a schema is served, by
/// its segments.
pub fn registry_route(schema: &Schema) -> (route: Vec<String>)
    ensures
        route@.map_values(|segment: String| segment@) == registry_route_spec(*schema),
{
    let mut route: Vec<String> = Vec::new();
    route.push("subjects".to_owned());
    route.push(schema.subject.clone());
    route.push("versions".to_owned());
    route.push(decimal(schema.spec.version as u64));
    route.push("schema".to_owned());
    assert(route@.map_values(|segment: String| segment@) =~= registry_route_spec(*schema));
    route
}

/// Why a schema could not be fetched.
#[derive(Debug, Clone, PartialEq, Eq)]
pub enum FetchError {
    /// The registry's endpoint cannot be the base of another URL
    InvalidEndpoint,
    /// The registry answered the request with this status
    Status(u16),
    /// What was downloaded does not have the checksum that the lock pins
    /// for this subject and version
    ChecksumMismatch { subject: String, version: usize },
}

/// The URL at which the registry at `endpoint` serves a schema.
pub fn schema_url(endpoint: &Url, schema: &Schema) -> (r: Result<Url, FetchError>)
    ensures
        match with_segments(url_text(*endpoint), registry_route_spec(*schema)) {
            Some(text) => r matches Ok(url) && url_text(url) == text,
            None => r == Err::<Url, FetchError>(FetchError::InvalidEndpoint),
        },
{
    let mut url = clone_url(endpoint);
    if extend_path(&mut url, &registry_route(schema)) {
        Ok(url)
    } else {
        Err(FetchError::InvalidEndpoint)
    }
}

/// Whether a status is in the success class, 200 to 299.
pub open spec fn is_success(status: u16) -> bool {
    200 <= status <= 299
}

/// Judge the status with which the registry answered: the download goes on
/// where it is in the success class, and fails with the status otherwise.
pub fn check_status(status: u16) -> (r: Result<(), FetchError>)
    ensures
        r == if is_success(status) {
            Ok::<(), FetchError>(())
        } else {
            Err::<(), FetchError>(FetchError::Status(status))
        },
{
    if 200 <= status && status <= 299 {
        Ok(())
    } else {
        Err(FetchError::Status(status))
    }
}

/// Settle a download with the lock, `data` being what was downloaded.
///
/// Where the lock holds a record of the schema, the download has to have the
/// checksum that the record pins, and the lock stays as it is. Where it holds
/// none, the download is recorded under the schema's subject.
pub fn record_download(lock_map: &mut LockMap, schema: Schema, data: &[u8]) -> (r: Result<
    (),
    FetchError,
>)
    ensures
        is_locked(*old(lock_map), schema) ==> {
            &&& *final(lock_map) == *old(lock_map)
            &&& if old(lock_map).get(schema.subject@).sha512 == sha512_of(data@) {
                r is Ok
            } else {
                r matches Err(FetchError::ChecksumMismatch { subject, version }) && subject@
                    == schema.subject@ && version == schema.spec.version
            }
        },
        !is_locked(*old(lock_map), schema) ==> {
            &&& r is Ok
            &&& pins(*final(lock_map), schema, sha512_of(data@))
            &&& forall|subject: Seq<char>|
                subject != schema.subject@ ==> final(lock_map).contains(subject) == old(lock_map).contains(subject)
            &&& forall|subject: Seq<char>|
                subject != schema.subject@ && old(lock_map).contains(subject) ==> final(lock_map).get(subject) == old(lock_map).get(subject)
        },
{
    let sum = sha512(data);
    let pinned = match lock_map.read_lock(&schema) {
        Some(locked) => {
            let same = same_bytes(&locked.sha512, &sum);
            assert(same <==> locked.locked().sha512 == sha512_of(data@));
            Some(same)
        },
        None => None,
    };
    match pinned {
        Some(true) => Ok(()),
        Some(false) => Err(
            FetchError::ChecksumMismatch { subject: schema.subject, version: schema.spec.version },
        ),
        None => {
            let Schema { subject, spec } = schema;
            lock_map.insert(LockedSchema { subject, version: spec.version, sha512: sum });
            Ok(())
        },
    }
}

/// What a schema is compiled to.
#[derive(Debug, Clone, Copy, PartialEq, Eq, Structural, Hash)]
pub enum Gen {
    /// Go
    Go,
}

/// The option by which the Protobuf compiler is told where to write Go
/// code.
pub fn go_out_arg(out_dir: &str) -> (arg: String)
    ensures
        arg@ == "--go_out="@ + out_dir@,
{
    let mut arg = "--go_out=".to_owned();
    arg.append(out_dir);
    arg
}

/// The option by which the Protobuf compiler is told which Go module the
/// schema at the path `proto` belongs to.
pub fn go_opt_arg(proto: &str, go_mod: &str) -> (arg: String)
    ensures
        arg@ == "--go_opt=M"@ + proto@ + "="@ + go_mod@,
{
    let mut arg = "--go_opt=M".to_owned();
    arg.append(proto);
    arg.append("=");
    arg.append(go_mod);
    arg
}

/// The options for the Go modules of the first `n` schemas: one for each
/// schema that names a module, in the schemas' order.
pub open spec fn go_opts_spec(protos: Seq<(String, Schema)>, n: int) -> Seq<Seq<char>>
    decreases n,
{
    if n <= 0 {
        Seq::empty()
    } else {
        let earlier = go_opts_spec(protos, n - 1);
        match protos[n - 1].1.spec.go_mod {
            Some(go_mod) => earlier.push("--go_opt=M"@ + protos[n - 1].0@ + "="@ + go_mod@),
            None => earlier,
        }
    }
}

/// The arguments that the Protobuf compiler is run with to generate code
/// for the schemas at the paths `protos`: the paths, the output directory, and
/// for each schema that names a Go module the option that says so.
pub fn protoc_args(protos: &Vec<(String, Schema)>, gen: Gen, out_dir: &str) -> (args: Vec<String>)
    ensures
        args@.map_values(|arg: String| arg@) == protos@.map_values(
            |proto: (String, Schema)| proto.0@,
        ) + seq!["--go_out="@ + out_dir@] + go_opts_spec(protos@, protos@.len() as int),
{
    let mut args: Vec<String> = Vec::new();
    let mut i: usize = 0;
    while i < protos.len()
        invariant
            i <= protos@.len(),
            args@.map_values(|arg: String| arg@) =~= protos@.take(i as int).map_values(
                |proto: (String, Schema)| proto.0@,
            ),
        decreases protos@.len() - i,
    {
        let ghost prev = args@.map_values(|arg: String| arg@);
        args.push(protos[i].0.clone());
        proof {
            let path = |proto: (String, Schema)| proto.0@;
            assert(args@.map_values(|arg: String| arg@) =~= prev.push(protos@[i as int].0@));
            assert(protos@.take(i + 1).map_values(path) =~= protos@.take(i as int).map_values(
                path,
            ).push(path(protos@[i as int])));
        }
        i += 1;
    }
    assert(protos@.take(i as int) == protos@);
    match gen {
        Gen::Go => {
            let ghost paths = args@.map_values(|arg: String| arg@);
            args.push(go_out_arg(out_dir));
            let ghost head = args@.map_values(|arg: String| arg@);
            assert(head =~= paths + seq!["--go_out="@ + out_dir@]);
            let mut k: usize = 0;
            while k < protos.len()
                invariant
                    k <= protos@.len(),
                    args@.map_values(|arg: String| arg@) =~= head + go_opts_spec(
                        protos@,
                        k as int,
                    ),
                decreases protos@.len() - k,
            {
                if let Some(go_mod) = &protos[k].1.spec.go_mod {
                    let ghost prev = args@.map_values(|arg: String| arg@);
                    args.push(go_opt_arg(protos[k].0.as_str(), go_mod.as_str()));
                    assert(args@.map_values(|arg: String| arg@) =~= prev.push(
                        "--go_opt=M"@ + protos@[k as int].0@ + "="@ + go_mod@,
                    ));
                }
                k += 1;
            }
        },
    }
    args
}

} // verus!
