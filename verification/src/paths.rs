use vstd::prelude::*;
use vstd::string::*;

use crate::errors::DataDirError;
use crate::hex_encoding::{hex_encode, hex_of, lemma_hex_of_len, lemma_hex_of_take};
use crate::identity::NodeIdentity;

verus! {

/// The caller-supplied configuration for one resolution: an optional base
/// directory that replaces the platform lookup, and the ephemeral flag that
/// turns the retention pass on.
pub struct DataDirectoryConfig {
    pub override_path: Option<String>,
    pub ephemeral: bool,
}

/// The session suffix: the lowercase-hex encoding of the identity's first
/// four bytes, eight characters.
pub open spec fn session_suffix_spec(id: Seq<u8>) -> Seq<char> {
    hex_of(id.take(4))
}

/// The session directory's name: `Trin_` followed by the suffix.
pub open spec fn session_dir_name_spec(id: Seq<u8>) -> Seq<char> {
    "Trin_"@ + session_suffix_spec(id)
}

/// The full session path: the base directory, a separator, and the session
/// directory's name.
pub open spec fn session_path_spec(base: Seq<char>, id: Seq<u8>) -> Seq<char> {
    base + "/"@ + session_dir_name_spec(id)
}

/// How the base directory is chosen: a set override wins verbatim; otherwise
/// the platform's answer; with neither, resolution fails.
pub open spec fn base_dir_spec(
    override_path: Option<Seq<char>>,
    platform_dir: Option<Seq<char>>,
) -> Result<Seq<char>, DataDirError> {
    match override_path {
        Some(p) => Ok(p),
        None => match platform_dir {
            Some(d) => Ok(d),
            None => Err(DataDirError::UnresolvableBaseDir),
        },
    }
}

/// The session path that one resolution yields, as a function of the
/// override, the platform's answer, and the identity.
pub open spec fn resolved_session_path_spec(
    override_path: Option<Seq<char>>,
    platform_dir: Option<Seq<char>>,
    id: Seq<u8>,
) -> Result<Seq<char>, DataDirError> {
    match base_dir_spec(override_path, platform_dir) {
        Ok(base) => Ok(session_path_spec(base, id)),
        Err(e) => Err(e),
    }
}

/// Whether session data must be pointed at disposable storage before
/// resolution: ephemeral mode asks for it, but a base-directory override
/// that is already set wins over ephemeral usage.
pub fn needs_temp_data_dir(config: &DataDirectoryConfig) -> (r: bool)
    ensures
        r <==> (config.ephemeral && config.override_path is None),
{
    config.ephemeral && config.override_path.is_none()
}

/// The platform path provider. Relies on directories::ProjectDirs::from and
/// data_local_dir: the platform's conventional local data directory for the
/// application, which depends on the machine's environment; None when no
/// home directory can be determined or when the path is not valid Unicode.
#[verifier::external_body]
pub fn platform_data_dir(app_name: &str) -> (r: Option<String>) {
    match directories::ProjectDirs::from("", "", app_name) {
        Some(dirs) => match dirs.data_local_dir().to_str() {
            Some(path) => Some(path.to_owned()),
            None => None,
        },
        None => None,
    }
}

/// Chooses the base directory from the override and the platform's answer.
pub fn base_dir_from(override_path: Option<String>, platform_dir: Option<String>) -> (r: Result<
    String,
    DataDirError,
>)
    ensures
        base_dir_spec(override_path.deep_view(), platform_dir.deep_view()) matches Ok(b) ==> (
        r matches Ok(s) && s@ == b),
        base_dir_spec(override_path.deep_view(), platform_dir.deep_view()) matches Err(e) ==> (
        r matches Err(e2) && e2 == e),
{
    match override_path {
        Some(p) => Ok(p),
        None => match platform_dir {
            Some(d) => Ok(d),
            None => Err(DataDirError::UnresolvableBaseDir),
        },
    }
}

/// Resolves the application's base data directory: a set override is used
/// verbatim; otherwise the platform's conventional directory for the
/// application name `Trin`; with neither, `UnresolvableBaseDir`.
///
/// The caller creates the directory (recursively, fatally on failure)
/// before using any session path under it.
pub fn resolve_base_dir(config: &DataDirectoryConfig) -> (r: Result<String, DataDirError>)
    ensures
        config.override_path matches Some(p) ==> (r matches Ok(b) && b@ == p@),
        config.override_path is None ==> (r matches Err(e) ==> e
            == DataDirError::UnresolvableBaseDir),
{
    match &config.override_path {
        Some(p) => Ok(p.clone()),
        None => base_dir_from(None, platform_data_dir("Trin")),
    }
}

/// Derives the session path `<base_dir>/Trin_<suffix>`, the suffix being the
/// lowercase-hex encoding of the identity's first four bytes. Pure: no
/// side effects, and deterministic in its two arguments.
pub fn build_session_path(base_dir: &str, identity: &NodeIdentity) -> (r: String)
    requires
        identity.well_formed(),
    ensures
        r@ == session_path_spec(base_dir@, identity@),
{
    let bytes = identity.as_bytes();
    let mut prefix: Vec<u8> = Vec::new();
    let mut i: usize = 0;
    while i < 4
        invariant
            i <= 4,
            identity.well_formed(),
            bytes@ == identity@,
            prefix@ == identity@.take(i as int),
        decreases 4 - i,
    {
        prefix.push(bytes[i]);
        i = i + 1;
        proof {
            assert(prefix@ =~= identity@.take(i as int));
        }
    }
    let suffix = hex_encode(&prefix);
    let mut path: String = base_dir.to_owned();
    path.append("/");
    path.append("Trin_");
    path.append(suffix.as_str());
    proof {
        assert(path@ =~= session_path_spec(base_dir@, identity@));
    }
    path
}

/// Resolves the full session path for one node: the base directory joined
/// with the identity's session directory name.
pub fn resolve_session_path(config: &DataDirectoryConfig, identity: &NodeIdentity) -> (r: Result<
    String,
    DataDirError,
>)
    requires
        identity.well_formed(),
    ensures
        config.override_path matches Some(p) ==> (r matches Ok(s) && s@ == session_path_spec(
            p@,
            identity@,
        )),
        r matches Err(e) ==> config.override_path is None && e
            == DataDirError::UnresolvableBaseDir,
        r matches Ok(s) ==> exists|base: Seq<char>|
            s@ == #[trigger] session_path_spec(base, identity@),
{
    match resolve_base_dir(config) {
        Ok(base) => {
            let session = build_session_path(base.as_str(), identity);
            proof {
                assert(session@ == session_path_spec(base@, identity@));
            }
            Ok(session)
        },
        Err(e) => Err(e),
    }
}

/// Resolution is deterministic: the same override, the same platform answer
/// and the same identity always yield the same session path, and with an
/// override set the platform's answer plays no part at all. Repeated calls
/// with one configuration therefore agree.
pub proof fn lemma_resolution_deterministic(
    override_path: Option<Seq<char>>,
    platform_a: Option<Seq<char>>,
    platform_b: Option<Seq<char>>,
    id: Seq<u8>,
)
    requires
        override_path is Some || platform_a == platform_b,
    ensures
        resolved_session_path_spec(override_path, platform_a, id) == resolved_session_path_spec(
            override_path,
            platform_b,
            id,
        ),
{
}

/// The session suffix is the first eight characters of the lowercase-hex
/// encoding of the whole identity — equivalently the encoding of its first
/// four bytes — for any identity of at least four bytes.
pub proof fn lemma_suffix_is_hex_prefix(id: Seq<u8>)
    requires
        id.len() >= 4,
    ensures
        session_suffix_spec(id) == hex_of(id).take(8),
        session_suffix_spec(id).len() == 8,
{
    lemma_hex_of_take(id, 4);
    lemma_hex_of_len(id.take(4));
}

} // verus!
