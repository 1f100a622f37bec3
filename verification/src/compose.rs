//! The compose document of an environment, as far as this library reads it:
//! the services, the volume list of each, and everything else carried along
//! untouched.

use vstd::prelude::*;
use crate::repo::Error;

verus! {

#[verifier::external_type_specification]
#[verifier::external_body]
pub struct ExYamlValue(serde_yaml::Value);

#[verifier::external_type_specification]
#[verifier::external_body]
#[verifier::reject_recursive_types(K)]
#[verifier::reject_recursive_types(V)]
#[verifier::reject_recursive_types(S)]
pub struct ExIndexMap<K, V, S>(indexmap::IndexMap<K, V, S>);

/// One service of a compose document.
#[derive(Debug, PartialEq)]
pub struct Service {
    /// The volume mounts, where the service declares any.
    pub volumes: Option<Vec<serde_yaml::Value>>,
    /// Every other key of the service, as it was read.
    pub other: indexmap::IndexMap<String, serde_yaml::Value>,
}

/// A compose document.
#[derive(Debug, PartialEq)]
pub struct Compose {
    pub version: Option<String>,
    /// The services by name, in the order of the document.
    pub services: indexmap::IndexMap<String, Service>,
    /// Every other top-level key, as it was read.
    pub other: indexmap::IndexMap<String, serde_yaml::Value>,
}

/// The path inside the container at which the project directory is mounted.
pub const WORKSPACE_MOUNT: &'static str = ":/root/workspace:rw";

/// Why a document is refused.
pub const SERVICE_COUNT_REASON: &'static str = "services count must be exactly one";

/// The entries of a map of services, in the map's order: each service under
/// its name.
pub uninterp spec fn service_entries(services: indexmap::IndexMap<String, Service>) -> Seq<
    (Seq<char>, Service),
>;

/// The YAML string value that holds `text`.
pub uninterp spec fn yaml_string(text: Seq<char>) -> serde_yaml::Value;

/// Whether `after` is `before` with the volume list of the entry at `index`
/// replaced by `volumes`: that entry keeps its name and its other keys, and
/// no other entry differs.
pub open spec fn volumes_replaced(
    before: Seq<(Seq<char>, Service)>,
    after: Seq<(Seq<char>, Service)>,
    index: int,
    volumes: Seq<serde_yaml::Value>,
) -> bool {
    &&& after.len() == before.len()
    &&& forall|i: int| 0 <= i < before.len() && i != index ==> after[i] == before[i]
    &&& after[index].0 == before[index].0
    &&& after[index].1.other == before[index].1.other
    &&& after[index].1.volumes matches Some(list) && list@ == volumes
}

/// Calls `indexmap::IndexMap::len`. Trusted: it is the number of entries.
#[verifier::external_body]
pub(crate) fn services_len(services: &indexmap::IndexMap<String, Service>) -> (n: usize)
    ensures
        n == service_entries(*services).len(),
{
    services.len()
}

/// Assigns through `indexmap::IndexMap`'s `IndexMut<usize>`, which panics
/// where the index is out of bounds. Trusted: the entry at `index` keeps its
/// name and everything but its volume list, which becomes `volumes`; no
/// other entry changes.
#[verifier::external_body]
pub(crate) fn set_volumes_at(
    services: &mut indexmap::IndexMap<String, Service>,
    index: usize,
    volumes: Vec<serde_yaml::Value>,
)
    requires
        index < service_entries(*old(services)).len(),
    ensures
        volumes_replaced(
            service_entries(*old(services)),
            service_entries(*final(services)),
            index as int,
            volumes@,
        ),
{
    services[index].volumes = Some(volumes);
}

/// Builds `serde_yaml::Value::String`. Trusted: the value depends on the
/// text alone.
#[verifier::external_body]
pub(crate) fn yaml_string_value(text: String) -> (v: serde_yaml::Value)
    ensures
        v == yaml_string(text@),
{
    serde_yaml::Value::String(text)
}

/// The one volume entry of an environment's service: the project directory,
/// mounted read-write at the workspace path of the container.
pub open spec fn volume_text(project_path: Seq<char>) -> Seq<char> {
    project_path + WORKSPACE_MOUNT@
}

/// Whether `after` is `before` with the volume list of its one service
/// replaced by the single mount of `project_path`, and nothing else changed.
pub open spec fn bound_to(before: Compose, after: Compose, project_path: Seq<char>) -> bool {
    let was = service_entries(before.services);
    let now = service_entries(after.services);
    &&& after.version == before.version
    &&& after.other == before.other
    &&& was.len() == 1
    &&& now.len() == 1
    &&& now[0].0 == was[0].0
    &&& now[0].1.other == was[0].1.other
    &&& now[0].1.volumes matches Some(list) && list@ == seq![
        yaml_string(volume_text(project_path)),
    ]
}

/// Points the document's one service at the project directory: its volume
/// list becomes the single mount of `project_path`, read-write, at the
/// workspace path. A document that does not declare exactly one service is
/// refused and left as it was.
pub fn bind_project_volume(compose: &mut Compose, project_path: &str) -> (r: Result<(), Error>)
    ensures
        service_entries(old(compose).services).len() == 1 ==> r is Ok && bound_to(
            *old(compose),
            *final(compose),
            project_path@,
        ),
        service_entries(old(compose).services).len() != 1 ==> r is Err && *final(compose) == *old(
            compose,
        ),
        r matches Err(e) ==> (e matches Error::InvalidComposeConfig { reason } && reason@
            == SERVICE_COUNT_REASON@),
{
    if services_len(&compose.services) != 1 {
        return Err(
            Error::InvalidComposeConfig { reason: String::from_str(SERVICE_COUNT_REASON) },
        );
    }
    let volume = String::from_str(project_path).concat(WORKSPACE_MOUNT);
    let mut volumes: Vec<serde_yaml::Value> = Vec::new();
    volumes.push(yaml_string_value(volume));
    assert(volumes@ =~= seq![yaml_string(volume_text(project_path@))]);
    set_volumes_at(&mut compose.services, 0, volumes);
    Ok(())
}

} // verus!
