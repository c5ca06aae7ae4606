use vstd::prelude::*;

verus! {

/// Container metadata collected from the container runtime.
#[derive(Debug, Clone)]
pub struct ContainerMetadata {
    pub container_id: String,
    pub pod_name: String,
    pub pod_namespace: String,
    pub pod_uid: String,
    pub container_name: String,
    pub cgroup_path: String,
    /// Process id of the container, when the runtime reports one
    pub pid: Option<u32>,
    pub labels: Vec<(String, String)>,
    pub annotations: Vec<(String, String)>,
}

/// A message of the metadata channel.
#[derive(Debug, Clone)]
pub enum MetadataMessage {
    /// Add or update the metadata of a container
    Add(String, ContainerMetadata),
    /// Remove the metadata of a container
    Remove(String),
}

/// What the runtime reports of a container.
#[derive(Debug, Clone)]
pub struct ContainerInfo {
    pub id: String,
    pub pod_sandbox_id: String,
    pub name: String,
    /// Cgroups path of its Linux part, if it has one
    pub cgroups_path: Option<String>,
    pub pid: u32,
    pub labels: Vec<(String, String)>,
    pub annotations: Vec<(String, String)>,
}

/// What the runtime reports of a pod.
#[derive(Debug, Clone)]
pub struct PodInfo {
    pub id: String,
    pub name: String,
    pub namespace: String,
    pub uid: String,
}

pub open spec fn pairs_view(v: Seq<(String, String)>) -> Seq<(Seq<char>, Seq<char>)> {
    v.map_values(|p: (String, String)| (p.0@, p.1@))
}

fn copy_pairs(v: &Vec<(String, String)>) -> (r: Vec<(String, String)>)
    ensures
        pairs_view(r@) == pairs_view(v@),
{
    let mut out: Vec<(String, String)> = Vec::new();
    let mut i: usize = 0;
    while i < v.len()
        invariant
            i <= v@.len(),
            out@.len() == i,
            forall|k: int|
                0 <= k < i ==> (#[trigger] out@[k]).0@ == v@[k].0@ && out@[k].1@ == v@[k].1@,
        decreases v@.len() - i,
    {
        let k = v[i].0.clone();
        let val = v[i].1.clone();
        out.push((k, val));
        i = i + 1;
    }
    assert(pairs_view(out@) =~= pairs_view(v@));
    out
}

/// The metadata of `container`, with the names of `pod` when it is known.
pub open spec fn spec_extract(c: ContainerInfo, pod: Option<PodInfo>, m: ContainerMetadata) -> bool {
    &&& m.container_id@ == c.id@
    &&& m.container_name@ == c.name@
    &&& m.cgroup_path@ == match c.cgroups_path {
        Some(p) => p@,
        None => Seq::<char>::empty(),
    }
    &&& m.pod_name@ == match pod {
        Some(p) => p.name@,
        None => Seq::<char>::empty(),
    }
    &&& m.pod_namespace@ == match pod {
        Some(p) => p.namespace@,
        None => Seq::<char>::empty(),
    }
    &&& m.pod_uid@ == match pod {
        Some(p) => p.uid@,
        None => Seq::<char>::empty(),
    }
    &&& m.pid == if c.pid > 0 {
        Some(c.pid)
    } else {
        None::<u32>
    }
    &&& pairs_view(m.labels@) == pairs_view(c.labels@)
    &&& pairs_view(m.annotations@) == pairs_view(c.annotations@)
}

/// Builds the metadata of `container`; a pid of 0 means none is known.
pub fn extract_metadata(container: &ContainerInfo, pod: Option<&PodInfo>) -> (r: ContainerMetadata)
    ensures
        spec_extract(
            *container,
            match pod {
                Some(p) => Some(*p),
                None => None,
            },
            r,
        ),
{
    let cgroup_path = match &container.cgroups_path {
        Some(p) => p.clone(),
        None => String::new(),
    };
    let (pod_name, pod_namespace, pod_uid) = match pod {
        Some(p) => (p.name.clone(), p.namespace.clone(), p.uid.clone()),
        None => (String::new(), String::new(), String::new()),
    };
    ContainerMetadata {
        container_id: container.id.clone(),
        pod_name,
        pod_namespace,
        pod_uid,
        container_name: container.name.clone(),
        cgroup_path,
        pid: if container.pid > 0 {
            Some(container.pid)
        } else {
            None
        },
        labels: copy_pairs(&container.labels),
        annotations: copy_pairs(&container.annotations),
    }
}

/// The first pod of `pods` whose id is `id`.
pub open spec fn first_pod(pods: Seq<PodInfo>, id: Seq<char>) -> Option<PodInfo>
    decreases pods.len(),
{
    if pods.len() == 0 {
        None
    } else if pods[0].id@ == id {
        Some(pods[0])
    } else {
        first_pod(pods.subrange(1, pods.len() as int), id)
    }
}

fn find_pod<'a>(pods: &'a [PodInfo], id: &String) -> (r: Option<&'a PodInfo>)
    ensures
        match r {
            Some(p) => Some(*p),
            None => None,
        } == first_pod(pods@, id@),
{
    let mut i: usize = 0;
    assert(pods@.subrange(0, pods@.len() as int) =~= pods@);
    while i < pods.len()
        invariant
            i <= pods@.len(),
            first_pod(pods@, id@) == first_pod(pods@.subrange(i as int, pods@.len() as int), id@),
        decreases pods@.len() - i,
    {
        let ghost rest = pods@.subrange(i as int, pods@.len() as int);
        assert(rest.subrange(1, rest.len() as int) =~= pods@.subrange(i + 1, pods@.len() as int));
        assert(rest[0] == pods@[i as int]);
        if pods[i].id == *id {
            return Some(&pods[i]);
        }
        i = i + 1;
    }
    None
}

/// One `Add` message per container, in order, with the metadata of the
/// container and of the first pod of `pods` with its pod id.
pub fn process_containers(containers: &[ContainerInfo], pods: &[PodInfo]) -> (r: Vec<MetadataMessage>)
    ensures
        r@.len() == containers@.len(),
        forall|k: int|
            0 <= k < r@.len() ==> (#[trigger] r@[k] matches MetadataMessage::Add(id, m) && id@
                == containers@[k].id@ && spec_extract(
                containers@[k],
                first_pod(pods@, containers@[k].pod_sandbox_id@),
                m,
            )),
{
    let mut out: Vec<MetadataMessage> = Vec::new();
    let mut i: usize = 0;
    while i < containers.len()
        invariant
            i <= containers@.len(),
            out@.len() == i,
            forall|k: int|
                0 <= k < i ==> (#[trigger] out@[k] matches MetadataMessage::Add(id, m) && id@
                    == containers@[k].id@ && spec_extract(
                    containers@[k],
                    first_pod(pods@, containers@[k].pod_sandbox_id@),
                    m,
                )),
        decreases containers@.len() - i,
    {
        let c = &containers[i];
        let pod = find_pod(pods, &c.pod_sandbox_id);
        let metadata = extract_metadata(c, pod);
        out.push(MetadataMessage::Add(c.id.clone(), metadata));
        i = i + 1;
    }
    out
}

/// The message for a stopped container.
pub fn stop_message(container: &ContainerInfo) -> (r: MetadataMessage)
    ensures
        r matches MetadataMessage::Remove(id) && id@ == container.id@,
{
    MetadataMessage::Remove(container.id.clone())
}

} // verus!
