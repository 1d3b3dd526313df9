//! Services and their instances, and the build-completion predicate that
//! the build waiter polls until it holds.

use vstd::prelude::*;

verus! {

/// A read-only projection of one service instance, as the build waiter
/// and the log harvester see it.
#[derive(Debug, Clone)]
pub struct ServiceInstance {
    pub healthcheck_path: Option<String>,
    pub healthcheck_timeout: Option<u64>,
    pub static_url: Option<String>,
    /// The status of the instance's latest deployment; absent while the
    /// build query has not yet resolved.
    pub status: Option<String>,
    pub deployment_id: Option<String>,
}

/// A read-only projection of one service of a project.
#[derive(Debug, Clone)]
pub struct Service {
    pub id: String,
    pub name: String,
    pub instances: Vec<ServiceInstance>,
}

/// The latest deployment reported inside a service-list response, when
/// the instance has one.
#[derive(Debug, Clone)]
pub struct LatestDeployment {
    pub id: String,
    pub static_url: Option<String>,
    pub status: String,
}

/// The raw shape of one instance in a service-list response, before it is
/// projected onto [`ServiceInstance`].
#[derive(Debug, Clone)]
pub struct ServiceInstanceNode {
    pub healthcheck_path: Option<String>,
    pub healthcheck_timeout: Option<u64>,
    pub latest_deployment: Option<LatestDeployment>,
}

/// How a projected instance relates to the raw response shape: the three
/// deployment-derived fields are present exactly when a latest deployment
/// was reported.
pub open spec fn instance_of_node(n: ServiceInstanceNode, inst: ServiceInstance) -> bool {
    &&& inst.healthcheck_path == n.healthcheck_path
    &&& inst.healthcheck_timeout == n.healthcheck_timeout
    &&& match n.latest_deployment {
        Some(d) => inst.static_url == d.static_url && inst.status == Some(d.status)
            && inst.deployment_id == Some(d.id),
        None => inst.static_url is None && inst.status is None && inst.deployment_id is None,
    }
}

/// A status that has not yet reached a terminal build state: a missing
/// status, or one of the in-flight build phases.
pub open spec fn nonterminal_status(status: Option<String>) -> bool {
    match status {
        None => true,
        Some(s) => s@ == "BUILDING"@ || s@ == "WAITING"@ || s@ == "INITIALIZING"@ || s@
            == "QUEUED"@,
    }
}

/// The build-completion predicate: every instance of every service is in
/// a terminal status; a service with no instances is trivially settled.
pub open spec fn all_settled(services: Seq<Service>) -> bool {
    forall|i: int, j: int|
        0 <= i < services.len() && 0 <= j < services[i].instances@.len()
            ==> !nonterminal_status(#[trigger] services[i].instances@[j].status)
}

/// Whether a string equals a literal, compared by characters.
fn string_eq_lit(a: &String, b: &str) -> (r: bool)
    ensures
        r == (a@ == b@),
{
    let owned = b.to_owned();
    a.eq(&owned)
}

impl ServiceInstance {
    /// Projects one raw response instance: the deployment-derived fields
    /// are taken from the latest deployment when there is one.
    pub fn from_node(n: ServiceInstanceNode) -> (r: ServiceInstance)
        ensures
            instance_of_node(n, r),
    {
        match n.latest_deployment {
            Some(d) => ServiceInstance {
                healthcheck_path: n.healthcheck_path,
                healthcheck_timeout: n.healthcheck_timeout,
                static_url: d.static_url,
                status: Some(d.status),
                deployment_id: Some(d.id),
            },
            None => ServiceInstance {
                healthcheck_path: n.healthcheck_path,
                healthcheck_timeout: n.healthcheck_timeout,
                static_url: None,
                status: None,
                deployment_id: None,
            },
        }
    }
}

impl Service {
    /// Assembles one service view from a response: its id, its name, and
    /// every raw instance projected in order.
    pub fn from_nodes(id: String, name: String, nodes: Vec<ServiceInstanceNode>) -> (r: Service)
        ensures
            r.id == id,
            r.name == name,
            r.instances@.len() == nodes@.len(),
            forall|i: int|
                0 <= i < nodes@.len() ==> instance_of_node(
                    nodes@[i],
                    #[trigger] r.instances@[i],
                ),
    {
        let mut rest = nodes;
        let ghost all: Seq<ServiceInstanceNode> = rest@;
        let mut instances: Vec<ServiceInstance> = Vec::new();
        while rest.len() > 0
            invariant
                instances@.len() + rest@.len() == all.len(),
                rest@ == all.skip(instances@.len() as int),
                forall|i: int|
                    0 <= i < instances@.len() ==> instance_of_node(
                        all[i],
                        #[trigger] instances@[i],
                    ),
            decreases rest.len(),
        {
            let ghost k: int = instances@.len() as int;
            let node = rest.remove(0);
            proof {
                assert(all.skip(k)[0] == all[k]);
                assert(all.skip(k).remove(0) =~= all.skip(k + 1));
            }
            instances.push(ServiceInstance::from_node(node));
        }
        Service { id, name, instances }
    }

    /// Decides whether the build wait is satisfied: true exactly when no
    /// instance of any service is still in a non-terminal status.
    pub fn all_builds_settled(services: &Vec<Service>) -> (r: bool)
        ensures
            r == all_settled(services@),
    {
        let n = services.len();
        let mut i: usize = 0;
        while i < n
            invariant
                n == services@.len(),
                i <= n,
                forall|a: int, b: int|
                    0 <= a < i && 0 <= b < services@[a].instances@.len()
                        ==> !nonterminal_status(#[trigger] services@[a].instances@[b].status),
            decreases n - i,
        {
            let instances = &services[i].instances;
            let m = instances.len();
            let mut j: usize = 0;
            while j < m
                invariant
                    n == services@.len(),
                    i < n,
                    m == services@[i as int].instances@.len(),
                    instances@ == services@[i as int].instances@,
                    j <= m,
                    forall|b: int|
                        0 <= b < j ==> !nonterminal_status(
                            #[trigger] services@[i as int].instances@[b].status,
                        ),
                decreases m - j,
            {
                let nonterminal = match &instances[j].status {
                    None => true,
                    Some(s) => string_eq_lit(s, "BUILDING") || string_eq_lit(s, "WAITING")
                        || string_eq_lit(s, "INITIALIZING") || string_eq_lit(s, "QUEUED"),
                };
                if nonterminal {
                    assert(nonterminal_status(services@[i as int].instances@[j as int].status));
                    return false;
                }
                j = j + 1;
            }
            i = i + 1;
        }
        true
    }
}

} // verus!
