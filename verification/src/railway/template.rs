//! Templates, deploy requests, and the request builder.
//!
//! The builder turns one parsed template environment into the list of
//! per-service deploy specs, enforcing the two validation rules that can
//! reject a whole template: every required variable must have a non-empty
//! default, and the first TCP proxy key must be a valid port integer.

use vstd::prelude::*;

use crate::environment::{
    DeserializedEnvironment, DeserializedService, DeserializedServiceSource,
    DeserializedServiceVariable, DeserializedServiceVolumeMount,
};
use vstd::string::StrSliceExecFns;

verus! {

/// One volume of a deploy request.
#[derive(Debug, Clone, PartialEq, Eq)]
pub struct NewVolume {
    pub mount_path: String,
}

/// One per-service spec of a deploy request, built from a parsed service
/// and its resolved variables.
#[derive(Debug, Clone, PartialEq, Eq)]
pub struct NewService {
    pub id: String,
    pub has_domain: Option<bool>,
    pub healthcheck_path: Option<String>,
    pub name: String,
    pub service_name: String,
    pub root_directory: Option<String>,
    pub service_icon: Option<String>,
    pub start_command: Option<String>,
    pub tcp_proxy_application_port: Option<i64>,
    pub template: String,
    /// Variable name to resolved value; only defaults are ever bound.
    pub variables: Vec<(String, String)>,
    pub volumes: Vec<NewVolume>,
}

/// The parse outcome of a template's raw configuration. The raw value is
/// an opaque structured document; by the time the pipeline reads it, it
/// has either been parsed into an environment or failed to.
#[derive(Debug, Clone)]
pub enum TemplateConfig {
    /// The catalog row carried no configuration.
    Missing,
    /// The configuration could not be deserialized; carries the message.
    Invalid(String),
    /// The parsed environment; a configuration that deserialized to
    /// nothing is an environment with no services.
    Parsed(DeserializedEnvironment),
}

/// One row of the remote template catalog.
#[derive(Debug, Clone)]
pub struct Template {
    pub id: String,
    pub code: String,
    pub config: TemplateConfig,
}

/// What a successful deploy call returns: the created project, and the
/// provisioning workflow when the platform started one.
#[derive(Debug, Clone)]
pub struct DeployedTemplate {
    pub project_id: String,
    pub workflow_id: Option<String>,
}

/// Why the request builder rejected a whole template.
#[derive(Debug, Clone, PartialEq, Eq)]
pub enum BuildError {
    /// A required variable has no non-empty default, so the template
    /// cannot be deployed headlessly; carries the variable name.
    MissingVariable(String),
    /// A TCP proxy key is not a valid port integer; carries the key.
    InvalidPort(String),
}

/// A successfully built deploy request: the per-service specs in service
/// order, and whether any service declares a healthcheck path.
#[derive(Debug, Clone, PartialEq, Eq)]
pub struct BuiltTemplate {
    pub services: Vec<NewService>,
    pub any_healthcheck: bool,
}

// ------------------------------------------------------------------
// Decimal integer parsing, as the port rule needs it.
// ------------------------------------------------------------------

/// An ASCII decimal digit.
pub open spec fn is_digit_char(c: char) -> bool {
    48 <= c as u32 <= 57
}

/// The numeric value of one ASCII digit.
pub open spec fn digit_char_val(c: char) -> int {
    c as u32 - 48
}

/// Every character of the sequence is an ASCII digit.
pub open spec fn all_digit_chars(s: Seq<char>) -> bool {
    forall|i: int| 0 <= i < s.len() ==> is_digit_char(#[trigger] s[i])
}

/// The value of a digit sequence read in base ten.
pub open spec fn digits_value(s: Seq<char>) -> int
    decreases s.len(),
{
    if s.len() == 0 {
        0
    } else {
        digits_value(s.drop_last()) * 10 + digit_char_val(s.last())
    }
}

/// The digits of a decimal literal: everything after one optional sign.
pub open spec fn int_body(s: Seq<char>) -> Seq<char> {
    if s.len() > 0 && (s[0] == '+' || s[0] == '-') {
        s.drop_first()
    } else {
        s
    }
}

/// Whether a decimal literal carries a minus sign.
pub open spec fn int_negative(s: Seq<char>) -> bool {
    s.len() > 0 && s[0] == '-'
}

/// The signed value of a decimal literal.
pub open spec fn decimal_value(s: Seq<char>) -> int {
    if int_negative(s) {
        -digits_value(int_body(s))
    } else {
        digits_value(int_body(s))
    }
}

/// Whether a string is a decimal integer literal that fits `i64`: an
/// optional sign, at least one digit, nothing else, value in range.
pub open spec fn parses_as_i64(s: Seq<char>) -> bool {
    &&& int_body(s).len() > 0
    &&& all_digit_chars(int_body(s))
    &&& i64::MIN <= decimal_value(s) <= i64::MAX
}

/// A digit sequence has a non-negative value.
proof fn lemma_digits_value_nonneg(s: Seq<char>)
    requires
        all_digit_chars(s),
    ensures
        digits_value(s) >= 0,
    decreases s.len(),
{
    if s.len() > 0 {
        assert(all_digit_chars(s.drop_last())) by {
            assert(forall|i: int|
                0 <= i < s.len() - 1 ==> #[trigger] s.drop_last()[i] == s[i]);
        }
        lemma_digits_value_nonneg(s.drop_last());
    }
}

/// Reading more digits never decreases the value: the value of a prefix
/// bounds the value of the whole digit sequence from below.
proof fn lemma_digits_prefix_le(s: Seq<char>, k: int)
    requires
        all_digit_chars(s),
        0 <= k <= s.len(),
    ensures
        digits_value(s.take(k)) <= digits_value(s),
    decreases s.len(),
{
    if k == s.len() {
        assert(s.take(k) =~= s);
    } else {
        assert(all_digit_chars(s.drop_last())) by {
            assert(forall|i: int|
                0 <= i < s.len() - 1 ==> #[trigger] s.drop_last()[i] == s[i]);
        }
        lemma_digits_prefix_le(s.drop_last(), k);
        assert(s.drop_last().take(k) =~= s.take(k));
        lemma_digits_value_nonneg(s.drop_last());
    }
}

/// Parses a decimal integer literal: an optional sign followed by one or
/// more ASCII digits, with the value required to fit `i64`. Returns the
/// value exactly when the whole string has that shape.
pub fn parse_decimal_i64(s: &str) -> (r: Option<i64>)
    ensures
        r is Some <==> parses_as_i64(s@),
        r matches Some(v) ==> v == decimal_value(s@),
{
    let n = s.unicode_len();
    if n == 0 {
        return None;
    }
    let first = s.get_char(0);
    let neg = first == '-';
    let signed = neg || first == '+';
    let start: usize = if signed {
        1
    } else {
        0
    };
    proof {
        assert(int_body(s@) =~= s@.subrange(start as int, n as int));
    }
    if start == n {
        return None;
    }
    let mut acc: i128 = 0;
    let mut i: usize = start;
    while i < n
        invariant
            start <= i <= n,
            n == s@.len(),
            start == 1 ==> (s@[0] == '+' || s@[0] == '-'),
            int_body(s@) == s@.subrange(start as int, n as int),
            all_digit_chars(s@.subrange(start as int, i as int)),
            acc == digits_value(s@.subrange(start as int, i as int)),
            0 <= acc <= 0x8000_0000_0000_0000,
        decreases n - i,
    {
        let c = s.get_char(i);
        let u = c as u32;
        if u < 48 || u > 57 {
            proof {
                assert(int_body(s@)[i - start] == s@[i as int]);
                assert(!all_digit_chars(int_body(s@)));
            }
            return None;
        }
        proof {
            assert(s@.subrange(start as int, i + 1).drop_last() =~= s@.subrange(
                start as int,
                i as int,
            ));
            assert(s@.subrange(start as int, i + 1).last() == s@[i as int]);
            assert(all_digit_chars(s@.subrange(start as int, i + 1))) by {
                assert(forall|k: int|
                    0 <= k < i + 1 - start ==> #[trigger] s@.subrange(start as int, i + 1)[k]
                        == s@[start + k]);
            }
        }
        acc = acc * 10 + ((u - 48) as i128);
        if acc > 0x8000_0000_0000_0000i128 {
            proof {
                let body = int_body(s@);
                if all_digit_chars(body) {
                    lemma_digits_prefix_le(body, i + 1 - start);
                    assert(body.take(i + 1 - start) =~= s@.subrange(start as int, i + 1));
                }
            }
            return None;
        }
        i = i + 1;
    }
    proof {
        assert(s@.subrange(start as int, n as int) =~= int_body(s@));
    }
    if neg {
        Some((-acc) as i64)
    } else {
        if acc > 0x7fff_ffff_ffff_ffffi128 {
            return None;
        }
        Some(acc as i64)
    }
}

// ------------------------------------------------------------------
// The request builder's validation rules, as specifications.
// ------------------------------------------------------------------

/// The value a variable contributes: its default, when that default is
/// present and non-empty.
pub open spec fn default_binding(v: DeserializedServiceVariable) -> Option<String> {
    match v.default_value {
        Some(d) => if d@.len() > 0 {
            Some(d)
        } else {
            None
        },
        None => None,
    }
}

/// Whether a variable blocks headless deployment: it has no usable
/// default and is not marked optional.
pub open spec fn variable_blocks(v: DeserializedServiceVariable) -> bool {
    default_binding(v) is None && v.is_optional != Some(true)
}

/// The name of the first blocking variable of a service, in declaration
/// order, if any.
pub open spec fn first_missing_variable(
    vars: Seq<(String, DeserializedServiceVariable)>,
) -> Option<String>
    decreases vars.len(),
{
    if vars.len() == 0 {
        None
    } else {
        match first_missing_variable(vars.drop_last()) {
            Some(name) => Some(name),
            None => if variable_blocks(vars.last().1) {
                Some(vars.last().0)
            } else {
                None
            },
        }
    }
}

/// The resolved variable bindings of a service, in declaration order:
/// each variable with a usable default bound to it, the rest skipped.
pub open spec fn variable_bindings(
    vars: Seq<(String, DeserializedServiceVariable)>,
) -> Seq<(String, String)>
    decreases vars.len(),
{
    if vars.len() == 0 {
        Seq::empty()
    } else {
        variable_bindings(vars.drop_last()) + match default_binding(vars.last().1) {
            Some(d) => seq![(vars.last().0, d)],
            None => Seq::empty(),
        }
    }
}

/// The first TCP proxy key of a service, if it declares any proxy.
pub open spec fn first_proxy_key(s: DeserializedService) -> Option<String> {
    match s.networking {
        Some(n) => if n.tcp_proxies@.len() > 0 {
            Some(n.tcp_proxies@[0])
        } else {
            None
        },
        None => None,
    }
}

/// Whether the port rule rejects a service: it declares a proxy whose
/// first key is not a valid port integer.
pub open spec fn proxy_port_blocks(s: DeserializedService) -> bool {
    match first_proxy_key(s) {
        Some(k) => !parses_as_i64(k@),
        None => false,
    }
}

/// Whether a service declares a healthcheck path.
pub open spec fn has_healthcheck(s: DeserializedService) -> bool {
    match s.deploy {
        Some(d) => d.healthcheck_path is Some,
        None => false,
    }
}

/// Why one service rejects the template, if it does: a blocking variable
/// first, the port rule second.
pub open spec fn service_rejection(id: String, s: DeserializedService) -> Option<BuildError> {
    match first_missing_variable(s.variables@) {
        Some(name) => Some(BuildError::MissingVariable(name)),
        None => if proxy_port_blocks(s) {
            Some(BuildError::InvalidPort(first_proxy_key(s).unwrap()))
        } else {
            None
        },
    }
}

/// Why an environment rejects the template, if it does: the rejection of
/// the first rejecting service, in service order.
pub open spec fn environment_rejection(
    services: Seq<(String, DeserializedService)>,
) -> Option<BuildError>
    decreases services.len(),
{
    if services.len() == 0 {
        None
    } else {
        match environment_rejection(services.drop_last()) {
            Some(e) => Some(e),
            None => service_rejection(services.last().0, services.last().1),
        }
    }
}

/// The volumes of a deploy spec: one per mount, in mount order.
pub open spec fn volume_list(
    mounts: Seq<(String, DeserializedServiceVolumeMount)>,
) -> Seq<NewVolume> {
    mounts.map_values(
        |m: (String, DeserializedServiceVolumeMount)| NewVolume { mount_path: m.1.mount_path },
    )
}

/// The root directory of a deploy spec: passed through for a repository
/// source, absent otherwise.
pub open spec fn source_root_directory(s: DeserializedService) -> Option<String> {
    match s.source {
        Some(DeserializedServiceSource::Repo { root_directory, .. }) => root_directory,
        _ => None,
    }
}

/// The deploy target of a spec: the image or the repository, with the
/// service's display name as a defensive fallback when no source exists.
pub open spec fn source_template(s: DeserializedService) -> String {
    match s.source {
        Some(DeserializedServiceSource::Image { image }) => image,
        Some(DeserializedServiceSource::Repo { repo, .. }) => repo,
        None => s.name,
    }
}

/// The healthcheck path a service declares, if any.
pub open spec fn deploy_healthcheck_path(s: DeserializedService) -> Option<String> {
    match s.deploy {
        Some(d) => d.healthcheck_path,
        None => None,
    }
}

/// The start command a service declares, if any.
pub open spec fn deploy_start_command(s: DeserializedService) -> Option<String> {
    match s.deploy {
        Some(d) => d.start_command,
        None => None,
    }
}

/// Whether a service has any service domain, when it has a networking
/// block at all.
pub open spec fn domain_flag(s: DeserializedService) -> Option<bool> {
    match s.networking {
        Some(n) => Some(n.service_domains@.len() > 0),
        None => None,
    }
}

/// What a correctly built deploy spec holds for one service.
pub open spec fn built_service_ok(id: String, s: DeserializedService, out: NewService) -> bool {
    &&& out.id == id
    &&& out.has_domain == domain_flag(s)
    &&& out.healthcheck_path == deploy_healthcheck_path(s)
    &&& out.name == s.name
    &&& out.service_name == s.name
    &&& out.root_directory == source_root_directory(s)
    &&& out.service_icon == s.icon
    &&& out.start_command == deploy_start_command(s)
    &&& match first_proxy_key(s) {
        Some(k) => out.tcp_proxy_application_port matches Some(p) && p == decimal_value(k@),
        None => out.tcp_proxy_application_port is None,
    }
    &&& out.template == source_template(s)
    &&& out.variables@ == variable_bindings(s.variables@)
    &&& out.volumes@ == volume_list(s.volume_mounts@)
}

/// Once a prefix of the services rejects, the whole environment rejects
/// for the same reason.
proof fn lemma_environment_rejection_extends(
    services: Seq<(String, DeserializedService)>,
    k: int,
)
    requires
        0 <= k <= services.len(),
        environment_rejection(services.take(k)) is Some,
    ensures
        environment_rejection(services) == environment_rejection(services.take(k)),
    decreases services.len(),
{
    if k == services.len() {
        assert(services.take(k) =~= services);
    } else {
        assert(services.drop_last().take(k) =~= services.take(k));
        lemma_environment_rejection_extends(services.drop_last(), k);
    }
}

/// Once a prefix of a service's variables has a blocking one, the whole
/// list does, with the same first name.
proof fn lemma_first_missing_extends(vars: Seq<(String, DeserializedServiceVariable)>, k: int)
    requires
        0 <= k <= vars.len(),
        first_missing_variable(vars.take(k)) is Some,
    ensures
        first_missing_variable(vars) == first_missing_variable(vars.take(k)),
    decreases vars.len(),
{
    if k == vars.len() {
        assert(vars.take(k) =~= vars);
    } else {
        assert(vars.drop_last().take(k) =~= vars.take(k));
        lemma_first_missing_extends(vars.drop_last(), k);
    }
}

/// Clones an optional string, keeping its value.
fn clone_opt_string(o: &Option<String>) -> (r: Option<String>)
    ensures
        r == *o,
{
    match o {
        Some(s) => Some(s.clone()),
        None => None,
    }
}

/// Builds the deploy spec of one service, or rejects it: by its first
/// blocking variable, or else by a malformed first proxy key.
fn build_service(id: &String, service: &DeserializedService) -> (r: Result<NewService, BuildError>)
    ensures
        r is Err <==> service_rejection(*id, *service) is Some,
        (r matches Err(e) ==> Some(e) == service_rejection(*id, *service)),
        (r matches Ok(out) ==> built_service_ok(*id, *service, out)),
{
    let vars = &service.variables;
    let m = vars.len();
    let mut variables: Vec<(String, String)> = Vec::new();
    let mut j: usize = 0;
    while j < m
        invariant
            m == vars@.len(),
            vars@ == service.variables@,
            j <= m,
            first_missing_variable(vars@.take(j as int)) is None,
            variables@ == variable_bindings(vars@.take(j as int)),
        decreases m - j,
    {
        proof {
            assert(vars@.take(j + 1).drop_last() =~= vars@.take(j as int));
            assert(vars@.take(j + 1).last() == vars@[j as int]);
        }
        let pair = &vars[j];
        let binding: Option<String> = match &pair.1.default_value {
            Some(value) => if value.as_str().is_empty() {
                None
            } else {
                Some(value.clone())
            },
            None => None,
        };
        proof {
            assert(binding == default_binding(vars@[j as int].1));
        }
        match binding {
            Some(value) => {
                variables.push((pair.0.clone(), value));
                proof {
                    assert(variables@ =~= variable_bindings(vars@.take(j + 1)));
                }
            },
            None => {
                let optional = match pair.1.is_optional {
                    Some(b) => b,
                    None => false,
                };
                if !optional {
                    proof {
                        lemma_first_missing_extends(vars@, j + 1);
                    }
                    return Err(BuildError::MissingVariable(pair.0.clone()));
                }
                proof {
                    assert(variables@ =~= variable_bindings(vars@.take(j + 1)));
                }
            },
        }
        j = j + 1;
    }
    proof {
        assert(vars@.take(m as int) =~= vars@);
    }
    let mounts = &service.volume_mounts;
    let vn = mounts.len();
    let mut volumes: Vec<NewVolume> = Vec::new();
    let mut k: usize = 0;
    while k < vn
        invariant
            vn == mounts@.len(),
            mounts@ == service.volume_mounts@,
            k <= vn,
            volumes@.len() == k,
            forall|t: int|
                0 <= t < k ==> #[trigger] volumes@[t] == (NewVolume {
                    mount_path: mounts@[t].1.mount_path,
                }),
        decreases vn - k,
    {
        volumes.push(NewVolume { mount_path: mounts[k].1.mount_path.clone() });
        k = k + 1;
    }
    proof {
        assert(volumes@ =~= volume_list(mounts@));
    }
    let has_domain: Option<bool> = match &service.networking {
        Some(n) => Some(n.service_domains.len() > 0),
        None => None,
    };
    let tcp_proxy_application_port: Option<i64> = match &service.networking {
        Some(n) => if n.tcp_proxies.len() > 0 {
            let key = &n.tcp_proxies[0];
            match parse_decimal_i64(key.as_str()) {
                Some(p) => Some(p),
                None => {
                    return Err(BuildError::InvalidPort(key.clone()));
                },
            }
        } else {
            None
        },
        None => None,
    };
    let healthcheck_path = match &service.deploy {
        Some(d) => clone_opt_string(&d.healthcheck_path),
        None => None,
    };
    let start_command = match &service.deploy {
        Some(d) => clone_opt_string(&d.start_command),
        None => None,
    };
    let root_directory = match &service.source {
        Some(DeserializedServiceSource::Repo { root_directory, .. }) => clone_opt_string(
            root_directory,
        ),
        _ => None,
    };
    let template = match &service.source {
        Some(DeserializedServiceSource::Image { image }) => image.clone(),
        Some(DeserializedServiceSource::Repo { repo, .. }) => repo.clone(),
        None => service.name.clone(),
    };
    Ok(
        NewService {
            id: id.clone(),
            has_domain,
            healthcheck_path,
            name: service.name.clone(),
            service_name: service.name.clone(),
            root_directory,
            service_icon: clone_opt_string(&service.icon),
            start_command,
            tcp_proxy_application_port,
            template,
            variables,
            volumes,
        },
    )
}

/// The request builder: turns a parsed environment into the per-service
/// deploy specs, in service order, or rejects the whole template at its
/// first rejecting service. Also derives whether any service declares a
/// healthcheck.
pub fn build_services(environment: &DeserializedEnvironment) -> (r: Result<
    BuiltTemplate,
    BuildError,
>)
    ensures
        r is Err <==> environment_rejection(environment.services@) is Some,
        (r matches Err(e) ==> Some(e) == environment_rejection(environment.services@)),
        (r matches Ok(built) ==> {
            let svs = environment.services@;
            &&& built.services@.len() == svs.len()
            &&& forall|i: int|
                0 <= i < svs.len() ==> built_service_ok(
                    svs[i].0,
                    svs[i].1,
                    #[trigger] built.services@[i],
                )
            &&& built.any_healthcheck == exists|i: int|
                0 <= i < svs.len() && has_healthcheck(#[trigger] svs[i].1)
        }),
{
    let svs = &environment.services;
    let n = svs.len();
    let mut services: Vec<NewService> = Vec::new();
    let mut any_healthcheck = false;
    let mut i: usize = 0;
    while i < n
        invariant
            n == svs@.len(),
            svs@ == environment.services@,
            i <= n,
            environment_rejection(svs@.take(i as int)) is None,
            services@.len() == i,
            forall|t: int|
                0 <= t < i ==> built_service_ok(svs@[t].0, svs@[t].1, #[trigger] services@[t]),
            any_healthcheck == exists|t: int| 0 <= t < i && has_healthcheck(#[trigger] svs@[t].1),
        decreases n - i,
    {
        proof {
            assert(svs@.take(i + 1).drop_last() =~= svs@.take(i as int));
            assert(svs@.take(i + 1).last() == svs@[i as int]);
        }
        let pair = &svs[i];
        match build_service(&pair.0, &pair.1) {
            Ok(out) => {
                let hc = match &pair.1.deploy {
                    Some(d) => d.healthcheck_path.is_some(),
                    None => false,
                };
                proof {
                    assert(hc == has_healthcheck(svs@[i as int].1));
                }
                let previously = any_healthcheck;
                any_healthcheck = any_healthcheck || hc;
                services.push(out);
                proof {
                    if previously {
                        let t0 = choose|t: int| 0 <= t < i && has_healthcheck(svs@[t].1);
                        assert(0 <= t0 < i + 1 && has_healthcheck(svs@[t0].1));
                    } else if hc {
                        assert(has_healthcheck(svs@[i as int].1));
                    } else {
                        assert(forall|t: int|
                            0 <= t < i + 1 ==> !has_healthcheck(#[trigger] svs@[t].1)) by {
                            assert(forall|t: int|
                                0 <= t < i ==> !has_healthcheck(#[trigger] svs@[t].1));
                        }
                    }
                }
                i = i + 1;
            },
            Err(e) => {
                proof {
                    lemma_environment_rejection_extends(svs@, i + 1);
                }
                return Err(e);
            },
        }
    }
    proof {
        assert(svs@.take(n as int) =~= svs@);
    }
    Ok(BuiltTemplate { services, any_healthcheck })
}

} // verus!
