//! The static service registry: the closed set of known services, the
//! parsing of user-supplied tokens into service identities, and the
//! per-service configuration strings (canonical key, peer URLs).

use vstd::prelude::*;
use vstd::string::StrSliceExecFns;

verus! {

/// Which half of a service's stack a launch targets.
#[derive(Clone, Copy, Debug, PartialEq, Eq, Structural)]
pub enum Directory {
    Frontend,
    Backend,
}

/// Outcome of a whole run, reported to the caller's shell.
#[allow(non_camel_case_types)]
#[derive(Clone, Copy, Debug, PartialEq, Eq, Structural)]
pub enum ProgramStatus {
    SUCCESS,
    FAILED,
}

impl ProgramStatus {
    /// The process exit code this status stands for.
    pub fn code(&self) -> (r: u8)
        ensures
            r == (if *self == ProgramStatus::SUCCESS { 0int } else { 1int }),
    {
        match self {
            ProgramStatus::SUCCESS => 0,
            ProgramStatus::FAILED => 1,
        }
    }
}

/// A known internal service. The set is closed: every service this tool
/// can start is a variant here, and the registry maps each one to its
/// canonical key and configuration strings.
#[derive(Clone, Copy, Debug, Hash, PartialEq, Eq, Structural)]
pub enum Nub {
    APIRouter,
    Behandle,
    Billing,
    BusinessRules,
    CMS,
    Filestore,
    Forms,
    Mapping,
    Paglipat,
    PlatformAdmin,
    PolicyData,
    ServiceTracker,
    Users,
    Vinna,
}

/// The canonical lowercase key of a service: used for display and as the
/// name of the service's directory under the services root.
pub open spec fn key_spec(n: Nub) -> Seq<char> {
    match n {
        Nub::APIRouter => "api"@,
        Nub::Behandle => "behandle"@,
        Nub::Billing => "billing"@,
        Nub::BusinessRules => "business-rules"@,
        Nub::CMS => "cms"@,
        Nub::Filestore => "filestore"@,
        Nub::Forms => "forms"@,
        Nub::Mapping => "mapping"@,
        Nub::Paglipat => "paglipat"@,
        Nub::PlatformAdmin => "platform-admin"@,
        Nub::PolicyData => "policy-data"@,
        Nub::ServiceTracker => "service-tracker"@,
        Nub::Users => "users"@,
        Nub::Vinna => "vinna"@,
    }
}

/// The code point of `c` with an ASCII uppercase letter folded to its
/// lowercase counterpart; any other character is left as it is.
pub open spec fn lower_code(c: char) -> int {
    if 65 <= c as int && c as int <= 90 {
        c as int + 32
    } else {
        c as int
    }
}

/// `s`, folded to ASCII lowercase, spells exactly the token `t`.
pub open spec fn matches_token(s: Seq<char>, t: Seq<char>) -> bool {
    s.len() == t.len() && (forall|i: int| 0 <= i < s.len() ==> lower_code(s[i]) == #[trigger] t[i] as int)
}

/// Case-insensitive comparison of an input against one registry token.
fn token_matches(s: &str, t: &str) -> (r: bool)
    ensures
        r == matches_token(s@, t@),
{
    let n = s.unicode_len();
    if n != t.unicode_len() {
        return false;
    }
    let mut i: usize = 0;
    while i < n
        invariant
            n == s@.len(),
            n == t@.len(),
            i <= n,
            forall|j: int| 0 <= j < i ==> lower_code(s@[j]) == #[trigger] t@[j] as int,
        decreases n - i,
    {
        let cu = s.get_char(i) as u32;
        let ku = t.get_char(i) as u32;
        let folded: u32 = if 65 <= cu && cu <= 90 {
            cu + 32
        } else {
            cu
        };
        if folded != ku {
            return false;
        }
        i = i + 1;
    }
    true
}

/// What `Nub::from_string` returns for an input with the given characters:
/// the case-insensitive match of the input against each service's canonical
/// key and accepted aliases, or no match at all.
pub open spec fn parse_spec(s: Seq<char>) -> Option<Nub> {
    if matches_token(s, "apirouter"@) || matches_token(s, "api"@) {
        Some(Nub::APIRouter)
    } else if matches_token(s, "billing"@) {
        Some(Nub::Billing)
    } else if matches_token(s, "behandle"@) || matches_token(s, "bh"@) {
        Some(Nub::Behandle)
    } else if matches_token(s, "business-rules"@) || matches_token(s, "br"@) {
        Some(Nub::BusinessRules)
    } else if matches_token(s, "cms"@) {
        Some(Nub::CMS)
    } else if matches_token(s, "filestore"@) || matches_token(s, "fs"@) {
        Some(Nub::Filestore)
    } else if matches_token(s, "forms"@) {
        Some(Nub::Forms)
    } else if matches_token(s, "mapping"@) {
        Some(Nub::Mapping)
    } else if matches_token(s, "paglipat"@) {
        Some(Nub::Paglipat)
    } else if matches_token(s, "platform-admin"@) || matches_token(s, "pa"@) {
        Some(Nub::PlatformAdmin)
    } else if matches_token(s, "policy-data"@) || matches_token(s, "pd"@) {
        Some(Nub::PolicyData)
    } else if matches_token(s, "service-tracker"@) || matches_token(s, "st"@) {
        Some(Nub::ServiceTracker)
    } else if matches_token(s, "users"@) {
        Some(Nub::Users)
    } else if matches_token(s, "vinna"@) {
        Some(Nub::Vinna)
    } else {
        None
    }
}

/// The input, folded to lowercase, spells some canonical key or some
/// accepted alias of the registry.
pub open spec fn is_known_token(s: Seq<char>) -> bool {
    ||| matches_token(s, "apirouter"@)
    ||| matches_token(s, "api"@)
    ||| matches_token(s, "billing"@)
    ||| matches_token(s, "behandle"@)
    ||| matches_token(s, "bh"@)
    ||| matches_token(s, "business-rules"@)
    ||| matches_token(s, "br"@)
    ||| matches_token(s, "cms"@)
    ||| matches_token(s, "filestore"@)
    ||| matches_token(s, "fs"@)
    ||| matches_token(s, "forms"@)
    ||| matches_token(s, "mapping"@)
    ||| matches_token(s, "paglipat"@)
    ||| matches_token(s, "platform-admin"@)
    ||| matches_token(s, "pa"@)
    ||| matches_token(s, "policy-data"@)
    ||| matches_token(s, "pd"@)
    ||| matches_token(s, "service-tracker"@)
    ||| matches_token(s, "st"@)
    ||| matches_token(s, "users"@)
    ||| matches_token(s, "vinna"@)
}

impl Nub {
    /// Parses a user-supplied token, case-insensitively, against each
    /// service's canonical key and accepted aliases. An unrecognized token
    /// yields no match, never a default service.
    pub fn from_string(s: &str) -> (r: Option<Self>)
        ensures
            r == parse_spec(s@),
    {
        if token_matches(s, "apirouter") || token_matches(s, "api") {
            Some(Nub::APIRouter)
        } else if token_matches(s, "billing") {
            Some(Nub::Billing)
        } else if token_matches(s, "behandle") || token_matches(s, "bh") {
            Some(Nub::Behandle)
        } else if token_matches(s, "business-rules") || token_matches(s, "br") {
            Some(Nub::BusinessRules)
        } else if token_matches(s, "cms") {
            Some(Nub::CMS)
        } else if token_matches(s, "filestore") || token_matches(s, "fs") {
            Some(Nub::Filestore)
        } else if token_matches(s, "forms") {
            Some(Nub::Forms)
        } else if token_matches(s, "mapping") {
            Some(Nub::Mapping)
        } else if token_matches(s, "paglipat") {
            Some(Nub::Paglipat)
        } else if token_matches(s, "platform-admin") || token_matches(s, "pa") {
            Some(Nub::PlatformAdmin)
        } else if token_matches(s, "policy-data") || token_matches(s, "pd") {
            Some(Nub::PolicyData)
        } else if token_matches(s, "service-tracker") || token_matches(s, "st") {
            Some(Nub::ServiceTracker)
        } else if token_matches(s, "users") {
            Some(Nub::Users)
        } else if token_matches(s, "vinna") {
            Some(Nub::Vinna)
        } else {
            None
        }
    }

    /// The canonical key of this service.
    pub fn as_string(&self) -> (r: String)
        ensures
            r@ == key_spec(*self),
    {
        match self {
            Nub::APIRouter => "api".to_owned(),
            Nub::Behandle => "behandle".to_owned(),
            Nub::Billing => "billing".to_owned(),
            Nub::BusinessRules => "business-rules".to_owned(),
            Nub::CMS => "cms".to_owned(),
            Nub::Filestore => "filestore".to_owned(),
            Nub::Forms => "forms".to_owned(),
            Nub::Mapping => "mapping".to_owned(),
            Nub::Paglipat => "paglipat".to_owned(),
            Nub::PlatformAdmin => "platform-admin".to_owned(),
            Nub::PolicyData => "policy-data".to_owned(),
            Nub::ServiceTracker => "service-tracker".to_owned(),
            Nub::Users => "users".to_owned(),
            Nub::Vinna => "vinna".to_owned(),
        }
    }
}

/// The frontend peer-URL declaration of a service: an environment-variable
/// assignment naming the local https URL of that service's dev server.
/// Absent for services that expose no local frontend.
pub open spec fn frontend_url_spec(n: Nub) -> Option<Seq<char>> {
    match n {
        Nub::APIRouter => None,
        Nub::Behandle => Some("VUE_APP_BEHANDLE_URL=https://localhost.imtins.com:8020"@),
        Nub::Billing => Some("VUE_APP_BILLING_URL=https://localhost.imtins.com:8022"@),
        Nub::BusinessRules => Some(
            "VUE_APP_ADMIN_URL_BUSINESS_RULES=https://localhost.imtins.com:8013"@,
        ),
        Nub::CMS => Some("VUE_APP_ADMIN_URL_CMS=https://localhost.imtins.com:8015"@),
        Nub::Filestore => Some("VUE_APP_ADMIN_URL_FILESTORE=https://localhost.imtins.com:8019"@),
        Nub::Forms => Some("VUE_APP_ADMIN_URL_FORMS=https://localhost.imtins.com:8014"@),
        Nub::Mapping => Some("VUE_APP_ADMIN_URL_MAPPING=https://localhost.imtins.com:8010"@),
        Nub::Paglipat => None,
        Nub::PlatformAdmin => Some(
            "VUE_APP_ADMIN_URL_PLATFORM_ADMIN=https://localhost.imtins.com:8016"@,
        ),
        Nub::PolicyData => Some("VUE_APP_POLICY_DATA_URL=https://localhost.imtins.com:8012"@),
        Nub::ServiceTracker => None,
        Nub::Users => Some("VUE_APP_ADMIN_URL_USERS=https://localhost.imtins.com:8018"@),
        Nub::Vinna => Some("VUE_APP_ADMIN_URL_VINNA=https://localhost.imtins.com:8009"@),
    }
}

/// The service exposes a local frontend, so its frontend peer URL is defined.
pub open spec fn has_frontend_url(n: Nub) -> bool {
    frontend_url_spec(n) is Some
}

/// The backend internal-URL declaration of a service: a key/value line
/// routing backend-internal traffic for that service to a fixed internal
/// hostname alias and a fixed per-service port.
pub open spec fn backend_url_spec(n: Nub) -> Seq<char> {
    match n {
        Nub::APIRouter => "INTERNAL_NUBS['api_router']=\"https://api:7013\""@,
        Nub::Behandle => "INTERNAL_NUBS['behandle']=\"https://behandle:7010\""@,
        Nub::Billing => "INTERNAL_NUBS['billing']=\"https://billing:7009\""@,
        Nub::BusinessRules => "INTERNAL_NUBS['business_rules']=\"https://br:7004\""@,
        Nub::CMS => "INTERNAL_NUBS['cms']=\"https://cms:7001\""@,
        Nub::Filestore => "INTERNAL_NUBS['filestore']=\"https://fs:7005\""@,
        Nub::Forms => "INTERNAL_NUBS['forms']=\"https://forms:7002\""@,
        Nub::Mapping => "INTERNAL_NUBS['mapping']=\"https://mapping:7015\""@,
        Nub::Paglipat => "INTERNAL_NUBS['paglipat']=\"https://paglipat:7017\""@,
        Nub::PlatformAdmin => "INTERNAL_NUBS['platform_admin']=\"https://pa:7000\""@,
        Nub::PolicyData => "INTERNAL_NUBS['policy_data']=\"https://pd:7003\""@,
        Nub::ServiceTracker => "INTERNAL_NUBS['service_tracker']=\"https://st:7006\""@,
        Nub::Users => "INTERNAL_NUBS['users']=\"https://users:7007\""@,
        Nub::Vinna => "INTERNAL_NUBS['vinna']=\"https://vinna:7016\""@,
    }
}

/// The base filesystem path of a service under the configured services root.
pub open spec fn base_path_spec(root: Seq<char>, n: Nub) -> Seq<char> {
    root + "/"@ + key_spec(n)
}

/// The per-layer working directory of a service: its base path with the
/// layer's fixed suffix appended.
pub open spec fn working_dir_spec(root: Seq<char>, n: Nub, d: Directory) -> Seq<char> {
    match d {
        Directory::Frontend => base_path_spec(root, n) + "/frontend"@,
        Directory::Backend => base_path_spec(root, n) + "/project/settings"@,
    }
}

impl Nub {
    /// The frontend peer-URL declaration, or `None` for a service without
    /// a local frontend — never an empty or substituted string.
    pub fn frontend_peer_url(&self) -> (r: Option<String>)
        ensures
            r is Some <==> has_frontend_url(*self),
            r is Some ==> frontend_url_spec(*self) == Some(r->0@),
    {
        match self {
            Nub::APIRouter => None,
            Nub::Behandle => Some(
                "VUE_APP_BEHANDLE_URL=https://localhost.imtins.com:8020".to_owned(),
            ),
            Nub::Billing => Some(
                "VUE_APP_BILLING_URL=https://localhost.imtins.com:8022".to_owned(),
            ),
            Nub::BusinessRules => Some(
                "VUE_APP_ADMIN_URL_BUSINESS_RULES=https://localhost.imtins.com:8013".to_owned(),
            ),
            Nub::CMS => Some("VUE_APP_ADMIN_URL_CMS=https://localhost.imtins.com:8015".to_owned()),
            Nub::Filestore => Some(
                "VUE_APP_ADMIN_URL_FILESTORE=https://localhost.imtins.com:8019".to_owned(),
            ),
            Nub::Forms => Some(
                "VUE_APP_ADMIN_URL_FORMS=https://localhost.imtins.com:8014".to_owned(),
            ),
            Nub::Mapping => Some(
                "VUE_APP_ADMIN_URL_MAPPING=https://localhost.imtins.com:8010".to_owned(),
            ),
            Nub::Paglipat => None,
            Nub::PlatformAdmin => Some(
                "VUE_APP_ADMIN_URL_PLATFORM_ADMIN=https://localhost.imtins.com:8016".to_owned(),
            ),
            Nub::PolicyData => Some(
                "VUE_APP_POLICY_DATA_URL=https://localhost.imtins.com:8012".to_owned(),
            ),
            Nub::ServiceTracker => None,
            Nub::Users => Some(
                "VUE_APP_ADMIN_URL_USERS=https://localhost.imtins.com:8018".to_owned(),
            ),
            Nub::Vinna => Some(
                "VUE_APP_ADMIN_URL_VINNA=https://localhost.imtins.com:8009".to_owned(),
            ),
        }
    }

    /// The frontend peer-URL declaration of a service that has one.
    /// Calling this for a service without a frontend is a contract
    /// violation, ruled out by the precondition.
    pub fn as_local_frontend_url(&self) -> (r: String)
        requires
            has_frontend_url(*self),
        ensures
            frontend_url_spec(*self) == Some(r@),
    {
        match self.frontend_peer_url() {
            Some(u) => u,
            None => vstd::pervasive::unreached(),
        }
    }

    /// The base filesystem path of this service: the services root,
    /// a separator, and the canonical key. The caller reads the services
    /// root from its environment configuration once and passes it in.
    pub fn as_path_str(&self, services_root: &str) -> (r: String)
        ensures
            r@ == base_path_spec(services_root@, *self),
    {
        let mut p = services_root.to_owned();
        p.append("/");
        let key = self.as_string();
        p.append(key.as_str());
        p
    }

    /// The working directory a launch of this service must run in: the
    /// frontend dev server under `/frontend`, the backend container stack
    /// under `/project/settings`. The caller makes the returned path the
    /// spawned process's working directory; this function itself touches
    /// no process-wide state.
    pub fn set_as_wd(&self, dir_type: &Directory, services_root: &str) -> (r: String)
        ensures
            r@ == working_dir_spec(services_root@, *self, *dir_type),
    {
        let mut p = self.as_path_str(services_root);
        if *dir_type == Directory::Frontend {
            p.append("/frontend");
        } else {
            p.append("/project/settings");
        }
        p
    }

    /// The backend internal-URL declaration of this service.
    pub fn as_local_backend_url(&self) -> (r: String)
        ensures
            r@ == backend_url_spec(*self),
    {
        match self {
            Nub::APIRouter => "INTERNAL_NUBS['api_router']=\"https://api:7013\"".to_owned(),
            Nub::Behandle => "INTERNAL_NUBS['behandle']=\"https://behandle:7010\"".to_owned(),
            Nub::Billing => "INTERNAL_NUBS['billing']=\"https://billing:7009\"".to_owned(),
            Nub::BusinessRules => "INTERNAL_NUBS['business_rules']=\"https://br:7004\"".to_owned(),
            Nub::CMS => "INTERNAL_NUBS['cms']=\"https://cms:7001\"".to_owned(),
            Nub::Filestore => "INTERNAL_NUBS['filestore']=\"https://fs:7005\"".to_owned(),
            Nub::Forms => "INTERNAL_NUBS['forms']=\"https://forms:7002\"".to_owned(),
            Nub::Mapping => "INTERNAL_NUBS['mapping']=\"https://mapping:7015\"".to_owned(),
            Nub::Paglipat => "INTERNAL_NUBS['paglipat']=\"https://paglipat:7017\"".to_owned(),
            Nub::PlatformAdmin => "INTERNAL_NUBS['platform_admin']=\"https://pa:7000\"".to_owned(),
            Nub::PolicyData => "INTERNAL_NUBS['policy_data']=\"https://pd:7003\"".to_owned(),
            Nub::ServiceTracker => "INTERNAL_NUBS['service_tracker']=\"https://st:7006\"".to_owned(),
            Nub::Users => "INTERNAL_NUBS['users']=\"https://users:7007\"".to_owned(),
            Nub::Vinna => "INTERNAL_NUBS['vinna']=\"https://vinna:7016\"".to_owned(),
        }
    }
}

} // verus!
