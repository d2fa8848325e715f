//! Registry-wide laws: proofs that the static service table behaves as a
//! registry must — canonical keys round-trip through parsing, unknown
//! tokens never parse, and the configuration strings all follow their
//! fixed shapes.

use vstd::prelude::*;
use crate::registry::Directory;
use crate::registry::Nub;
use crate::registry::backend_url_spec;
use crate::registry::base_path_spec;
use crate::registry::frontend_url_spec;
use crate::registry::has_frontend_url;
use crate::registry::is_known_token;
use crate::registry::key_spec;
use crate::registry::lower_code;
use crate::registry::matches_token;
use crate::registry::parse_spec;
use crate::registry::working_dir_spec;

verus! {

/// `p` is a prefix of `s`.
pub open spec fn starts_with(s: Seq<char>, p: Seq<char>) -> bool {
    p.len() <= s.len() && s.subrange(0, p.len() as int) == p
}

/// `t` is a suffix of `s`.
pub open spec fn ends_with(s: Seq<char>, t: Seq<char>) -> bool {
    t.len() <= s.len() && s.subrange(s.len() - t.len(), s.len() as int) == t
}

/// Parsing the canonical key of a service yields that very service.
pub proof fn lemma_parse_canonical_key(n: Nub)
    ensures
        parse_spec(key_spec(n)) == Some(n),
{
    reveal_strlit("apirouter");
    reveal_strlit("api");
    reveal_strlit("billing");
    reveal_strlit("behandle");
    reveal_strlit("bh");
    reveal_strlit("business-rules");
    reveal_strlit("br");
    reveal_strlit("cms");
    reveal_strlit("filestore");
    reveal_strlit("fs");
    reveal_strlit("forms");
    reveal_strlit("mapping");
    reveal_strlit("paglipat");
    reveal_strlit("platform-admin");
    reveal_strlit("pa");
    reveal_strlit("policy-data");
    reveal_strlit("pd");
    reveal_strlit("service-tracker");
    reveal_strlit("st");
    reveal_strlit("users");
    reveal_strlit("vinna");
    match n {
        Nub::APIRouter => {
            assert(matches_token("api"@, "api"@));
        },
        Nub::Behandle => {
            assert(matches_token("behandle"@, "behandle"@));
        },
        Nub::Billing => {
            assert(matches_token("billing"@, "billing"@));
        },
        Nub::BusinessRules => {
            assert(matches_token("business-rules"@, "business-rules"@));
        },
        Nub::CMS => {
            assert(lower_code("cms"@[0]) != "api"@[0] as int);
            assert(matches_token("cms"@, "cms"@));
        },
        Nub::Filestore => {
            assert(lower_code("filestore"@[0]) != "apirouter"@[0] as int);
            assert(matches_token("filestore"@, "filestore"@));
        },
        Nub::Forms => {
            assert(matches_token("forms"@, "forms"@));
        },
        Nub::Mapping => {
            assert(lower_code("mapping"@[0]) != "billing"@[0] as int);
            assert(matches_token("mapping"@, "mapping"@));
        },
        Nub::Paglipat => {
            assert(lower_code("paglipat"@[0]) != "behandle"@[0] as int);
            assert(matches_token("paglipat"@, "paglipat"@));
        },
        Nub::PlatformAdmin => {
            assert(lower_code("platform-admin"@[0]) != "business-rules"@[0] as int);
            assert(matches_token("platform-admin"@, "platform-admin"@));
        },
        Nub::PolicyData => {
            assert(matches_token("policy-data"@, "policy-data"@));
        },
        Nub::ServiceTracker => {
            assert(matches_token("service-tracker"@, "service-tracker"@));
        },
        Nub::Users => {
            assert(lower_code("users"@[0]) != "forms"@[0] as int);
            assert(matches_token("users"@, "users"@));
        },
        Nub::Vinna => {
            assert(lower_code("vinna"@[0]) != "forms"@[0] as int);
            assert(lower_code("vinna"@[0]) != "users"@[0] as int);
            assert(matches_token("vinna"@, "vinna"@));
        },
    }
}

/// Parsing matches exactly the known tokens: an input parses to some
/// service if and only if it spells, case-insensitively, a canonical key
/// or an accepted alias. In particular an unrecognized token yields no
/// match — never a default service.
pub proof fn lemma_parse_no_default(s: Seq<char>)
    ensures
        parse_spec(s) is Some <==> is_known_token(s),
{
}

/// Every working directory is rooted at the service's base path and ends
/// in its layer's fixed suffix: `/frontend` for a frontend launch,
/// `/project/settings` for a backend launch.
pub proof fn lemma_working_dir_shape(root: Seq<char>, n: Nub, d: Directory)
    ensures
        starts_with(working_dir_spec(root, n, d), base_path_spec(root, n)),
        d == Directory::Frontend ==> ends_with(working_dir_spec(root, n, d), "/frontend"@),
        d == Directory::Backend ==> ends_with(working_dir_spec(root, n, d), "/project/settings"@),
{
    let base = base_path_spec(root, n);
    match d {
        Directory::Frontend => {
            let suf = "/frontend"@;
            assert((base + suf).subrange(0, base.len() as int) =~= base);
            assert((base + suf).subrange((base + suf).len() - suf.len(), (base + suf).len() as int)
                =~= suf);
        },
        Directory::Backend => {
            let suf = "/project/settings"@;
            assert((base + suf).subrange(0, base.len() as int) =~= base);
            assert((base + suf).subrange((base + suf).len() - suf.len(), (base + suf).len() as int)
                =~= suf);
        },
    }
}

/// The environment-variable name a service's frontend URL is declared
/// under; meaningful only for services with a frontend.
pub open spec fn frontend_var_spec(n: Nub) -> Seq<char> {
    match n {
        Nub::APIRouter => Seq::empty(),
        Nub::Behandle => "VUE_APP_BEHANDLE_URL"@,
        Nub::Billing => "VUE_APP_BILLING_URL"@,
        Nub::BusinessRules => "VUE_APP_ADMIN_URL_BUSINESS_RULES"@,
        Nub::CMS => "VUE_APP_ADMIN_URL_CMS"@,
        Nub::Filestore => "VUE_APP_ADMIN_URL_FILESTORE"@,
        Nub::Forms => "VUE_APP_ADMIN_URL_FORMS"@,
        Nub::Mapping => "VUE_APP_ADMIN_URL_MAPPING"@,
        Nub::Paglipat => Seq::empty(),
        Nub::PlatformAdmin => "VUE_APP_ADMIN_URL_PLATFORM_ADMIN"@,
        Nub::PolicyData => "VUE_APP_POLICY_DATA_URL"@,
        Nub::ServiceTracker => Seq::empty(),
        Nub::Users => "VUE_APP_ADMIN_URL_USERS"@,
        Nub::Vinna => "VUE_APP_ADMIN_URL_VINNA"@,
    }
}

/// The digits of the fixed local port a service's frontend dev server is
/// reached on; meaningful only for services with a frontend.
pub open spec fn frontend_port_str_spec(n: Nub) -> Seq<char> {
    match n {
        Nub::APIRouter => Seq::empty(),
        Nub::Behandle => "8020"@,
        Nub::Billing => "8022"@,
        Nub::BusinessRules => "8013"@,
        Nub::CMS => "8015"@,
        Nub::Filestore => "8019"@,
        Nub::Forms => "8014"@,
        Nub::Mapping => "8010"@,
        Nub::Paglipat => Seq::empty(),
        Nub::PlatformAdmin => "8016"@,
        Nub::PolicyData => "8012"@,
        Nub::ServiceTracker => Seq::empty(),
        Nub::Users => "8018"@,
        Nub::Vinna => "8009"@,
    }
}

/// Every defined frontend URL is the declaration of one variable, the
/// fixed local https hostname, and the service's fixed port — nothing
/// else varies between services.
pub proof fn lemma_frontend_url_shape(n: Nub)
    requires
        has_frontend_url(n),
    ensures
        frontend_url_spec(n)->0 == frontend_var_spec(n)
            + "=https://localhost.imtins.com:"@ + frontend_port_str_spec(n),
{
    reveal_strlit("=https://localhost.imtins.com:");
    match n {
        Nub::APIRouter => {
        },
        Nub::Behandle => {
            reveal_strlit("VUE_APP_BEHANDLE_URL=https://localhost.imtins.com:8020");
            reveal_strlit("VUE_APP_BEHANDLE_URL");
            reveal_strlit("8020");
            assert(frontend_url_spec(n)->0 =~= frontend_var_spec(n)
                + "=https://localhost.imtins.com:"@ + frontend_port_str_spec(n));
        },
        Nub::Billing => {
            reveal_strlit("VUE_APP_BILLING_URL=https://localhost.imtins.com:8022");
            reveal_strlit("VUE_APP_BILLING_URL");
            reveal_strlit("8022");
            assert(frontend_url_spec(n)->0 =~= frontend_var_spec(n)
                + "=https://localhost.imtins.com:"@ + frontend_port_str_spec(n));
        },
        Nub::BusinessRules => {
            reveal_strlit("VUE_APP_ADMIN_URL_BUSINESS_RULES=https://localhost.imtins.com:8013");
            reveal_strlit("VUE_APP_ADMIN_URL_BUSINESS_RULES");
            reveal_strlit("8013");
            assert(frontend_url_spec(n)->0 =~= frontend_var_spec(n)
                + "=https://localhost.imtins.com:"@ + frontend_port_str_spec(n));
        },
        Nub::CMS => {
            reveal_strlit("VUE_APP_ADMIN_URL_CMS=https://localhost.imtins.com:8015");
            reveal_strlit("VUE_APP_ADMIN_URL_CMS");
            reveal_strlit("8015");
            assert(frontend_url_spec(n)->0 =~= frontend_var_spec(n)
                + "=https://localhost.imtins.com:"@ + frontend_port_str_spec(n));
        },
        Nub::Filestore => {
            reveal_strlit("VUE_APP_ADMIN_URL_FILESTORE=https://localhost.imtins.com:8019");
            reveal_strlit("VUE_APP_ADMIN_URL_FILESTORE");
            reveal_strlit("8019");
            assert(frontend_url_spec(n)->0 =~= frontend_var_spec(n)
                + "=https://localhost.imtins.com:"@ + frontend_port_str_spec(n));
        },
        Nub::Forms => {
            reveal_strlit("VUE_APP_ADMIN_URL_FORMS=https://localhost.imtins.com:8014");
            reveal_strlit("VUE_APP_ADMIN_URL_FORMS");
            reveal_strlit("8014");
            assert(frontend_url_spec(n)->0 =~= frontend_var_spec(n)
                + "=https://localhost.imtins.com:"@ + frontend_port_str_spec(n));
        },
        Nub::Mapping => {
            reveal_strlit("VUE_APP_ADMIN_URL_MAPPING=https://localhost.imtins.com:8010");
            reveal_strlit("VUE_APP_ADMIN_URL_MAPPING");
            reveal_strlit("8010");
            assert(frontend_url_spec(n)->0 =~= frontend_var_spec(n)
                + "=https://localhost.imtins.com:"@ + frontend_port_str_spec(n));
        },
        Nub::Paglipat => {
        },
        Nub::PlatformAdmin => {
            reveal_strlit("VUE_APP_ADMIN_URL_PLATFORM_ADMIN=https://localhost.imtins.com:8016");
            reveal_strlit("VUE_APP_ADMIN_URL_PLATFORM_ADMIN");
            reveal_strlit("8016");
            assert(frontend_url_spec(n)->0 =~= frontend_var_spec(n)
                + "=https://localhost.imtins.com:"@ + frontend_port_str_spec(n));
        },
        Nub::PolicyData => {
            reveal_strlit("VUE_APP_POLICY_DATA_URL=https://localhost.imtins.com:8012");
            reveal_strlit("VUE_APP_POLICY_DATA_URL");
            reveal_strlit("8012");
            assert(frontend_url_spec(n)->0 =~= frontend_var_spec(n)
                + "=https://localhost.imtins.com:"@ + frontend_port_str_spec(n));
        },
        Nub::ServiceTracker => {
        },
        Nub::Users => {
            reveal_strlit("VUE_APP_ADMIN_URL_USERS=https://localhost.imtins.com:8018");
            reveal_strlit("VUE_APP_ADMIN_URL_USERS");
            reveal_strlit("8018");
            assert(frontend_url_spec(n)->0 =~= frontend_var_spec(n)
                + "=https://localhost.imtins.com:"@ + frontend_port_str_spec(n));
        },
        Nub::Vinna => {
            reveal_strlit("VUE_APP_ADMIN_URL_VINNA=https://localhost.imtins.com:8009");
            reveal_strlit("VUE_APP_ADMIN_URL_VINNA");
            reveal_strlit("8009");
            assert(frontend_url_spec(n)->0 =~= frontend_var_spec(n)
                + "=https://localhost.imtins.com:"@ + frontend_port_str_spec(n));
        },
    }
}

/// The snake_case name a service's backend URL is keyed by.
pub open spec fn backend_name_spec(n: Nub) -> Seq<char> {
    match n {
        Nub::APIRouter => "api_router"@,
        Nub::Behandle => "behandle"@,
        Nub::Billing => "billing"@,
        Nub::BusinessRules => "business_rules"@,
        Nub::CMS => "cms"@,
        Nub::Filestore => "filestore"@,
        Nub::Forms => "forms"@,
        Nub::Mapping => "mapping"@,
        Nub::Paglipat => "paglipat"@,
        Nub::PlatformAdmin => "platform_admin"@,
        Nub::PolicyData => "policy_data"@,
        Nub::ServiceTracker => "service_tracker"@,
        Nub::Users => "users"@,
        Nub::Vinna => "vinna"@,
    }
}

/// The fixed internal hostname alias a service's backend is routed to.
pub open spec fn backend_host_spec(n: Nub) -> Seq<char> {
    match n {
        Nub::APIRouter => "api"@,
        Nub::Behandle => "behandle"@,
        Nub::Billing => "billing"@,
        Nub::BusinessRules => "br"@,
        Nub::CMS => "cms"@,
        Nub::Filestore => "fs"@,
        Nub::Forms => "forms"@,
        Nub::Mapping => "mapping"@,
        Nub::Paglipat => "paglipat"@,
        Nub::PlatformAdmin => "pa"@,
        Nub::PolicyData => "pd"@,
        Nub::ServiceTracker => "st"@,
        Nub::Users => "users"@,
        Nub::Vinna => "vinna"@,
    }
}

/// The digits of the fixed internal port a service's backend listens on.
pub open spec fn backend_port_str_spec(n: Nub) -> Seq<char> {
    match n {
        Nub::APIRouter => "7013"@,
        Nub::Behandle => "7010"@,
        Nub::Billing => "7009"@,
        Nub::BusinessRules => "7004"@,
        Nub::CMS => "7001"@,
        Nub::Filestore => "7005"@,
        Nub::Forms => "7002"@,
        Nub::Mapping => "7015"@,
        Nub::Paglipat => "7017"@,
        Nub::PlatformAdmin => "7000"@,
        Nub::PolicyData => "7003"@,
        Nub::ServiceTracker => "7006"@,
        Nub::Users => "7007"@,
        Nub::Vinna => "7016"@,
    }
}

/// Every backend URL is the same fixed declaration around the service's
/// snake_case name, its fixed internal hostname alias, and its fixed
/// port — nothing else varies between services.
pub proof fn lemma_backend_url_shape(n: Nub)
    ensures
        backend_url_spec(n) == "INTERNAL_NUBS['"@ + backend_name_spec(n)
            + "']=\"https://"@ + backend_host_spec(n) + ":"@ + backend_port_str_spec(n) + "\""@,
{
    reveal_strlit("INTERNAL_NUBS['");
    reveal_strlit("']=\"https://");
    reveal_strlit(":");
    reveal_strlit("\"");
    match n {
        Nub::APIRouter => {
            reveal_strlit("INTERNAL_NUBS['api_router']=\"https://api:7013\"");
            reveal_strlit("api_router");
            reveal_strlit("api");
            reveal_strlit("7013");
            assert(backend_url_spec(n) =~= "INTERNAL_NUBS['"@
                + backend_name_spec(n) + "']=\"https://"@ + backend_host_spec(n) + ":"@
                + backend_port_str_spec(n) + "\""@);
        },
        Nub::Behandle => {
            reveal_strlit("INTERNAL_NUBS['behandle']=\"https://behandle:7010\"");
            reveal_strlit("behandle");
            reveal_strlit("7010");
            assert(backend_url_spec(n) =~= "INTERNAL_NUBS['"@
                + backend_name_spec(n) + "']=\"https://"@ + backend_host_spec(n) + ":"@
                + backend_port_str_spec(n) + "\""@);
        },
        Nub::Billing => {
            reveal_strlit("INTERNAL_NUBS['billing']=\"https://billing:7009\"");
            reveal_strlit("billing");
            reveal_strlit("7009");
            assert(backend_url_spec(n) =~= "INTERNAL_NUBS['"@
                + backend_name_spec(n) + "']=\"https://"@ + backend_host_spec(n) + ":"@
                + backend_port_str_spec(n) + "\""@);
        },
        Nub::BusinessRules => {
            reveal_strlit("INTERNAL_NUBS['business_rules']=\"https://br:7004\"");
            reveal_strlit("business_rules");
            reveal_strlit("br");
            reveal_strlit("7004");
            assert(backend_url_spec(n) =~= "INTERNAL_NUBS['"@
                + backend_name_spec(n) + "']=\"https://"@ + backend_host_spec(n) + ":"@
                + backend_port_str_spec(n) + "\""@);
        },
        Nub::CMS => {
            reveal_strlit("INTERNAL_NUBS['cms']=\"https://cms:7001\"");
            reveal_strlit("cms");
            reveal_strlit("7001");
            assert(backend_url_spec(n) =~= "INTERNAL_NUBS['"@
                + backend_name_spec(n) + "']=\"https://"@ + backend_host_spec(n) + ":"@
                + backend_port_str_spec(n) + "\""@);
        },
        Nub::Filestore => {
            reveal_strlit("INTERNAL_NUBS['filestore']=\"https://fs:7005\"");
            reveal_strlit("filestore");
            reveal_strlit("fs");
            reveal_strlit("7005");
            assert(backend_url_spec(n) =~= "INTERNAL_NUBS['"@
                + backend_name_spec(n) + "']=\"https://"@ + backend_host_spec(n) + ":"@
                + backend_port_str_spec(n) + "\""@);
        },
        Nub::Forms => {
            reveal_strlit("INTERNAL_NUBS['forms']=\"https://forms:7002\"");
            reveal_strlit("forms");
            reveal_strlit("7002");
            assert(backend_url_spec(n) =~= "INTERNAL_NUBS['"@
                + backend_name_spec(n) + "']=\"https://"@ + backend_host_spec(n) + ":"@
                + backend_port_str_spec(n) + "\""@);
        },
        Nub::Mapping => {
            reveal_strlit("INTERNAL_NUBS['mapping']=\"https://mapping:7015\"");
            reveal_strlit("mapping");
            reveal_strlit("7015");
            assert(backend_url_spec(n) =~= "INTERNAL_NUBS['"@
                + backend_name_spec(n) + "']=\"https://"@ + backend_host_spec(n) + ":"@
                + backend_port_str_spec(n) + "\""@);
        },
        Nub::Paglipat => {
            reveal_strlit("INTERNAL_NUBS['paglipat']=\"https://paglipat:7017\"");
            reveal_strlit("paglipat");
            reveal_strlit("7017");
            assert(backend_url_spec(n) =~= "INTERNAL_NUBS['"@
                + backend_name_spec(n) + "']=\"https://"@ + backend_host_spec(n) + ":"@
                + backend_port_str_spec(n) + "\""@);
        },
        Nub::PlatformAdmin => {
            reveal_strlit("INTERNAL_NUBS['platform_admin']=\"https://pa:7000\"");
            reveal_strlit("platform_admin");
            reveal_strlit("pa");
            reveal_strlit("7000");
            assert(backend_url_spec(n) =~= "INTERNAL_NUBS['"@
                + backend_name_spec(n) + "']=\"https://"@ + backend_host_spec(n) + ":"@
                + backend_port_str_spec(n) + "\""@);
        },
        Nub::PolicyData => {
            reveal_strlit("INTERNAL_NUBS['policy_data']=\"https://pd:7003\"");
            reveal_strlit("policy_data");
            reveal_strlit("pd");
            reveal_strlit("7003");
            assert(backend_url_spec(n) =~= "INTERNAL_NUBS['"@
                + backend_name_spec(n) + "']=\"https://"@ + backend_host_spec(n) + ":"@
                + backend_port_str_spec(n) + "\""@);
        },
        Nub::ServiceTracker => {
            reveal_strlit("INTERNAL_NUBS['service_tracker']=\"https://st:7006\"");
            reveal_strlit("service_tracker");
            reveal_strlit("st");
            reveal_strlit("7006");
            assert(backend_url_spec(n) =~= "INTERNAL_NUBS['"@
                + backend_name_spec(n) + "']=\"https://"@ + backend_host_spec(n) + ":"@
                + backend_port_str_spec(n) + "\""@);
        },
        Nub::Users => {
            reveal_strlit("INTERNAL_NUBS['users']=\"https://users:7007\"");
            reveal_strlit("users");
            reveal_strlit("7007");
            assert(backend_url_spec(n) =~= "INTERNAL_NUBS['"@
                + backend_name_spec(n) + "']=\"https://"@ + backend_host_spec(n) + ":"@
                + backend_port_str_spec(n) + "\""@);
        },
        Nub::Vinna => {
            reveal_strlit("INTERNAL_NUBS['vinna']=\"https://vinna:7016\"");
            reveal_strlit("vinna");
            reveal_strlit("7016");
            assert(backend_url_spec(n) =~= "INTERNAL_NUBS['"@
                + backend_name_spec(n) + "']=\"https://"@ + backend_host_spec(n) + ":"@
                + backend_port_str_spec(n) + "\""@);
        },
    }
}

/// No two distinct services share a backend port.
pub proof fn lemma_backend_ports_distinct(a: Nub, b: Nub)
    requires
        a != b,
    ensures
        backend_port_str_spec(a) != backend_port_str_spec(b),
{
    reveal_strlit("7013");
    reveal_strlit("7010");
    reveal_strlit("7009");
    reveal_strlit("7004");
    reveal_strlit("7001");
    reveal_strlit("7005");
    reveal_strlit("7002");
    reveal_strlit("7015");
    reveal_strlit("7017");
    reveal_strlit("7000");
    reveal_strlit("7003");
    reveal_strlit("7006");
    reveal_strlit("7007");
    reveal_strlit("7016");
    assert(backend_port_str_spec(a)[2] != backend_port_str_spec(b)[2] || backend_port_str_spec(
        a,
    )[3] != backend_port_str_spec(b)[3]);
}

/// Parsing is idempotent: re-parsing the canonical key of whatever a
/// valid token parsed to yields the same identity again.
pub proof fn lemma_parse_idempotent(s: Seq<char>)
    requires
        parse_spec(s) is Some,
    ensures
        parse_spec(key_spec(parse_spec(s)->0)) == parse_spec(s),
{
    lemma_parse_canonical_key(parse_spec(s)->0);
}

} // verus!
