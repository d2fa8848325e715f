use nublink::registry::Nub;
use nublink::registry::Directory;
use nublink::registry::ProgramStatus;

const ALL_NUBS: [Nub; 14] = [
    Nub::APIRouter,
    Nub::Behandle,
    Nub::Billing,
    Nub::BusinessRules,
    Nub::CMS,
    Nub::Filestore,
    Nub::Forms,
    Nub::Mapping,
    Nub::Paglipat,
    Nub::PlatformAdmin,
    Nub::PolicyData,
    Nub::ServiceTracker,
    Nub::Users,
    Nub::Vinna,
];

#[test]
fn parses_canonical_keys() {
    assert_eq!(Nub::from_string("api"), Some(Nub::APIRouter));
    assert_eq!(Nub::from_string("behandle"), Some(Nub::Behandle));
    assert_eq!(Nub::from_string("billing"), Some(Nub::Billing));
    assert_eq!(Nub::from_string("business-rules"), Some(Nub::BusinessRules));
    assert_eq!(Nub::from_string("cms"), Some(Nub::CMS));
    assert_eq!(Nub::from_string("filestore"), Some(Nub::Filestore));
    assert_eq!(Nub::from_string("forms"), Some(Nub::Forms));
    assert_eq!(Nub::from_string("mapping"), Some(Nub::Mapping));
    assert_eq!(Nub::from_string("paglipat"), Some(Nub::Paglipat));
    assert_eq!(Nub::from_string("platform-admin"), Some(Nub::PlatformAdmin));
    assert_eq!(Nub::from_string("policy-data"), Some(Nub::PolicyData));
    assert_eq!(Nub::from_string("service-tracker"), Some(Nub::ServiceTracker));
    assert_eq!(Nub::from_string("users"), Some(Nub::Users));
    assert_eq!(Nub::from_string("vinna"), Some(Nub::Vinna));
}

#[test]
fn parses_aliases() {
    assert_eq!(Nub::from_string("apirouter"), Some(Nub::APIRouter));
    assert_eq!(Nub::from_string("bh"), Some(Nub::Behandle));
    assert_eq!(Nub::from_string("br"), Some(Nub::BusinessRules));
    assert_eq!(Nub::from_string("fs"), Some(Nub::Filestore));
    assert_eq!(Nub::from_string("pa"), Some(Nub::PlatformAdmin));
    assert_eq!(Nub::from_string("pd"), Some(Nub::PolicyData));
    assert_eq!(Nub::from_string("st"), Some(Nub::ServiceTracker));
}

#[test]
fn parsing_is_case_insensitive() {
    assert_eq!(Nub::from_string("Users"), Some(Nub::Users));
    assert_eq!(Nub::from_string("BILLING"), Some(Nub::Billing));
    assert_eq!(Nub::from_string("ApiRouter"), Some(Nub::APIRouter));
    assert_eq!(Nub::from_string("BR"), Some(Nub::BusinessRules));
    assert_eq!(Nub::from_string("Business-Rules"), Some(Nub::BusinessRules));
    assert_eq!(Nub::from_string("Service-Tracker"), Some(Nub::ServiceTracker));
}

#[test]
fn canonical_key_round_trips_through_parse() {
    for nub in ALL_NUBS {
        let token = nub.as_string();
        assert_eq!(Nub::from_string(&token), Some(nub));
        // Idempotence: parsing again through the canonical key changes nothing.
        let again = Nub::from_string(&Nub::from_string(&token).unwrap().as_string());
        assert_eq!(again, Some(nub));
    }
}

#[test]
fn unknown_tokens_do_not_parse() {
    for token in ["", "nub", "user", "userss", "ap", "a", "frontend", "backend", "billing ", " api", "b-r", "api-router"] {
        assert_eq!(Nub::from_string(token), None);
    }
}

#[test]
fn frontend_urls_are_exact() {
    assert_eq!(
        Nub::BusinessRules.as_local_frontend_url(),
        "VUE_APP_ADMIN_URL_BUSINESS_RULES=https://localhost.imtins.com:8013"
    );
    assert_eq!(
        Nub::Vinna.as_local_frontend_url(),
        "VUE_APP_ADMIN_URL_VINNA=https://localhost.imtins.com:8009"
    );
    assert_eq!(
        Nub::Billing.as_local_frontend_url(),
        "VUE_APP_BILLING_URL=https://localhost.imtins.com:8022"
    );
}

#[test]
fn every_frontend_url_has_the_fixed_prefix_and_hostname() {
    for nub in ALL_NUBS {
        if let Some(url) = nub.frontend_peer_url() {
            assert_eq!(url, nub.as_local_frontend_url());
            let (var, rest) = url.split_once('=').unwrap();
            assert!(var.starts_with("VUE_APP_"));
            assert!(rest.starts_with("https://localhost.imtins.com:"));
            let port = &rest["https://localhost.imtins.com:".len()..];
            assert_eq!(port.len(), 4);
            assert!(port.chars().all(|c| c.is_ascii_digit()));
        }
    }
}

#[test]
fn services_without_a_frontend_get_no_url() {
    assert_eq!(Nub::APIRouter.frontend_peer_url(), None);
    assert_eq!(Nub::Paglipat.frontend_peer_url(), None);
    assert_eq!(Nub::ServiceTracker.frontend_peer_url(), None);
    // Never an empty or substituted string in place of an absent URL.
    for nub in ALL_NUBS {
        assert_ne!(nub.frontend_peer_url(), Some(String::new()));
    }
}

#[test]
fn backend_urls_are_exact() {
    assert_eq!(
        Nub::APIRouter.as_local_backend_url(),
        "INTERNAL_NUBS['api_router']=\"https://api:7013\""
    );
    assert_eq!(
        Nub::BusinessRules.as_local_backend_url(),
        "INTERNAL_NUBS['business_rules']=\"https://br:7004\""
    );
    assert_eq!(
        Nub::Users.as_local_backend_url(),
        "INTERNAL_NUBS['users']=\"https://users:7007\""
    );
}

#[test]
fn backend_urls_share_hostname_shape_and_ports_are_unique() {
    let mut ports: Vec<String> = Vec::new();
    for nub in ALL_NUBS {
        let url = nub.as_local_backend_url();
        assert!(url.starts_with("INTERNAL_NUBS['"));
        let rest = &url["INTERNAL_NUBS['".len()..];
        let (_name, rest) = rest.split_once("']=\"https://").unwrap();
        let (_host, port) = rest.split_once(':').unwrap();
        let port = port.strip_suffix('"').unwrap();
        assert_eq!(port.len(), 4);
        assert!(port.chars().all(|c| c.is_ascii_digit()));
        assert!(!ports.contains(&port.to_string()));
        ports.push(port.to_string());
    }
    assert_eq!(ports.len(), 14);
}

#[test]
fn working_directories_follow_the_layer_suffix() {
    assert_eq!(
        Nub::Users.set_as_wd(&Directory::Frontend, "/srv/nubs"),
        "/srv/nubs/users/frontend"
    );
    assert_eq!(
        Nub::Users.set_as_wd(&Directory::Backend, "/srv/nubs"),
        "/srv/nubs/users/project/settings"
    );
    for nub in ALL_NUBS {
        let base = nub.as_path_str("/srv/nubs");
        let front = nub.set_as_wd(&Directory::Frontend, "/srv/nubs");
        let back = nub.set_as_wd(&Directory::Backend, "/srv/nubs");
        assert!(front.starts_with(&base));
        assert!(back.starts_with(&base));
        assert!(front.ends_with("/frontend"));
        assert!(back.ends_with("/project/settings"));
    }
}

#[test]
fn base_path_is_root_slash_key() {
    assert_eq!(Nub::PolicyData.as_path_str("/home/dev/services"), "/home/dev/services/policy-data");
    assert_eq!(Nub::APIRouter.as_path_str(""), "/api");
}

#[test]
fn program_status_maps_to_exit_codes() {
    assert_eq!(ProgramStatus::SUCCESS.code(), 0);
    assert_eq!(ProgramStatus::FAILED.code(), 1);
}
