use unity_catalog::authorize::{authorize_with, AuthRequest, Authorizer};
use unity_catalog::permissions::{
    read_privileges, scan_allow, ObjectOwnerResponse, PrivilegeAssignment,
    PrivilegeAssignmentsResponse,
};
use unity_catalog::securable::SecurableType;

fn owner_rec(full_name: &str, owner: &str) -> ObjectOwnerResponse {
    ObjectOwnerResponse { full_name: full_name.to_string(), owner: owner.to_string() }
}

fn grants_for(principal: &str, privileges: &[&str]) -> PrivilegeAssignmentsResponse {
    PrivilegeAssignmentsResponse {
        privilege_assignments: Some(vec![PrivilegeAssignment {
            object_name: String::new(),
            object_type: None,
            principal: Some(principal.to_string()),
            privileges: Some(privileges.iter().map(|p| p.to_string()).collect()),
        }]),
    }
}

fn no_grants() -> PrivilegeAssignmentsResponse {
    PrivilegeAssignmentsResponse { privilege_assignments: Some(Vec::new()) }
}

const TABLE: &str = "rac_demo_catalog.rust_schema.dbu_forecasts";

#[test]
fn table_owner_can_read_without_grants() {
    // Scenario: the principal owns the table itself and no explicit
    // grant exists anywhere.
    let check = Authorizer::for_read(TABLE, "alice".to_string());
    let owners = vec![
        owner_rec(TABLE, "alice"),
        owner_rec("rac_demo_catalog.rust_schema", "bob"),
        owner_rec("rac_demo_catalog", "bob"),
    ];
    let grants = vec![no_grants(), no_grants(), no_grants()];
    assert!(authorize_with(check, &owners, grants));
}

#[test]
fn modify_only_grant_does_not_allow_read() {
    // Scenario: not an owner at any level, and the only grant held is
    // MODIFY, which is not among the read privileges.
    let check = Authorizer::for_read(TABLE, "alice".to_string());
    let owners = vec![
        owner_rec(TABLE, "bob"),
        owner_rec("rac_demo_catalog.rust_schema", "bob"),
        owner_rec("rac_demo_catalog", "bob"),
    ];
    let grants = vec![no_grants(), no_grants(), grants_for("alice", &["MODIFY"])];
    assert!(!authorize_with(check, &owners, grants));
}

#[test]
fn modify_grant_allows_write() {
    let check = Authorizer::for_write(TABLE, "alice".to_string());
    let owners = vec![
        owner_rec(TABLE, "bob"),
        owner_rec("rac_demo_catalog.rust_schema", "bob"),
        owner_rec("rac_demo_catalog", "bob"),
    ];
    let grants = vec![no_grants(), no_grants(), grants_for("alice", &["MODIFY"])];
    assert!(authorize_with(check, &owners, grants));
}

#[test]
fn all_privileges_at_schema_level_allows_read_and_write() {
    // Scenario: ALL_PRIVILEGES granted at the schema level only.
    let owners = || {
        vec![
            owner_rec(TABLE, "bob"),
            owner_rec("rac_demo_catalog.rust_schema", "bob"),
            owner_rec("rac_demo_catalog", "bob"),
        ]
    };
    let grants = || vec![no_grants(), grants_for("alice", &["ALL_PRIVILEGES"]), no_grants()];

    let read_check = Authorizer::for_read(TABLE, "alice".to_string());
    assert!(authorize_with(read_check, &owners(), grants()));

    let write_check = Authorizer::for_write(TABLE, "alice".to_string());
    assert!(authorize_with(write_check, &owners(), grants()));
}

#[test]
fn deny_by_default_with_no_grants() {
    // No ownership match and an empty privilege set: denied.
    let check = Authorizer::for_read(TABLE, "alice".to_string());
    let owners = vec![
        owner_rec(TABLE, "bob"),
        owner_rec("rac_demo_catalog.rust_schema", "bob"),
        owner_rec("rac_demo_catalog", "bob"),
    ];
    let grants = vec![no_grants(), no_grants(), no_grants()];
    assert!(!authorize_with(check, &owners, grants));
}

#[test]
fn empty_scan_denies() {
    assert!(!scan_allow(&Vec::new(), &read_privileges()));
}

#[test]
fn single_segment_name_asks_only_at_catalog_level() {
    // Every request a one-segment check makes is catalog-level.
    let mut check = Authorizer::for_read("main", "alice".to_string());

    match check.next_request() {
        Some(AuthRequest::Owner { securable, full_name }) => {
            assert_eq!(securable, SecurableType::Catalog);
            assert_eq!(full_name, "main");
        },
        other => panic!("expected a catalog owner request, got {:?}", other),
    }
    check.absorb_owner(&owner_rec("main", "bob"));

    match check.next_request() {
        Some(AuthRequest::Grants { securable, full_name }) => {
            assert_eq!(securable, SecurableType::Catalog);
            assert_eq!(full_name, "main");
        },
        other => panic!("expected a catalog grants request, got {:?}", other),
    }
    check.absorb_grants(no_grants());

    assert_eq!(check.decision(), Some(false));
    assert!(check.next_request().is_none());
}

#[test]
fn two_segment_name_starts_at_schema_level() {
    let check = Authorizer::for_read("main.abs_dev", "alice".to_string());
    match check.next_request() {
        Some(AuthRequest::Owner { securable, full_name }) => {
            assert_eq!(securable, SecurableType::Schema);
            assert_eq!(full_name, "main.abs_dev");
        },
        other => panic!("expected a schema owner request, got {:?}", other),
    }
}

#[test]
fn owner_match_short_circuits_grant_fetches() {
    // One owner record naming the principal decides the check; no
    // grant request ever follows.
    let mut check = Authorizer::for_read(TABLE, "alice".to_string());
    match check.next_request() {
        Some(AuthRequest::Owner { securable, full_name }) => {
            assert_eq!(securable, SecurableType::Table);
            assert_eq!(full_name, TABLE);
        },
        other => panic!("expected a table owner request, got {:?}", other),
    }
    check.absorb_owner(&owner_rec(TABLE, "alice"));
    assert_eq!(check.decision(), Some(true));
    assert!(check.next_request().is_none());
}

#[test]
fn catalog_owner_match_still_allows() {
    let mut check = Authorizer::for_read(TABLE, "alice".to_string());
    check.absorb_owner(&owner_rec(TABLE, "bob"));
    check.absorb_owner(&owner_rec("rac_demo_catalog.rust_schema", "bob"));
    check.absorb_owner(&owner_rec("rac_demo_catalog", "alice"));
    assert_eq!(check.decision(), Some(true));
}

#[test]
fn repeated_authorization_is_identical() {
    // The same inputs against the same records decide the same way,
    // however often the check runs.
    let run = || {
        let check = Authorizer::for_read(TABLE, "alice".to_string());
        let owners = vec![
            owner_rec(TABLE, "bob"),
            owner_rec("rac_demo_catalog.rust_schema", "bob"),
            owner_rec("rac_demo_catalog", "bob"),
        ];
        let grants = vec![no_grants(), grants_for("alice", &["SELECT"]), no_grants()];
        authorize_with(check, &owners, grants)
    };
    let first = run();
    let second = run();
    assert_eq!(first, second);
    assert!(first);
}

#[test]
fn grants_are_tagged_with_their_securable() {
    let mut collected = PrivilegeAssignmentsResponse::new();
    collected.add_assignment(
        grants_for("alice", &["SELECT"]),
        "rac_demo_catalog",
        SecurableType::Catalog,
    );
    let list = collected.privilege_assignments.as_ref().unwrap();
    assert_eq!(list.len(), 1);
    assert_eq!(list[0].object_name, "rac_demo_catalog");
    assert_eq!(list[0].object_type, Some(SecurableType::Catalog));
    assert_eq!(list[0].principal.as_deref(), Some("alice"));
    assert_eq!(list[0].privileges.as_ref().unwrap(), &vec!["SELECT".to_string()]);
}

#[test]
fn grant_without_principal_does_not_allow() {
    let resp = PrivilegeAssignmentsResponse {
        privilege_assignments: Some(vec![PrivilegeAssignment {
            object_name: String::new(),
            object_type: None,
            principal: None,
            privileges: Some(vec!["SELECT".to_string()]),
        }]),
    };
    let check = Authorizer::for_read("main", "alice".to_string());
    let owners = vec![owner_rec("main", "bob")];
    assert!(!authorize_with(check, &owners, vec![resp]));
}
