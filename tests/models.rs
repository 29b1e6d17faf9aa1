use paastel::api_types::{OrganizationGql, TeamGql, UserGql};
use paastel::models::{Organization, Team, Timestamp, User};

fn at(s: i64) -> Timestamp {
    Timestamp { unix_seconds: s, nanosecond: 0 }
}

#[test]
fn user_is_shown_without_secrets() {
    let u = User {
        id: 7,
        name: "Ana".to_string(),
        email: "ana@example.com".to_string(),
        password_hash: "h".to_string(),
        is_active: true,
        created_at: at(1),
        updated_at: at(2),
        last_login_at: None,
        deleted_at: None,
    };
    let g = UserGql::from(u);
    assert_eq!((g.id, g.name.as_str(), g.email.as_str()), (7, "Ana", "ana@example.com"));
}

#[test]
fn organization_keeps_its_identity() {
    let o = Organization {
        id: 3,
        name: "Kovi".to_string(),
        slug: "kovi".to_string(),
        description: Some("d".to_string()),
        created_at: at(1),
        updated_at: at(1),
        deleted_at: Some(at(9)),
    };
    let g: OrganizationGql = o.into();
    assert_eq!(g.id, 3);
    assert_eq!(g.name, "Kovi");
    assert_eq!(g.slug, "kovi");
    assert_eq!(g.description.as_deref(), Some("d"));
}

#[test]
fn team_keeps_its_organization() {
    let t = Team {
        id: 11,
        organization_id: 3,
        name: "DevSecOps".to_string(),
        slug: "devsecops".to_string(),
        description: None,
        created_at: at(5),
        updated_at: at(6),
        deleted_at: None,
    };
    let g = TeamGql::from(t);
    assert_eq!((g.id, g.organization_id), (11, 3));
    assert_eq!(g.slug, "devsecops");
    assert!(g.description.is_none());
}
