use pigweb_bulk::api::{BulkApi, DirtyAction, ErrPageRender, LayoutRender, Renderer, Routes, SelectableList};
use pigweb_bulk::bulk::{BulkImport, BulkPatch};
use pigweb_bulk::client::{
    merge_confirmed_patch, replace_by_id, ApiError, ClientState, DirtyGuard, FollowUp, SingleFlight, Status,
};
use pigweb_bulk::config::{Config, DatabaseConfig, OpenIDConfig};
use pigweb_bulk::patch::PatchAction;
use pigweb_bulk::query::{fetch_scope, parse_uuid, parse_uuids, restrict_to_scope, BulkQuery, FetchScope, PigQuery};
use pigweb_bulk::records::User;
use pigweb_bulk::roles::{get_user_roles, user_has_role, RoleGroup, Roles};
use pigweb_bulk::{Timestamp, Uuid};

fn import(id: u128, pending: &[&str]) -> BulkImport {
    BulkImport {
        id: Uuid { value: id },
        name: "batch".to_string(),
        creator: Uuid { value: 7 },
        started: Timestamp { micros: 1 },
        finished: None,
        pending: pending.iter().map(|s| s.to_string()).collect(),
        accepted: vec![],
        rejected: vec![],
    }
}

#[test]
fn single_flight_discards_superseded_answer() {
    let mut f = SingleFlight::new();
    assert!(!f.in_flight());
    let first = f.submit();
    let second = f.submit();
    assert_ne!(first, second);
    match f.poll(first, Some(Ok::<u32, ApiError>(1))) {
        Status::Pending => {}
        _ => panic!("superseded answer was used"),
    }
    assert!(f.in_flight());
    match f.poll::<u32>(second, None) {
        Status::Pending => {}
        _ => panic!("no answer yet"),
    }
    match f.poll(second, Some(Ok::<u32, ApiError>(2))) {
        Status::Received(v) => assert_eq!(v, 2),
        _ => panic!("answer lost"),
    }
    assert!(!f.in_flight());
}

#[test]
fn single_flight_error_and_discard() {
    let mut f = SingleFlight::new();
    let t = f.submit();
    match f.poll::<u32>(t, Some(Err(ApiError::new("boom".to_string()).with_code(500)))) {
        Status::Errored(e) => assert_eq!(e.code, Some(500)),
        _ => panic!("error lost"),
    }
    let t2 = f.submit();
    f.discard();
    match f.poll(t2, Some(Ok::<u32, ApiError>(3))) {
        Status::Pending => {}
        _ => panic!("discarded answer was used"),
    }
}

#[test]
fn client_state_routes_errors() {
    let mut s = ClientState::new();
    s.authorized = Some(vec![Roles::BulkEditor]);
    assert!(s.has_role(Roles::BulkEditor));
    assert!(!s.has_role(Roles::BulkAdmin));
    assert_eq!(s.received(Status::Received(4u8)), Some(4));
    assert_eq!(s.received::<u8>(Status::Errored(ApiError::new("x".to_string()).with_code(404))), None);
    assert_eq!(s.layout.display_error.len(), 1);
    assert!(s.authorized.is_some());
    assert_eq!(s.received::<u8>(Status::Errored(ApiError::new("y".to_string()).with_code(401))), None);
    assert!(s.authorized.is_none());
    assert!(!s.has_role(Roles::BulkEditor));
    assert_eq!(s.layout.display_error.len(), 1);
    s.layout.dismiss(5);
    assert_eq!(s.layout.display_error.len(), 1);
    s.layout.dismiss(0);
    assert!(s.layout.display_error.is_empty());
}

#[test]
fn api_error_builders() {
    let e = ApiError::new("desc".to_string()).with_code(403).with_reason("Forbidden".to_string());
    assert_eq!(e.code, Some(403));
    assert_eq!(e.reason.as_deref(), Some("Forbidden"));
    assert_eq!(e.description, "desc");
}

#[test]
fn dirty_guard_defers_until_confirmed() {
    let mut g: DirtyGuard<u32> = DirtyGuard::new();
    assert_eq!(g.request(1), Some(1));
    g.mark_dirty();
    assert_eq!(g.request(2), None);
    assert_eq!(g.request(3), None);
    assert_eq!(g.confirm(), Some(3));
    assert!(!g.dirty);
    g.mark_dirty();
    assert_eq!(g.request(4), None);
    g.cancel();
    assert_eq!(g.confirm(), None);
    g.mark_clean();
    assert_eq!(g.request(5), Some(5));
}

#[test]
fn dirty_action_compares_kind_only() {
    let a: DirtyAction<u8, u8> = DirtyAction::Select(Some(1));
    let b: DirtyAction<u8, u8> = DirtyAction::Select(None);
    let c: DirtyAction<u8, u8> = DirtyAction::Create(1);
    assert!(a.same_kind(&b));
    assert!(!a.same_kind(&c));
    assert!(DirtyAction::<u8, u8>::NoAction.same_kind(&DirtyAction::NoAction));
}

#[test]
fn merge_confirmed_patch_updates_cache() {
    let mut selected = Some(import(3, &["x"]));
    let mut list = Some(vec![import(2, &["q"]), import(3, &["x"])]);
    let p = BulkPatch::new(&Uuid { value: 3 })
        .pending(PatchAction::REMOVE("x".to_string()))
        .rejected(PatchAction::ADD("x".to_string()));
    assert_eq!(merge_confirmed_patch(&mut selected, &mut list, &p), FollowUp::RefetchSelected);
    let list = list.unwrap();
    assert!(list[1].pending.is_empty());
    assert_eq!(list[1].rejected, vec!["x".to_string()]);
    assert_eq!(list[0].pending, vec!["q".to_string()]);
    let mut none: Option<BulkImport> = None;
    let mut no_list = None;
    assert_eq!(merge_confirmed_patch(&mut none, &mut no_list, &p), FollowUp::ReloadList);
}

#[test]
fn replace_by_id_without_match_keeps_list() {
    let mut list = vec![import(1, &["a"])];
    replace_by_id(&mut list, &import(2, &["b"]));
    assert_eq!(list.len(), 1);
    assert_eq!(list[0].pending, vec!["a".to_string()]);
}

#[test]
fn api_bundles_start_idle() {
    let api = BulkApi::new();
    assert!(!api.create.in_flight() && !api.patch.in_flight() && !api.fetch.in_flight());
    let mut layout = LayoutRender::new();
    let t = layout.open();
    assert_eq!(layout.auth_api.is_authenticated.current, Some(t));
    let _list = SelectableList::new();
}

#[test]
fn routes_pick_renderers() {
    assert!(matches!(Routes::Bulk.get_renderer(), Renderer::Bulk));
    match Routes::NotFound.get_renderer() {
        Renderer::Error(p) => assert_eq!(p.head, "Page Not Found"),
        _ => panic!("wrong renderer"),
    }
    let p = ErrPageRender::not_found();
    assert_eq!(p.body, "That pig is in another castle!");
}

#[test]
fn pg_connection_string_from_fields() {
    let d = DatabaseConfig::new();
    assert_eq!(d.to_pg_connection_string(), "host='localhost' port='5432' dbname='pigweb' ");
    let mut e = DatabaseConfig::new();
    e.port = Some(7);
    e.user = Some("me".to_string());
    e.password = Some("SECRET-REDACTED".to_string());
    assert_eq!(
        e.to_pg_connection_string(),
        "host='localhost' port='7' dbname='pigweb' user='me' password='SECRET-REDACTED' "
    );
    let mut u = DatabaseConfig::new();
    u.uri = Some("postgres://db".to_string());
    assert_eq!(u.to_pg_connection_string(), "postgres://db");
}

fn config(groups: Vec<RoleGroup>, oidc: bool) -> Config {
    Config {
        client_path: "dist".to_string(),
        database: DatabaseConfig::new(),
        groups,
        oidc: if oidc {
            Some(OpenIDConfig {
                auth_uri: "a".to_string(),
                token_uri: "t".to_string(),
                redirect_uri: None,
                logout_uri: None,
                client_id: "c".to_string(),
                client_secret: "s".to_string(),
                scopes: vec![],
            })
        } else {
            None
        },
    }
}

#[test]
fn roles_from_groups() {
    let groups = vec![
        RoleGroup { name: "editors".to_string(), roles: vec![Roles::BulkEditor, Roles::PigEditor] },
        RoleGroup { name: "admins".to_string(), roles: vec![Roles::BulkAdmin] },
    ];
    let c = config(groups, true);
    let user_groups = vec!["editors".to_string()];
    assert!(user_has_role(&c, &user_groups, Roles::BulkEditor));
    assert!(!user_has_role(&c, &user_groups, Roles::BulkAdmin));
    assert_eq!(get_user_roles(&c, &user_groups), vec![Roles::PigEditor, Roles::BulkEditor]);
    let open = config(vec![], true);
    assert_eq!(get_user_roles(&open, &vec![]), Roles::values());
    let no_oidc = config(vec![RoleGroup { name: "x".to_string(), roles: vec![] }], false);
    assert!(user_has_role(&no_oidc, &vec![], Roles::LogViewer));
    assert_eq!(Roles::values().len(), 7);
}

#[test]
fn uuid_parsing() {
    let u = parse_uuid("550e8400-e29b-41d4-a716-446655440000").unwrap();
    assert_eq!(u.value, 0x550e8400e29b41d4a716446655440000);
    assert!(parse_uuid("not-a-uuid").is_err());
    let ok = parse_uuids(&vec!["550e8400e29b41d4a716446655440000".to_string()]).unwrap();
    assert_eq!(ok, vec![u]);
    assert!(parse_uuids(&vec!["550e8400e29b41d4a716446655440000".to_string(), "x".to_string()]).is_err());
    assert_eq!(parse_uuids(&vec![]).unwrap(), vec![]);
}

#[test]
fn query_filter_and_scope() {
    let q = BulkQuery::new();
    let f = q.to_filter().unwrap();
    assert_eq!(f.limit, 100);
    assert_eq!(f.offset, 0);
    assert!(f.ids.is_none());
    let bad = BulkQuery::new().with_ids_string(vec!["nope".to_string()]);
    assert!(bad.to_filter().is_err());
    let q = BulkQuery { id: None, creator: None, limit: None, offset: None }
        .with_creators_string(vec!["00000000-0000-0000-0000-000000000009".to_string()])
        .with_limit(5)
        .with_offset(2);
    let f = q.to_filter().unwrap();
    assert_eq!(f.creators, Some(vec![Uuid { value: 9 }]));
    assert_eq!((f.limit, f.offset), (5, 2));
    assert_eq!(fetch_scope(true, false), Some(FetchScope::Everything));
    assert_eq!(fetch_scope(false, true), Some(FetchScope::OwnOnly));
    assert_eq!(fetch_scope(false, false), None);
    let own = restrict_to_scope(f.clone(), FetchScope::OwnOnly, Uuid { value: 1 });
    assert_eq!(own.creators, Some(vec![Uuid { value: 1 }]));
    let all = restrict_to_scope(f, FetchScope::Everything, Uuid { value: 1 });
    assert_eq!(all.creators, Some(vec![Uuid { value: 9 }]));
}

#[test]
fn duplicate_query_limits_to_ten() {
    let q = PigQuery::duplicates_of(&"Bob".to_string());
    assert_eq!(q.limit, Some(10));
    assert_eq!(q.name.as_deref(), Some("Bob"));
}

#[test]
fn system_user_values() {
    let u = User::get_system_user();
    assert_eq!(u.username, "admin");
    assert_eq!(u.id, Uuid::nil());
    assert_eq!(u.session_exp, Some(Timestamp { micros: 253402300799000000 }));
    let n = User::new("a".to_string(), vec![], "s".to_string(), "i".to_string(), None);
    assert_eq!(n.created, n.seen);
    assert_eq!((n.id.value >> 76) & 0xf, 4);
}

#[test]
fn session_check_answer() {
    let mut s = ClientState::new();
    s.received::<u8>(Status::Errored(ApiError::new("x".to_string()).with_code(403)));
    s.authorized = Some(vec![]);
    s.received::<u8>(Status::Errored(ApiError::new("y".to_string()).with_code(500)));
    assert_eq!(s.layout.display_error.len(), 2);
    s.session_checked(Status::Received(Some(vec![Roles::BulkAdmin])));
    assert!(s.has_role(Roles::BulkAdmin));
    assert_eq!(s.layout.display_error.len(), 2);
    s.session_checked(Status::Errored(ApiError::new("z".to_string())));
    assert_eq!(s.layout.display_error.len(), 3);
    s.session_checked(Status::Received(None));
    assert!(s.authorized.is_none());
    assert!(s.layout.display_error.is_empty());
}

#[test]
fn config_group_names_unique() {
    let mut c = config(vec![RoleGroup { name: "a".to_string(), roles: vec![] }], true);
    assert!(c.has_unique_groups());
    c.groups.push(RoleGroup { name: "b".to_string(), roles: vec![] });
    assert!(c.has_unique_groups());
    c.groups.push(RoleGroup { name: "a".to_string(), roles: vec![Roles::LogViewer] });
    assert!(!c.has_unique_groups());
}

#[test]
fn uuid_text_forms() {
    let v = 0x550e8400e29b41d4a716446655440000u128;
    assert_eq!(parse_uuid("550E8400-E29B-41D4-A716-446655440000").unwrap().value, v);
    assert_eq!(parse_uuid("{550e8400-e29b-41d4-a716-446655440000}").unwrap().value, v);
    assert_eq!(parse_uuid("URN:uuid:550e8400-e29b-41d4-a716-446655440000").unwrap().value, v);
    assert!(parse_uuid("550e8400-e29b-41d4-a716-44665544000g").is_err());
    assert!(parse_uuid("550e8400e29b-41d4-a716-4466554400000").is_err());
    assert!(parse_uuid("").is_err());
}

#[test]
fn merged_patch_clears_cached_finished_when_pending_returns() {
    let mut done = import(3, &[]);
    done.finished = Some(Timestamp { micros: 9 });
    let mut selected = Some(done);
    let mut list = None;
    let p = BulkPatch::new(&Uuid { value: 3 }).pending(PatchAction::ADD("back".to_string()));
    assert_eq!(merge_confirmed_patch(&mut selected, &mut list, &p), FollowUp::Done);
    let sel = selected.unwrap();
    assert_eq!(sel.pending, vec!["back".to_string()]);
    assert_eq!(sel.finished, None);
}
