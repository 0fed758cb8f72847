use luckperms_rs::client::{LuckClient, Method};
use luckperms_rs::client::{
    group_opt_response, permission_check_response, string_list_response, track_move_response,
    unit_response, user_opt_response, user_response, uuid_list_response,
};
use luckperms_rs::codec::{decode_group, decode_metadata, decode_node, node_json};
use luckperms_rs::errors::{ClientCreationError, RequestError};
use luckperms_rs::ext::parse_json;
use luckperms_rs::json::{to_text, Json};
use luckperms_rs::models::{
    parse_uuid, Action, ActionSource, ActionTarget, ActionTargetType, Node, NodeType, Uuid,
    UserIdentifier,
};
use luckperms_rs::requests::{
    Context, PermissionCheckRequest, QueryFlag, QueryMode, QueryOptions, SearchRequest,
};

fn alice_uuid() -> Uuid {
    Uuid { value: 0x11111111_1111_1111_1111_111111111111 }
}

#[test]
fn create_succeeds_on_valid_inputs() {
    let c = LuckClient::try_new(
        "http://localhost:8080".to_string(),
        "SECRET-REDACTED".to_string(),
    );
    assert!(c.is_ok());
}

#[test]
fn create_fails_with_url_variant_on_invalid_base_url() {
    let c = LuckClient::try_new("not a url".to_string(), "k".to_string());
    match c {
        Err(ClientCreationError::Url { detail }) => assert_eq!(detail, "not a url"),
        _ => panic!("expected the Url variant"),
    }
}

#[test]
fn create_fails_with_http_variant_on_bad_api_key() {
    let c = LuckClient::try_new("http://localhost:8080".to_string(), "line\nbreak".to_string());
    match c {
        Err(ClientCreationError::Http { .. }) => {}
        _ => panic!("expected the Http variant"),
    }
}

#[test]
fn node_type_wire_names_are_fixed() {
    assert_eq!(NodeType::RegexPermission.to_string(), "regex_permission");
    assert_eq!(NodeType::Inheritance.to_string(), "inheritance");
    assert_eq!(NodeType::Prefix.to_string(), "prefix");
    assert_eq!(NodeType::Suffix.to_string(), "suffix");
    assert_eq!(NodeType::Meta.to_string(), "meta");
    assert_eq!(NodeType::Weight.to_string(), "weight");
    assert_eq!(NodeType::DisplayName.to_string(), "display_name");
}

#[test]
fn uuid_text_matches_the_uuid_crate() {
    let ours = alice_uuid().to_string();
    let theirs = uuid::Uuid::from_u128(alice_uuid().value).to_string();
    assert_eq!(ours, theirs);
    let odd = Uuid { value: 0x0123_4567_89ab_cdef_0011_2233_4455_6677 };
    assert_eq!(odd.to_string(), uuid::Uuid::from_u128(odd.value).to_string());
}

#[test]
fn uuid_parse_round_trip() {
    let u = Uuid { value: 0xdead_beef_0000_0001_8000_0000_0000_00ff };
    let parsed = parse_uuid(&u.to_string()).expect("canonical text parses");
    assert_eq!(parsed.value, u.value);
    assert!(parse_uuid("11111111-1111-1111-1111-11111111111").is_none());
    assert!(parse_uuid("11111111-1111-1111-1111-11111111111g").is_none());
    assert!(parse_uuid("11111111x1111-1111-1111-111111111111").is_none());
    let upper = parse_uuid("ABCDEF01-2345-6789-ABCD-EF0123456789").expect("uppercase parses");
    assert_eq!(upper.value, 0xABCDEF01_2345_6789_ABCD_EF0123456789);
}

#[test]
fn uuid_parses_in_all_four_accepted_forms() {
    let want = 0x67e55044_10b1_426f_9247_bb680e5fe0c8;
    let simple = parse_uuid("67e5504410b1426f9247bb680e5fe0c8").expect("simple form");
    assert_eq!(simple.value, want);
    let braced = parse_uuid("{67e55044-10b1-426f-9247-bb680e5fe0c8}").expect("braced form");
    assert_eq!(braced.value, want);
    let urn = parse_uuid("urn:uuid:67e55044-10b1-426f-9247-bb680e5fe0c8").expect("urn form");
    assert_eq!(urn.value, want);
    let urn_upper = parse_uuid("URN:UUID:67E55044-10B1-426F-9247-BB680E5FE0C8").expect("urn, upper");
    assert_eq!(urn_upper.value, want);
    assert!(parse_uuid("{67e5504410b1426f9247bb680e5fe0c8}").is_none());
    assert!(parse_uuid("urn:uuch:67e55044-10b1-426f-9247-bb680e5fe0c8").is_none());
    assert!(parse_uuid("67e5504410b1426f9247bb680e5fe0c").is_none());
}

fn sample_node() -> Node {
    Node {
        key: "group.admin \"quoted\\\"".to_string(),
        type_: NodeType::Inheritance,
        value: true,
        context: vec!["server=survival".to_string(), "world=nether".to_string()],
        expiry: Some(1700000000),
    }
}

#[test]
fn node_round_trip_preserves_all_fields() {
    let n = sample_node();
    let text = to_text(&node_json(&n));
    let parsed = parse_json(&text).expect("printed node is well-formed JSON");
    let back = decode_node(&parsed).expect("printed node decodes");
    assert_eq!(back.key, n.key);
    assert_eq!(back.type_, n.type_);
    assert_eq!(back.value, n.value);
    assert_eq!(back.context, n.context);
    assert_eq!(back.expiry, n.expiry);
}

#[test]
fn node_without_expiry_round_trips_through_null() {
    let n = Node {
        key: "essentials.fly".to_string(),
        type_: NodeType::RegexPermission,
        value: false,
        context: vec![],
        expiry: None,
    };
    let text = to_text(&node_json(&n));
    assert_eq!(
        text,
        "{\"key\":\"essentials.fly\",\"type\":\"regex_permission\",\"value\":false,\
         \"context\":[],\"expiry\":null}"
    );
    let back = decode_node(&parse_json(&text).unwrap()).unwrap();
    assert_eq!(back.expiry, None);
    assert!(back.context.is_empty());
}

#[test]
fn printed_node_agrees_with_a_reference_json_reader() {
    let n = sample_node();
    let text = to_text(&node_json(&n));
    let v: serde_json::Value = serde_json::from_str(&text).expect("reference parser accepts");
    assert_eq!(v["key"].as_str().unwrap(), n.key);
    assert_eq!(v["type"].as_str().unwrap(), "inheritance");
    assert_eq!(v["value"].as_bool().unwrap(), true);
    assert_eq!(v["context"][1].as_str().unwrap(), "world=nether");
    assert_eq!(v["expiry"].as_u64().unwrap(), 1700000000);
}

#[test]
fn search_pairs_key_without_filter() {
    let s = SearchRequest::new_key("group.admin".to_string());
    let pairs = s.query_pairs();
    assert_eq!(pairs, vec![("key".to_string(), "group.admin".to_string())]);
}

#[test]
fn search_pairs_key_with_filter() {
    let s = SearchRequest::new_key_type("g".to_string(), Some(NodeType::Inheritance));
    let pairs = s.query_pairs();
    assert_eq!(
        pairs,
        vec![
            ("key".to_string(), "g".to_string()),
            ("type".to_string(), "inheritance".to_string()),
        ]
    );
}

#[test]
fn search_pairs_key_starts_with() {
    let s = SearchRequest::new_key_starts_with("group.".to_string());
    assert_eq!(
        s.query_pairs(),
        vec![("keyStartsWith".to_string(), "group.".to_string())]
    );
    let t = SearchRequest::new_key_starts_with_type("group.".to_string(), Some(NodeType::Prefix));
    assert_eq!(
        t.query_pairs(),
        vec![
            ("keyStartsWith".to_string(), "group.".to_string()),
            ("type".to_string(), "prefix".to_string()),
        ]
    );
}

#[test]
fn search_pairs_meta_key() {
    let s = SearchRequest::new_meta_key("rank".to_string());
    assert_eq!(s.query_pairs(), vec![("metaKey".to_string(), "rank".to_string())]);
    let t = SearchRequest::new_meta_key_type("rank".to_string(), Some(NodeType::Meta));
    assert_eq!(
        t.query_pairs(),
        vec![
            ("metaKey".to_string(), "rank".to_string()),
            ("type".to_string(), "meta".to_string()),
        ]
    );
}

#[test]
fn search_url_is_form_encoded() {
    let client = LuckClient::try_new("http://h".to_string(), "k".to_string()).unwrap();
    let s = SearchRequest::new_key("a key&x".to_string());
    let r = client.user_search(&s);
    assert_eq!(r.method, Method::Get);
    assert_eq!(r.path_and_query, "/user/search?key=a+key%26x");
    assert!(r.body.is_none());
}

#[test]
fn get_user_and_get_group_classify_statuses() {
    let user_json = "{\"uniqueId\":\"11111111-1111-1111-1111-111111111111\",\
        \"username\":\"Alice\",\"parentGroups\":[],\"nodes\":[]}";
    assert!(matches!(user_opt_response(404, "missing"), Ok(None)));
    match user_opt_response(500, "boom") {
        Err(RequestError::Http { status, detail }) => {
            assert_eq!(status, Some(500));
            assert_eq!(detail, "boom");
        }
        _ => panic!("expected the Http variant"),
    }
    let u = user_opt_response(200, user_json).unwrap().expect("present");
    assert_eq!(u.username, "Alice");
    assert_eq!(u.unique_id.value, alice_uuid().value);

    let group_json = "{\"name\":\"admin\",\"weight\":-3,\"nodes\":[],\
        \"metadata\":{\"meta\":{\"rank\":\"1\"},\"primaryGroup\":\"default\"}}";
    assert!(matches!(group_opt_response(404, ""), Ok(None)));
    assert!(matches!(
        group_opt_response(403, ""),
        Err(RequestError::Http { status: Some(403), .. })
    ));
    let g = group_opt_response(200, group_json).unwrap().expect("present");
    assert_eq!(g.name, "admin");
    assert_eq!(g.weight, Some(-3));
    assert_eq!(g.display_name, None);
    assert_eq!(g.metadata.meta, vec![("rank".to_string(), "1".to_string())]);
    assert_eq!(g.metadata.primary_group, Some("default".to_string()));
    assert_eq!(g.metadata.prefix, None);
}

#[test]
fn undecodable_bodies_give_the_json_variant() {
    assert!(matches!(
        user_response(200, "not json at all"),
        Err(RequestError::Json { .. })
    ));
    assert!(matches!(
        user_response(200, "{\"username\":\"Alice\"}"),
        Err(RequestError::Json { .. })
    ));
    assert!(matches!(unit_response(204, ""), Ok(())));
    assert!(matches!(
        unit_response(400, "bad"),
        Err(RequestError::Http { status: Some(400), .. })
    ));
}

#[test]
fn query_flag_and_mode_wire_names_are_fixed() {
    assert_eq!(QueryMode::Contextual.to_string(), "contextual");
    assert_eq!(QueryMode::NonContextual.to_string(), "non_contextual");
    assert_eq!(QueryFlag::ResolveInheritance.to_string(), "resolve_inheritance");
    assert_eq!(
        QueryFlag::IncludeNodesWithoutServerContext.to_string(),
        "include_nodes_without_server_context"
    );
    assert_eq!(
        QueryFlag::IncludeNodesWithoutWorldContext.to_string(),
        "include_nodes_without_world_context"
    );
    assert_eq!(
        QueryFlag::ApplyInheritanceNodesWithoutServerContext.to_string(),
        "apply_inheritance_nodes_without_server_context"
    );
    assert_eq!(
        QueryFlag::ApplyInheritanceNodesWithoutWorldContext.to_string(),
        "apply_inheritance_nodes_without_world_context"
    );
}

#[test]
fn query_options_with_empty_lists_serialize_without_those_keys() {
    let req = PermissionCheckRequest {
        permission: "example.perm".to_string(),
        query_options: QueryOptions { mode: None, flags: vec![], contexts: vec![] },
    };
    let client = LuckClient::try_new("http://h".to_string(), "k".to_string()).unwrap();
    let r = client.check_user_permission_query(alice_uuid(), &req);
    assert_eq!(
        r.body.unwrap(),
        "{\"permission\":\"example.perm\",\"queryOptions\":{}}"
    );
}

#[test]
fn query_options_carry_mode_flags_and_contexts_when_given() {
    let req = PermissionCheckRequest {
        permission: "p".to_string(),
        query_options: QueryOptions {
            mode: Some(QueryMode::Contextual),
            flags: vec![QueryFlag::ResolveInheritance],
            contexts: vec![Context { key: "server".to_string(), value: "survival".to_string() }],
        },
    };
    let client = LuckClient::try_new("http://h".to_string(), "k".to_string()).unwrap();
    let r = client.check_group_permission_query("admin".to_string(), &req);
    assert_eq!(r.method, Method::Post);
    assert_eq!(r.path_and_query, "/group/admin/permissionCheck");
    assert_eq!(
        r.body.unwrap(),
        "{\"permission\":\"p\",\"queryOptions\":{\"mode\":\"contextual\",\
         \"flags\":[\"resolve_inheritance\"],\
         \"contexts\":[{\"key\":\"server\",\"value\":\"survival\"}]}}"
    );
}

#[test]
fn creating_a_user_issues_the_exact_request_and_reads_the_response() {
    let client = LuckClient::try_new("http://localhost:8080".to_string(), "k".to_string()).unwrap();
    let ident = UserIdentifier { unique_id: alice_uuid(), username: "Alice".to_string() };
    let r = client.create_user(&ident);
    assert_eq!(r.method, Method::Post);
    assert_eq!(r.path_and_query, "/user");
    assert_eq!(
        r.body.unwrap(),
        "{\"uniqueId\":\"11111111-1111-1111-1111-111111111111\",\"username\":\"Alice\"}"
    );
    let body = "{\"uniqueId\":\"11111111-1111-1111-1111-111111111111\",\
        \"username\":\"Alice\",\"parentGroups\":[],\"nodes\":[]}";
    let u = user_response(200, body).unwrap();
    assert_eq!(u.username, "Alice");
    assert!(u.parent_groups.is_empty());
    assert!(u.nodes.is_empty());
}

#[test]
fn user_without_parent_groups_field_decodes_with_empty_list() {
    let body = "{\"uniqueId\":\"11111111-1111-1111-1111-111111111111\",\
        \"username\":\"Alice\",\"nodes\":[]}";
    let u = user_response(200, body).unwrap();
    assert!(u.parent_groups.is_empty());
}

#[test]
fn checking_a_permission_issues_the_exact_request_and_reads_the_response() {
    let client = LuckClient::try_new("http://localhost:8080".to_string(), "k".to_string()).unwrap();
    let r = client.check_user_permission(alice_uuid(), "example.perm".to_string());
    assert_eq!(r.method, Method::Get);
    assert_eq!(
        r.path_and_query,
        "/user/11111111-1111-1111-1111-111111111111/permissionCheck?permission=example.perm"
    );
    assert!(r.body.is_none());
    let outcome = permission_check_response(200, "{\"result\":true,\"node\":null}").unwrap();
    assert!(outcome.result);
    assert!(outcome.node.is_none());
}

#[test]
fn permission_check_with_deciding_node() {
    let body = "{\"result\":false,\"node\":{\"key\":\"k\",\"type\":\"suffix\",\
        \"value\":false,\"context\":[],\"expiry\":null}}";
    let outcome = permission_check_response(200, body).unwrap();
    assert!(!outcome.result);
    let n = outcome.node.expect("a deciding node");
    assert_eq!(n.type_, NodeType::Suffix);
}

#[test]
fn track_move_and_list_responses_decode() {
    let t = track_move_response(
        200,
        "{\"success\":true,\"status\":\"moved\",\"groupFrom\":\"a\",\"groupTo\":\"b\"}",
    )
    .unwrap();
    assert!(t.success);
    assert_eq!(t.status, "moved");
    assert_eq!(t.group_from, "a");
    assert_eq!(t.group_to, "b");

    let names = string_list_response(200, "[\"default\",\"admin\"]").unwrap();
    assert_eq!(names, vec!["default".to_string(), "admin".to_string()]);

    let ids = uuid_list_response(
        200,
        "[\"11111111-1111-1111-1111-111111111111\",\"22222222-2222-2222-2222-222222222222\"]",
    )
    .unwrap();
    assert_eq!(ids[0].value, 0x11111111_1111_1111_1111_111111111111);
    assert_eq!(ids[1].value, 0x22222222_2222_2222_2222_222222222222);
    assert!(uuid_list_response(200, "[\"oops\"]").is_err());
}

#[test]
fn builders_cover_the_path_catalogue() {
    let client = LuckClient::try_new("http://h".to_string(), "k".to_string()).unwrap();
    let u = alice_uuid();
    let base = "/user/11111111-1111-1111-1111-111111111111".to_string();
    assert_eq!(client.users().path_and_query, "/user");
    assert_eq!(client.get_user(u).path_and_query, base);
    assert_eq!(client.get_user(u).method, Method::Get);
    assert_eq!(client.delete_user(u).method, Method::Delete);
    assert_eq!(client.get_user_nodes(u).path_and_query, format!("{}/nodes", base));
    let n = sample_node();
    assert_eq!(client.add_user_node(u, &n).method, Method::Post);
    assert_eq!(client.add_user_nodes(u, &vec![]).method, Method::Patch);
    assert_eq!(client.add_user_nodes(u, &vec![]).body.unwrap(), "[]");
    assert_eq!(client.set_user_nodes(u, &vec![]).method, Method::Put);
    assert_eq!(client.delete_user_nodes(u, &vec![]).method, Method::Delete);
    assert_eq!(client.get_user_metadata(u).path_and_query, format!("{}/meta", base));
    assert_eq!(client.promote_user(u, "t".to_string()).path_and_query, format!("{}/promote", base));
    assert_eq!(client.promote_user(u, "t".to_string()).body.unwrap(), "{\"track\":\"t\"}");
    assert_eq!(client.demote_user(u, "t".to_string()).path_and_query, format!("{}/demote", base));
    let r = client.update_username(u, "Bob".to_string());
    assert_eq!(r.method, Method::Patch);
    assert_eq!(r.body.unwrap(), "{\"username\":\"Bob\"}");
    let lk = client.username_lookup("Alice".to_string());
    assert_eq!(lk.path_and_query, "/user/lookup?username=Alice");
    let lk2 = client.uuid_lookup(u);
    assert_eq!(
        lk2.path_and_query,
        "/user/lookup?uniqueId=11111111-1111-1111-1111-111111111111"
    );

    assert_eq!(client.get_groups().path_and_query, "/group");
    assert_eq!(client.create_group("g".to_string()).body.unwrap(), "{\"name\":\"g\"}");
    assert_eq!(client.get_group("g".to_string()).path_and_query, "/group/g");
    assert_eq!(client.delete_group("g".to_string()).method, Method::Delete);
    assert_eq!(client.get_group_nodes("g".to_string()).path_and_query, "/group/g/nodes");
    assert_eq!(client.add_group_node("g".to_string(), &n).method, Method::Post);
    assert_eq!(client.add_group_nodes("g".to_string(), &vec![]).method, Method::Patch);
    assert_eq!(client.set_group_nodes("g".to_string(), &vec![]).method, Method::Put);
    assert_eq!(client.delete_group_node("g".to_string(), &vec![]).method, Method::Delete);
    assert_eq!(client.get_group_metadata("g".to_string()).path_and_query, "/group/g/meta");
    assert_eq!(
        client.check_group_permission("g".to_string(), "p".to_string()).path_and_query,
        "/group/g/permissionCheck?permission=p"
    );
}

#[test]
fn submit_action_carries_the_exact_body() {
    let client = LuckClient::try_new("http://h".to_string(), "k".to_string()).unwrap();
    let action = Action {
        timestamp: None,
        source: ActionSource { unique_id: alice_uuid(), name: "console".to_string() },
        target: ActionTarget {
            unique_id: None,
            name: "admin".to_string(),
            target_type: ActionTargetType::Group,
        },
        description: "promoted".to_string(),
    };
    let r = client.submit_action(&action);
    assert_eq!(r.method, Method::Post);
    assert_eq!(r.path_and_query, "/action");
    assert_eq!(
        r.body.unwrap(),
        "{\"source\":{\"uniqueId\":\"11111111-1111-1111-1111-111111111111\",\
         \"name\":\"console\"},\"target\":{\"name\":\"admin\",\"type\":\"group\"},\
         \"description\":\"promoted\"}"
    );
    let stamped = Action { timestamp: Some(5), ..action };
    assert!(client.submit_action(&stamped).body.unwrap().starts_with("{\"timestamp\":5,"));
}

#[test]
fn metadata_decodes_with_optional_fields_absent() {
    let m = decode_metadata(&parse_json("{\"meta\":{}}").unwrap()).unwrap();
    assert!(m.meta.is_empty());
    assert_eq!(m.prefix, None);
    assert_eq!(m.suffix, None);
    assert_eq!(m.primary_group, None);
    assert!(decode_metadata(&parse_json("{}").unwrap()).is_none());
}

#[test]
fn group_weight_covers_the_signed_range() {
    let g = decode_group(
        &parse_json(
            "{\"name\":\"g\",\"weight\":-9223372036854775808,\"nodes\":[],\
             \"metadata\":{\"meta\":{}}}",
        )
        .unwrap(),
    )
    .unwrap();
    assert_eq!(g.weight, Some(i64::MIN));
    let h = decode_group(
        &parse_json("{\"name\":\"g\",\"nodes\":[],\"metadata\":{\"meta\":{}}}").unwrap(),
    )
    .unwrap();
    assert_eq!(h.weight, None);
}

#[test]
fn a_fractional_number_in_a_read_field_is_refused_but_tolerated_elsewhere() {
    let bad = group_opt_response(
        200,
        "{\"name\":\"g\",\"weight\":2.5,\"nodes\":[],\"metadata\":{\"meta\":{}}}",
    );
    assert!(matches!(bad, Err(RequestError::Json { .. })));
    let ok = group_opt_response(
        200,
        "{\"name\":\"g\",\"popularity\":2.5,\"nodes\":[],\"metadata\":{\"meta\":{}}}",
    )
    .unwrap()
    .expect("present");
    assert_eq!(ok.name, "g");
    assert_eq!(ok.weight, None);
}

#[test]
fn control_characters_are_escaped_in_string_bodies() {
    let j = Json::Str("a\tb\nc".to_string());
    assert_eq!(to_text(&j), "\"a\\u0009b\\u000ac\"");
    let back = parse_json(&to_text(&j)).unwrap();
    match back {
        Json::Str(s) => assert_eq!(s, "a\tb\nc"),
        _ => panic!("expected a string"),
    }
}
