//! The client: construction from a base URL and API key, one request builder
//! per remote operation stating the exact method, path, query and body, and
//! one response reader per result type classifying status and body.
use vstd::prelude::*;
use crate::ext::{
    normalize_url, url_normalized, form_encode_component, form_encoded, parse_json, is_json_text,
    json_of,
};
use crate::errors::{ClientCreationError, RequestError};
use crate::json::{json_text, to_text};
use crate::codec::{
    spec_user_identifier_json, user_identifier_json, single_str_json, username_update_json,
    track_move_request_json, group_create_json, spec_node_json, node_json, spec_nodes_json,
    nodes_json, spec_action_json, action_json, spec_permission_check_request_json,
    permission_check_request_json, spec_decode_user, decode_user, spec_decode_user_identifier,
    decode_user_identifier, spec_decode_uuid_list, decode_uuid_list, spec_decode_string_list,
    decode_string_list, spec_decode_node_list, decode_node_list, spec_decode_metadata,
    decode_metadata, spec_decode_metadata_list, decode_metadata_list, spec_decode_group,
    decode_group, spec_decode_user_search_list, decode_user_search_list,
    spec_decode_group_search_list, decode_group_search_list, spec_decode_permission_check,
    decode_permission_check, spec_decode_track_move, decode_track_move,
};
use crate::models::{
    Uuid, uuid_text, Node, User, UserIdentifier, UsernameUpdateRequest, TrackMoveRequest,
    TrackMoveResponse, GroupCreateRequest, Group, Metadata, UserSearchResult, GroupSearchResult,
    PermissionCheckResult, Action,
};
use crate::requests::{SearchRequest, spec_search_pairs, PermissionCheckRequest};

verus! {

/// The HTTP method of a request.
#[derive(Clone, Copy, PartialEq, Eq, Structural, Debug)]
pub enum Method {
    Get,
    Post,
    Put,
    Patch,
    Delete,
}

/// One outbound request, ready for a transport: the method, the path with
/// its query relative to the client's base URL, and the JSON body text, if
/// the operation carries one. The transport also attaches the client's
/// `X-API-KEY` header.
#[derive(Debug)]
pub struct HttpRequest {
    pub method: Method,
    pub path_and_query: String,
    pub body: Option<String>,
}

/// Whether a status reports an error: the client-error and server-error
/// classes. Anything below is read as success.
pub open spec fn is_error_status(status: u16) -> bool {
    400 <= status
}

/// Whether a character may stand in an HTTP header value: horizontal tab,
/// a visible character or space, or any character beyond ASCII (whose
/// encoded bytes the transport accepts as opaque text).
pub open spec fn header_safe_char(c: char) -> bool {
    c == '\t' || (32 <= c as u32 && c as u32 != 127)
}

/// Whether a text may stand as the value of an HTTP header.
pub open spec fn header_safe(s: Seq<char>) -> bool {
    forall|i: int| 0 <= i < s.len() ==> header_safe_char(#[trigger] s[i])
}

/// Whether a text may stand as an API key, checked character by character.
pub fn check_header_safe(s: &str) -> (r: bool)
    ensures
        r == header_safe(s@),
{
    let len = s.unicode_len();
    let mut i: usize = 0;
    while i < len
        invariant
            len == s@.len(),
            i <= len,
            forall|k: int| 0 <= k < i ==> header_safe_char(#[trigger] s@[k]),
        decreases len - i,
    {
        let c = s.get_char(i);
        let code = c as u32;
        if !(code == 9 || (32 <= code && code != 127)) {
            return false;
        }
        i = i + 1;
    }
    true
}

/// A client of one permissions service: the normalized base URL every request
/// path is joined to, and the API key sent as the `X-API-KEY` header.
#[derive(Debug)]
pub struct LuckClient {
    pub base_url: String,
    pub api_key: String,
}

/// The text of one query parameter: encoded name, `=`, encoded value.
pub open spec fn pair_text(p: (Seq<char>, Seq<char>)) -> Seq<char> {
    form_encoded(p.0) + seq!['='] + form_encoded(p.1)
}

/// The text of a query: its parameters' texts joined by `&`, in order.
pub open spec fn query_string(pairs: Seq<(Seq<char>, Seq<char>)>) -> Seq<char>
    decreases pairs.len(),
{
    if pairs.len() == 0 {
        Seq::empty()
    } else if pairs.len() == 1 {
        pair_text(pairs[0])
    } else {
        query_string(pairs.drop_last()) + seq!['&'] + pair_text(pairs.last())
    }
}

/// Appends one query parameter's text to `out`.
fn push_pair(out: &mut String, name: &str, value: &str)
    ensures
        final(out)@ == old(out)@ + pair_text((name@, value@)),
{
    let n = form_encode_component(name);
    out.append(n.as_str());
    crate::ext::push_char(out, '=');
    let v = form_encode_component(value);
    out.append(v.as_str());
    proof {
        assert(out@ =~= old(out)@ + pair_text((name@, value@)));
    }
}

/// A path followed by `?` and the query the pairs write, in order.
fn with_query(path: &str, pairs: &Vec<(String, String)>) -> (r: String)
    ensures
        r@ == path@ + seq!['?'] + query_string(pairs.deep_view()),
{
    let ghost pv = pairs.deep_view();
    let mut out = String::from_str(path);
    crate::ext::push_char(&mut out, '?');
    let mut i: usize = 0;
    while i < pairs.len()
        invariant
            pv == pairs.deep_view(),
            pv.len() == pairs@.len(),
            i <= pairs@.len(),
            out@ == path@ + seq!['?'] + query_string(pv.take(i as int)),
        decreases pairs@.len() - i,
    {
        if i > 0 {
            crate::ext::push_char(&mut out, '&');
        }
        push_pair(&mut out, pairs[i].0.as_str(), pairs[i].1.as_str());
        proof {
            assert(pv[i as int] == (pairs@[i as int].0@, pairs@[i as int].1@));
            let t = pv.take(i + 1);
            if i == 0 {
                assert(query_string(t) == pair_text(pv[0]));
            } else {
                assert(t.drop_last() =~= pv.take(i as int));
                assert(t.last() == pv[i as int]);
                assert(query_string(t) == query_string(pv.take(i as int)) + seq!['&'] + pair_text(
                    pv[i as int],
                ));
            }
            assert(out@ =~= path@ + seq!['?'] + query_string(t));
        }
        i = i + 1;
    }
    proof {
        assert(pv.take(pv.len() as int) =~= pv);
    }
    out
}

/// `prefix`, then `seg`, then `suffix`, in one string.
fn path3(prefix: &str, seg: &str, suffix: &str) -> (r: String)
    ensures
        r@ == prefix@ + seg@ + suffix@,
{
    let mut out = String::from_str(prefix);
    out.append(seg);
    out.append(suffix);
    proof {
        assert(out@ =~= prefix@ + seg@ + suffix@);
    }
    out
}

/// The path of one user's record.
pub open spec fn user_path(u: u128) -> Seq<char> {
    "/user/"@ + uuid_text(u)
}

/// The path of one group's record.
pub open spec fn group_path(name: Seq<char>) -> Seq<char> {
    "/group/"@ + name
}

impl LuckClient {
    /// Builds a client: the base URL must be a valid absolute URL, and the
    /// API key must be a legal header value. A malformed URL gives the `Url`
    /// error, a key the transport cannot carry the `Http` error.
    pub fn try_new(base_url: String, api_key: String) -> (r: Result<LuckClient, ClientCreationError>)
        ensures
            match r {
                Ok(c) => {
                    &&& url_normalized(base_url@) matches Some(u) && c.base_url@ == u
                    &&& header_safe(api_key@)
                    &&& c.api_key == api_key
                },
                Err(ClientCreationError::Url { detail }) => {
                    &&& url_normalized(base_url@) is None
                    &&& detail == base_url
                },
                Err(ClientCreationError::Http { detail }) => {
                    &&& url_normalized(base_url@) is Some
                    &&& !header_safe(api_key@)
                    &&& detail == api_key
                },
            },
    {
        let normalized = match normalize_url(base_url.as_str()) {
            Some(u) => u,
            None => {
                return Err(ClientCreationError::Url { detail: base_url });
            },
        };
        if !check_header_safe(api_key.as_str()) {
            return Err(ClientCreationError::Http { detail: api_key });
        }
        Ok(LuckClient { base_url: normalized, api_key })
    }

    /// Lists all users: one GET to `/user`, no body.
    pub fn users(&self) -> (r: HttpRequest)
        ensures
            r.method == Method::Get,
            r.path_and_query@ == "/user"@,
            r.body is None,
    {
        HttpRequest {
            method: Method::Get,
            path_and_query: String::from_str("/user"),
            body: None,
        }
    }

    /// Creates a user: one POST to `/user` carrying the identifier.
    pub fn create_user(&self, user: &UserIdentifier) -> (r: HttpRequest)
        ensures
            r.method == Method::Post,
            r.path_and_query@ == "/user"@,
            r.body matches Some(b) && b@ == json_text(spec_user_identifier_json(user.deep_view())),
    {
        HttpRequest {
            method: Method::Post,
            path_and_query: String::from_str("/user"),
            body: Some(to_text(&user_identifier_json(user))),
        }
    }

    /// Looks a user up by username: one GET to `/user/lookup` with the
    /// `username` query parameter.
    pub fn username_lookup(&self, username: String) -> (r: HttpRequest)
        ensures
            r.method == Method::Get,
            r.path_and_query@ == "/user/lookup"@ + seq!['?'] + query_string(
                seq![("username"@, username@)],
            ),
            r.body is None,
    {
        let mut pairs: Vec<(String, String)> = Vec::new();
        pairs.push((String::from_str("username"), username));
        let p = with_query("/user/lookup", &pairs);
        proof {
            assert(pairs.deep_view() =~= seq![("username"@, username@)]);
        }
        HttpRequest { method: Method::Get, path_and_query: p, body: None }
    }

    /// Looks a user up by UUID: one GET to `/user/lookup` with the
    /// `uniqueId` query parameter carrying the UUID's canonical text.
    pub fn uuid_lookup(&self, uuid: Uuid) -> (r: HttpRequest)
        ensures
            r.method == Method::Get,
            r.path_and_query@ == "/user/lookup"@ + seq!['?'] + query_string(
                seq![("uniqueId"@, uuid_text(uuid.value))],
            ),
            r.body is None,
    {
        let mut pairs: Vec<(String, String)> = Vec::new();
        pairs.push((String::from_str("uniqueId"), uuid.to_string()));
        let p = with_query("/user/lookup", &pairs);
        proof {
            assert(pairs.deep_view() =~= seq![("uniqueId"@, uuid_text(uuid.value))]);
        }
        HttpRequest { method: Method::Get, path_and_query: p, body: None }
    }

    /// Searches users by node: one GET to `/user/search` with the search's
    /// query parameters.
    pub fn user_search(&self, search: &SearchRequest) -> (r: HttpRequest)
        ensures
            r.method == Method::Get,
            r.path_and_query@ == "/user/search"@ + seq!['?'] + query_string(
                spec_search_pairs(search.deep_view()),
            ),
            r.body is None,
    {
        let pairs = search.query_pairs();
        let p = with_query("/user/search", &pairs);
        HttpRequest { method: Method::Get, path_and_query: p, body: None }
    }

    /// Fetches a user: one GET to `/user/{uuid}`, no body.
    pub fn get_user(&self, uuid: Uuid) -> (r: HttpRequest)
        ensures
            r.method == Method::Get,
            r.path_and_query@ == user_path(uuid.value),
            r.body is None,
    {
        let p = path3("/user/", uuid.to_string().as_str(), "");
        proof {
            reveal_strlit("");
            assert(p@ =~= user_path(uuid.value));
        }
        HttpRequest { method: Method::Get, path_and_query: p, body: None }
    }

    /// Renames a user: one PATCH to `/user/{uuid}` carrying the username.
    pub fn update_username(&self, uuid: Uuid, username: String) -> (r: HttpRequest)
        ensures
            r.method == Method::Patch,
            r.path_and_query@ == user_path(uuid.value),
            r.body matches Some(b) && b@ == json_text(single_str_json("username"@, username@)),
    {
        let p = path3("/user/", uuid.to_string().as_str(), "");
        proof {
            reveal_strlit("");
            assert(p@ =~= user_path(uuid.value));
        }
        let body = to_text(&username_update_json(&UsernameUpdateRequest { username }));
        HttpRequest { method: Method::Patch, path_and_query: p, body: Some(body) }
    }

    /// Deletes a user: one DELETE to `/user/{uuid}`, no body.
    pub fn delete_user(&self, uuid: Uuid) -> (r: HttpRequest)
        ensures
            r.method == Method::Delete,
            r.path_and_query@ == user_path(uuid.value),
            r.body is None,
    {
        let p = path3("/user/", uuid.to_string().as_str(), "");
        proof {
            reveal_strlit("");
            assert(p@ =~= user_path(uuid.value));
        }
        HttpRequest { method: Method::Delete, path_and_query: p, body: None }
    }

    /// Lists a user's nodes: one GET to `/user/{uuid}/nodes`.
    pub fn get_user_nodes(&self, uuid: Uuid) -> (r: HttpRequest)
        ensures
            r.method == Method::Get,
            r.path_and_query@ == user_path(uuid.value) + "/nodes"@,
            r.body is None,
    {
        let p = path3("/user/", uuid.to_string().as_str(), "/nodes");
        proof {
            assert(p@ =~= user_path(uuid.value) + "/nodes"@);
        }
        HttpRequest { method: Method::Get, path_and_query: p, body: None }
    }

    /// Adds one node to a user: one POST to `/user/{uuid}/nodes`.
    pub fn add_user_node(&self, uuid: Uuid, node: &Node) -> (r: HttpRequest)
        ensures
            r.method == Method::Post,
            r.path_and_query@ == user_path(uuid.value) + "/nodes"@,
            r.body matches Some(b) && b@ == json_text(spec_node_json(node.deep_view())),
    {
        let p = path3("/user/", uuid.to_string().as_str(), "/nodes");
        proof {
            assert(p@ =~= user_path(uuid.value) + "/nodes"@);
        }
        HttpRequest {
            method: Method::Post,
            path_and_query: p,
            body: Some(to_text(&node_json(node))),
        }
    }

    /// Adds several nodes to a user: one PATCH to `/user/{uuid}/nodes`.
    pub fn add_user_nodes(&self, uuid: Uuid, nodes: &Vec<Node>) -> (r: HttpRequest)
        ensures
            r.method == Method::Patch,
            r.path_and_query@ == user_path(uuid.value) + "/nodes"@,
            r.body matches Some(b) && b@ == json_text(spec_nodes_json(nodes.deep_view())),
    {
        let p = path3("/user/", uuid.to_string().as_str(), "/nodes");
        proof {
            assert(p@ =~= user_path(uuid.value) + "/nodes"@);
        }
        HttpRequest {
            method: Method::Patch,
            path_and_query: p,
            body: Some(to_text(&nodes_json(nodes))),
        }
    }

    /// Replaces a user's nodes: one PUT to `/user/{uuid}/nodes`.
    pub fn set_user_nodes(&self, uuid: Uuid, nodes: &Vec<Node>) -> (r: HttpRequest)
        ensures
            r.method == Method::Put,
            r.path_and_query@ == user_path(uuid.value) + "/nodes"@,
            r.body matches Some(b) && b@ == json_text(spec_nodes_json(nodes.deep_view())),
    {
        let p = path3("/user/", uuid.to_string().as_str(), "/nodes");
        proof {
            assert(p@ =~= user_path(uuid.value) + "/nodes"@);
        }
        HttpRequest {
            method: Method::Put,
            path_and_query: p,
            body: Some(to_text(&nodes_json(nodes))),
        }
    }

    /// Removes nodes from a user: one DELETE to `/user/{uuid}/nodes`
    /// carrying the nodes to remove.
    pub fn delete_user_nodes(&self, uuid: Uuid, nodes: &Vec<Node>) -> (r: HttpRequest)
        ensures
            r.method == Method::Delete,
            r.path_and_query@ == user_path(uuid.value) + "/nodes"@,
            r.body matches Some(b) && b@ == json_text(spec_nodes_json(nodes.deep_view())),
    {
        let p = path3("/user/", uuid.to_string().as_str(), "/nodes");
        proof {
            assert(p@ =~= user_path(uuid.value) + "/nodes"@);
        }
        HttpRequest {
            method: Method::Delete,
            path_and_query: p,
            body: Some(to_text(&nodes_json(nodes))),
        }
    }

    /// Fetches a user's metadata: one GET to `/user/{uuid}/meta`.
    pub fn get_user_metadata(&self, uuid: Uuid) -> (r: HttpRequest)
        ensures
            r.method == Method::Get,
            r.path_and_query@ == user_path(uuid.value) + "/meta"@,
            r.body is None,
    {
        let p = path3("/user/", uuid.to_string().as_str(), "/meta");
        proof {
            assert(p@ =~= user_path(uuid.value) + "/meta"@);
        }
        HttpRequest { method: Method::Get, path_and_query: p, body: None }
    }

    /// Checks one permission of a user: one GET to
    /// `/user/{uuid}/permissionCheck` with the `permission` query parameter.
    pub fn check_user_permission(&self, uuid: Uuid, permission: String) -> (r: HttpRequest)
        ensures
            r.method == Method::Get,
            r.path_and_query@ == user_path(uuid.value) + "/permissionCheck"@ + seq!['?']
                + query_string(seq![("permission"@, permission@)]),
            r.body is None,
    {
        let p = path3("/user/", uuid.to_string().as_str(), "/permissionCheck");
        proof {
            assert(p@ =~= user_path(uuid.value) + "/permissionCheck"@);
        }
        let mut pairs: Vec<(String, String)> = Vec::new();
        pairs.push((String::from_str("permission"), permission));
        let pq = with_query(p.as_str(), &pairs);
        proof {
            assert(pairs.deep_view() =~= seq![("permission"@, permission@)]);
        }
        HttpRequest { method: Method::Get, path_and_query: pq, body: None }
    }

    /// Checks one permission of a user under query options: one POST to
    /// `/user/{uuid}/permissionCheck` carrying the request.
    pub fn check_user_permission_query(&self, uuid: Uuid, request: &PermissionCheckRequest) -> (r:
        HttpRequest)
        ensures
            r.method == Method::Post,
            r.path_and_query@ == user_path(uuid.value) + "/permissionCheck"@,
            r.body matches Some(b) && b@ == json_text(
                spec_permission_check_request_json(request.deep_view()),
            ),
    {
        let p = path3("/user/", uuid.to_string().as_str(), "/permissionCheck");
        proof {
            assert(p@ =~= user_path(uuid.value) + "/permissionCheck"@);
        }
        HttpRequest {
            method: Method::Post,
            path_and_query: p,
            body: Some(to_text(&permission_check_request_json(request))),
        }
    }

    /// Promotes a user along a track: one POST to `/user/{uuid}/promote`
    /// carrying the track's name.
    pub fn promote_user(&self, uuid: Uuid, track: String) -> (r: HttpRequest)
        ensures
            r.method == Method::Post,
            r.path_and_query@ == user_path(uuid.value) + "/promote"@,
            r.body matches Some(b) && b@ == json_text(single_str_json("track"@, track@)),
    {
        let p = path3("/user/", uuid.to_string().as_str(), "/promote");
        proof {
            assert(p@ =~= user_path(uuid.value) + "/promote"@);
        }
        let body = to_text(&track_move_request_json(&TrackMoveRequest { track }));
        HttpRequest { method: Method::Post, path_and_query: p, body: Some(body) }
    }

    /// Demotes a user along a track: one POST to `/user/{uuid}/demote`
    /// carrying the track's name.
    pub fn demote_user(&self, uuid: Uuid, track: String) -> (r: HttpRequest)
        ensures
            r.method == Method::Post,
            r.path_and_query@ == user_path(uuid.value) + "/demote"@,
            r.body matches Some(b) && b@ == json_text(single_str_json("track"@, track@)),
    {
        let p = path3("/user/", uuid.to_string().as_str(), "/demote");
        proof {
            assert(p@ =~= user_path(uuid.value) + "/demote"@);
        }
        let body = to_text(&track_move_request_json(&TrackMoveRequest { track }));
        HttpRequest { method: Method::Post, path_and_query: p, body: Some(body) }
    }

    /// Lists all group names: one GET to `/group`, no body.
    pub fn get_groups(&self) -> (r: HttpRequest)
        ensures
            r.method == Method::Get,
            r.path_and_query@ == "/group"@,
            r.body is None,
    {
        HttpRequest {
            method: Method::Get,
            path_and_query: String::from_str("/group"),
            body: None,
        }
    }

    /// Creates a group: one POST to `/group` carrying the name.
    pub fn create_group(&self, name: String) -> (r: HttpRequest)
        ensures
            r.method == Method::Post,
            r.path_and_query@ == "/group"@,
            r.body matches Some(b) && b@ == json_text(single_str_json("name"@, name@)),
    {
        let body = to_text(&group_create_json(&GroupCreateRequest { name }));
        HttpRequest {
            method: Method::Post,
            path_and_query: String::from_str("/group"),
            body: Some(body),
        }
    }

    /// Searches groups by node: one GET to `/group/search` with the search's
    /// query parameters.
    pub fn search_group(&self, search_request: &SearchRequest) -> (r: HttpRequest)
        ensures
            r.method == Method::Get,
            r.path_and_query@ == "/group/search"@ + seq!['?'] + query_string(
                spec_search_pairs(search_request.deep_view()),
            ),
            r.body is None,
    {
        let pairs = search_request.query_pairs();
        let p = with_query("/group/search", &pairs);
        HttpRequest { method: Method::Get, path_and_query: p, body: None }
    }

    /// Fetches a group: one GET to `/group/{name}`. The name stands in the
    /// path as given: one with URL-illegal characters fails at the transport
    /// with the `Url` error.
    pub fn get_group(&self, name: String) -> (r: HttpRequest)
        ensures
            r.method == Method::Get,
            r.path_and_query@ == group_path(name@),
            r.body is None,
    {
        let p = path3("/group/", name.as_str(), "");
        proof {
            reveal_strlit("");
            assert(p@ =~= group_path(name@));
        }
        HttpRequest { method: Method::Get, path_and_query: p, body: None }
    }

    /// Deletes a group: one DELETE to `/group/{name}`, no body.
    pub fn delete_group(&self, name: String) -> (r: HttpRequest)
        ensures
            r.method == Method::Delete,
            r.path_and_query@ == group_path(name@),
            r.body is None,
    {
        let p = path3("/group/", name.as_str(), "");
        proof {
            reveal_strlit("");
            assert(p@ =~= group_path(name@));
        }
        HttpRequest { method: Method::Delete, path_and_query: p, body: None }
    }

    /// Lists a group's nodes: one GET to `/group/{name}/nodes`.
    pub fn get_group_nodes(&self, name: String) -> (r: HttpRequest)
        ensures
            r.method == Method::Get,
            r.path_and_query@ == group_path(name@) + "/nodes"@,
            r.body is None,
    {
        let p = path3("/group/", name.as_str(), "/nodes");
        proof {
            assert(p@ =~= group_path(name@) + "/nodes"@);
        }
        HttpRequest { method: Method::Get, path_and_query: p, body: None }
    }

    /// Adds one node to a group: one POST to `/group/{name}/nodes`.
    pub fn add_group_node(&self, name: String, node: &Node) -> (r: HttpRequest)
        ensures
            r.method == Method::Post,
            r.path_and_query@ == group_path(name@) + "/nodes"@,
            r.body matches Some(b) && b@ == json_text(spec_node_json(node.deep_view())),
    {
        let p = path3("/group/", name.as_str(), "/nodes");
        proof {
            assert(p@ =~= group_path(name@) + "/nodes"@);
        }
        HttpRequest {
            method: Method::Post,
            path_and_query: p,
            body: Some(to_text(&node_json(node))),
        }
    }

    /// Adds several nodes to a group: one PATCH to `/group/{name}/nodes`.
    pub fn add_group_nodes(&self, name: String, nodes: &Vec<Node>) -> (r: HttpRequest)
        ensures
            r.method == Method::Patch,
            r.path_and_query@ == group_path(name@) + "/nodes"@,
            r.body matches Some(b) && b@ == json_text(spec_nodes_json(nodes.deep_view())),
    {
        let p = path3("/group/", name.as_str(), "/nodes");
        proof {
            assert(p@ =~= group_path(name@) + "/nodes"@);
        }
        HttpRequest {
            method: Method::Patch,
            path_and_query: p,
            body: Some(to_text(&nodes_json(nodes))),
        }
    }

    /// Replaces a group's nodes: one PUT to `/group/{name}/nodes`.
    pub fn set_group_nodes(&self, name: String, nodes: &Vec<Node>) -> (r: HttpRequest)
        ensures
            r.method == Method::Put,
            r.path_and_query@ == group_path(name@) + "/nodes"@,
            r.body matches Some(b) && b@ == json_text(spec_nodes_json(nodes.deep_view())),
    {
        let p = path3("/group/", name.as_str(), "/nodes");
        proof {
            assert(p@ =~= group_path(name@) + "/nodes"@);
        }
        HttpRequest {
            method: Method::Put,
            path_and_query: p,
            body: Some(to_text(&nodes_json(nodes))),
        }
    }

    /// Removes nodes from a group: one DELETE to `/group/{name}/nodes`
    /// carrying the nodes to remove.
    pub fn delete_group_node(&self, name: String, nodes: &Vec<Node>) -> (r: HttpRequest)
        ensures
            r.method == Method::Delete,
            r.path_and_query@ == group_path(name@) + "/nodes"@,
            r.body matches Some(b) && b@ == json_text(spec_nodes_json(nodes.deep_view())),
    {
        let p = path3("/group/", name.as_str(), "/nodes");
        proof {
            assert(p@ =~= group_path(name@) + "/nodes"@);
        }
        HttpRequest {
            method: Method::Delete,
            path_and_query: p,
            body: Some(to_text(&nodes_json(nodes))),
        }
    }

    /// Fetches a group's metadata: one GET to `/group/{name}/meta`.
    pub fn get_group_metadata(&self, name: String) -> (r: HttpRequest)
        ensures
            r.method == Method::Get,
            r.path_and_query@ == group_path(name@) + "/meta"@,
            r.body is None,
    {
        let p = path3("/group/", name.as_str(), "/meta");
        proof {
            assert(p@ =~= group_path(name@) + "/meta"@);
        }
        HttpRequest { method: Method::Get, path_and_query: p, body: None }
    }

    /// Checks one permission of a group: one GET to
    /// `/group/{name}/permissionCheck` with the `permission` query parameter.
    pub fn check_group_permission(&self, name: String, permission: String) -> (r: HttpRequest)
        ensures
            r.method == Method::Get,
            r.path_and_query@ == group_path(name@) + "/permissionCheck"@ + seq!['?']
                + query_string(seq![("permission"@, permission@)]),
            r.body is None,
    {
        let p = path3("/group/", name.as_str(), "/permissionCheck");
        proof {
            assert(p@ =~= group_path(name@) + "/permissionCheck"@);
        }
        let mut pairs: Vec<(String, String)> = Vec::new();
        pairs.push((String::from_str("permission"), permission));
        let pq = with_query(p.as_str(), &pairs);
        proof {
            assert(pairs.deep_view() =~= seq![("permission"@, permission@)]);
        }
        HttpRequest { method: Method::Get, path_and_query: pq, body: None }
    }

    /// Checks one permission of a group under query options: one POST to
    /// `/group/{name}/permissionCheck` carrying the request.
    pub fn check_group_permission_query(&self, name: String, request: &PermissionCheckRequest) -> (
        r: HttpRequest)
        ensures
            r.method == Method::Post,
            r.path_and_query@ == group_path(name@) + "/permissionCheck"@,
            r.body matches Some(b) && b@ == json_text(
                spec_permission_check_request_json(request.deep_view()),
            ),
    {
        let p = path3("/group/", name.as_str(), "/permissionCheck");
        proof {
            assert(p@ =~= group_path(name@) + "/permissionCheck"@);
        }
        HttpRequest {
            method: Method::Post,
            path_and_query: p,
            body: Some(to_text(&permission_check_request_json(request))),
        }
    }

    /// Submits an audit-log action: one POST to `/action` carrying it.
    pub fn submit_action(&self, action: &Action) -> (r: HttpRequest)
        ensures
            r.method == Method::Post,
            r.path_and_query@ == "/action"@,
            r.body matches Some(b) && b@ == json_text(spec_action_json(action.deep_view())),
    {
        HttpRequest {
            method: Method::Post,
            path_and_query: String::from_str("/action"),
            body: Some(to_text(&action_json(action))),
        }
    }
}

/// Classifies a response carrying a list of user UUIDs: an error status gives the `Http`
/// error with that status; otherwise the body must be the JSON shape the
/// decoder reads, whose value is returned, and anything else gives the
/// `Json` error carrying the body.
pub fn uuid_list_response(status: u16, body: &str) -> (r: Result<Vec<Uuid>, RequestError>)
    ensures
        is_error_status(status) ==> (r matches Err(RequestError::Http { status: st, detail })
            && st == Some(status) && detail@ == body@),
        !is_error_status(status) && !is_json_text(body@) ==> (r matches Err(
            RequestError::Json { detail },
        ) && detail@ == body@),
        !is_error_status(status) && is_json_text(body@) ==> (match spec_decode_uuid_list(json_of(body@)) {
            Some(v) => r matches Ok(u) && u.deep_view() == v,
            None => r matches Err(RequestError::Json { detail }) && detail@ == body@,
        }),
{
    if status >= 400 {
        return Err(RequestError::Http { status: Some(status), detail: String::from_str(body) });
    }
    match parse_json(body) {
        None => Err(RequestError::Json { detail: String::from_str(body) }),
        Some(j) => {
            proof {
                assert(j@ == json_of(body@));
            }
            match decode_uuid_list(&j) {
                Some(v) => Ok(v),
                None => Err(RequestError::Json { detail: String::from_str(body) }),
            }
        },
    }
}

/// Classifies a response carrying a full user record: an error status gives the `Http`
/// error with that status; otherwise the body must be the JSON shape the
/// decoder reads, whose value is returned, and anything else gives the
/// `Json` error carrying the body.
pub fn user_response(status: u16, body: &str) -> (r: Result<User, RequestError>)
    ensures
        is_error_status(status) ==> (r matches Err(RequestError::Http { status: st, detail })
            && st == Some(status) && detail@ == body@),
        !is_error_status(status) && !is_json_text(body@) ==> (r matches Err(
            RequestError::Json { detail },
        ) && detail@ == body@),
        !is_error_status(status) && is_json_text(body@) ==> (match spec_decode_user(json_of(body@)) {
            Some(v) => r matches Ok(u) && u.deep_view() == v,
            None => r matches Err(RequestError::Json { detail }) && detail@ == body@,
        }),
{
    if status >= 400 {
        return Err(RequestError::Http { status: Some(status), detail: String::from_str(body) });
    }
    match parse_json(body) {
        None => Err(RequestError::Json { detail: String::from_str(body) }),
        Some(j) => {
            proof {
                assert(j@ == json_of(body@));
            }
            match decode_user(&j) {
                Some(v) => Ok(v),
                None => Err(RequestError::Json { detail: String::from_str(body) }),
            }
        },
    }
}

/// Classifies a response carrying a user identifier: an error status gives the `Http`
/// error with that status; otherwise the body must be the JSON shape the
/// decoder reads, whose value is returned, and anything else gives the
/// `Json` error carrying the body.
pub fn user_identifier_response(status: u16, body: &str) -> (r: Result<UserIdentifier, RequestError>)
    ensures
        is_error_status(status) ==> (r matches Err(RequestError::Http { status: st, detail })
            && st == Some(status) && detail@ == body@),
        !is_error_status(status) && !is_json_text(body@) ==> (r matches Err(
            RequestError::Json { detail },
        ) && detail@ == body@),
        !is_error_status(status) && is_json_text(body@) ==> (match spec_decode_user_identifier(json_of(body@)) {
            Some(v) => r matches Ok(u) && u.deep_view() == v,
            None => r matches Err(RequestError::Json { detail }) && detail@ == body@,
        }),
{
    if status >= 400 {
        return Err(RequestError::Http { status: Some(status), detail: String::from_str(body) });
    }
    match parse_json(body) {
        None => Err(RequestError::Json { detail: String::from_str(body) }),
        Some(j) => {
            proof {
                assert(j@ == json_of(body@));
            }
            match decode_user_identifier(&j) {
                Some(v) => Ok(v),
                None => Err(RequestError::Json { detail: String::from_str(body) }),
            }
        },
    }
}

/// Classifies a response carrying the matches of a user search: an error status gives the `Http`
/// error with that status; otherwise the body must be the JSON shape the
/// decoder reads, whose value is returned, and anything else gives the
/// `Json` error carrying the body.
pub fn user_search_response(status: u16, body: &str) -> (r: Result<Vec<UserSearchResult>, RequestError>)
    ensures
        is_error_status(status) ==> (r matches Err(RequestError::Http { status: st, detail })
            && st == Some(status) && detail@ == body@),
        !is_error_status(status) && !is_json_text(body@) ==> (r matches Err(
            RequestError::Json { detail },
        ) && detail@ == body@),
        !is_error_status(status) && is_json_text(body@) ==> (match spec_decode_user_search_list(json_of(body@)) {
            Some(v) => r matches Ok(u) && u.deep_view() == v,
            None => r matches Err(RequestError::Json { detail }) && detail@ == body@,
        }),
{
    if status >= 400 {
        return Err(RequestError::Http { status: Some(status), detail: String::from_str(body) });
    }
    match parse_json(body) {
        None => Err(RequestError::Json { detail: String::from_str(body) }),
        Some(j) => {
            proof {
                assert(j@ == json_of(body@));
            }
            match decode_user_search_list(&j) {
                Some(v) => Ok(v),
                None => Err(RequestError::Json { detail: String::from_str(body) }),
            }
        },
    }
}

/// Classifies a response carrying a list of nodes: an error status gives the `Http`
/// error with that status; otherwise the body must be the JSON shape the
/// decoder reads, whose value is returned, and anything else gives the
/// `Json` error carrying the body.
pub fn node_list_response(status: u16, body: &str) -> (r: Result<Vec<Node>, RequestError>)
    ensures
        is_error_status(status) ==> (r matches Err(RequestError::Http { status: st, detail })
            && st == Some(status) && detail@ == body@),
        !is_error_status(status) && !is_json_text(body@) ==> (r matches Err(
            RequestError::Json { detail },
        ) && detail@ == body@),
        !is_error_status(status) && is_json_text(body@) ==> (match spec_decode_node_list(json_of(body@)) {
            Some(v) => r matches Ok(u) && u.deep_view() == v,
            None => r matches Err(RequestError::Json { detail }) && detail@ == body@,
        }),
{
    if status >= 400 {
        return Err(RequestError::Http { status: Some(status), detail: String::from_str(body) });
    }
    match parse_json(body) {
        None => Err(RequestError::Json { detail: String::from_str(body) }),
        Some(j) => {
            proof {
                assert(j@ == json_of(body@));
            }
            match decode_node_list(&j) {
                Some(v) => Ok(v),
                None => Err(RequestError::Json { detail: String::from_str(body) }),
            }
        },
    }
}

/// Classifies a response carrying a metadata record: an error status gives the `Http`
/// error with that status; otherwise the body must be the JSON shape the
/// decoder reads, whose value is returned, and anything else gives the
/// `Json` error carrying the body.
pub fn metadata_response(status: u16, body: &str) -> (r: Result<Metadata, RequestError>)
    ensures
        is_error_status(status) ==> (r matches Err(RequestError::Http { status: st, detail })
            && st == Some(status) && detail@ == body@),
        !is_error_status(status) && !is_json_text(body@) ==> (r matches Err(
            RequestError::Json { detail },
        ) && detail@ == body@),
        !is_error_status(status) && is_json_text(body@) ==> (match spec_decode_metadata(json_of(body@)) {
            Some(v) => r matches Ok(u) && u.deep_view() == v,
            None => r matches Err(RequestError::Json { detail }) && detail@ == body@,
        }),
{
    if status >= 400 {
        return Err(RequestError::Http { status: Some(status), detail: String::from_str(body) });
    }
    match parse_json(body) {
        None => Err(RequestError::Json { detail: String::from_str(body) }),
        Some(j) => {
            proof {
                assert(j@ == json_of(body@));
            }
            match decode_metadata(&j) {
                Some(v) => Ok(v),
                None => Err(RequestError::Json { detail: String::from_str(body) }),
            }
        },
    }
}

/// Classifies a response carrying a list of metadata records: an error status gives the `Http`
/// error with that status; otherwise the body must be the JSON shape the
/// decoder reads, whose value is returned, and anything else gives the
/// `Json` error carrying the body.
pub fn metadata_list_response(status: u16, body: &str) -> (r: Result<Vec<Metadata>, RequestError>)
    ensures
        is_error_status(status) ==> (r matches Err(RequestError::Http { status: st, detail })
            && st == Some(status) && detail@ == body@),
        !is_error_status(status) && !is_json_text(body@) ==> (r matches Err(
            RequestError::Json { detail },
        ) && detail@ == body@),
        !is_error_status(status) && is_json_text(body@) ==> (match spec_decode_metadata_list(json_of(body@)) {
            Some(v) => r matches Ok(u) && u.deep_view() == v,
            None => r matches Err(RequestError::Json { detail }) && detail@ == body@,
        }),
{
    if status >= 400 {
        return Err(RequestError::Http { status: Some(status), detail: String::from_str(body) });
    }
    match parse_json(body) {
        None => Err(RequestError::Json { detail: String::from_str(body) }),
        Some(j) => {
            proof {
                assert(j@ == json_of(body@));
            }
            match decode_metadata_list(&j) {
                Some(v) => Ok(v),
                None => Err(RequestError::Json { detail: String::from_str(body) }),
            }
        },
    }
}

/// Classifies a response carrying a list of group names: an error status gives the `Http`
/// error with that status; otherwise the body must be the JSON shape the
/// decoder reads, whose value is returned, and anything else gives the
/// `Json` error carrying the body.
pub fn string_list_response(status: u16, body: &str) -> (r: Result<Vec<String>, RequestError>)
    ensures
        is_error_status(status) ==> (r matches Err(RequestError::Http { status: st, detail })
            && st == Some(status) && detail@ == body@),
        !is_error_status(status) && !is_json_text(body@) ==> (r matches Err(
            RequestError::Json { detail },
        ) && detail@ == body@),
        !is_error_status(status) && is_json_text(body@) ==> (match spec_decode_string_list(json_of(body@)) {
            Some(v) => r matches Ok(u) && u.deep_view() == v,
            None => r matches Err(RequestError::Json { detail }) && detail@ == body@,
        }),
{
    if status >= 400 {
        return Err(RequestError::Http { status: Some(status), detail: String::from_str(body) });
    }
    match parse_json(body) {
        None => Err(RequestError::Json { detail: String::from_str(body) }),
        Some(j) => {
            proof {
                assert(j@ == json_of(body@));
            }
            match decode_string_list(&j) {
                Some(v) => Ok(v),
                None => Err(RequestError::Json { detail: String::from_str(body) }),
            }
        },
    }
}

/// Classifies a response carrying a full group record: an error status gives the `Http`
/// error with that status; otherwise the body must be the JSON shape the
/// decoder reads, whose value is returned, and anything else gives the
/// `Json` error carrying the body.
pub fn group_response(status: u16, body: &str) -> (r: Result<Group, RequestError>)
    ensures
        is_error_status(status) ==> (r matches Err(RequestError::Http { status: st, detail })
            && st == Some(status) && detail@ == body@),
        !is_error_status(status) && !is_json_text(body@) ==> (r matches Err(
            RequestError::Json { detail },
        ) && detail@ == body@),
        !is_error_status(status) && is_json_text(body@) ==> (match spec_decode_group(json_of(body@)) {
            Some(v) => r matches Ok(u) && u.deep_view() == v,
            None => r matches Err(RequestError::Json { detail }) && detail@ == body@,
        }),
{
    if status >= 400 {
        return Err(RequestError::Http { status: Some(status), detail: String::from_str(body) });
    }
    match parse_json(body) {
        None => Err(RequestError::Json { detail: String::from_str(body) }),
        Some(j) => {
            proof {
                assert(j@ == json_of(body@));
            }
            match decode_group(&j) {
                Some(v) => Ok(v),
                None => Err(RequestError::Json { detail: String::from_str(body) }),
            }
        },
    }
}

/// Classifies a response carrying the matches of a group search: an error status gives the `Http`
/// error with that status; otherwise the body must be the JSON shape the
/// decoder reads, whose value is returned, and anything else gives the
/// `Json` error carrying the body.
pub fn group_search_response(status: u16, body: &str) -> (r: Result<Vec<GroupSearchResult>, RequestError>)
    ensures
        is_error_status(status) ==> (r matches Err(RequestError::Http { status: st, detail })
            && st == Some(status) && detail@ == body@),
        !is_error_status(status) && !is_json_text(body@) ==> (r matches Err(
            RequestError::Json { detail },
        ) && detail@ == body@),
        !is_error_status(status) && is_json_text(body@) ==> (match spec_decode_group_search_list(json_of(body@)) {
            Some(v) => r matches Ok(u) && u.deep_view() == v,
            None => r matches Err(RequestError::Json { detail }) && detail@ == body@,
        }),
{
    if status >= 400 {
        return Err(RequestError::Http { status: Some(status), detail: String::from_str(body) });
    }
    match parse_json(body) {
        None => Err(RequestError::Json { detail: String::from_str(body) }),
        Some(j) => {
            proof {
                assert(j@ == json_of(body@));
            }
            match decode_group_search_list(&j) {
                Some(v) => Ok(v),
                None => Err(RequestError::Json { detail: String::from_str(body) }),
            }
        },
    }
}

/// Classifies a response carrying a permission-check outcome: an error status gives the `Http`
/// error with that status; otherwise the body must be the JSON shape the
/// decoder reads, whose value is returned, and anything else gives the
/// `Json` error carrying the body.
pub fn permission_check_response(status: u16, body: &str) -> (r: Result<PermissionCheckResult, RequestError>)
    ensures
        is_error_status(status) ==> (r matches Err(RequestError::Http { status: st, detail })
            && st == Some(status) && detail@ == body@),
        !is_error_status(status) && !is_json_text(body@) ==> (r matches Err(
            RequestError::Json { detail },
        ) && detail@ == body@),
        !is_error_status(status) && is_json_text(body@) ==> (match spec_decode_permission_check(json_of(body@)) {
            Some(v) => r matches Ok(u) && u.deep_view() == v,
            None => r matches Err(RequestError::Json { detail }) && detail@ == body@,
        }),
{
    if status >= 400 {
        return Err(RequestError::Http { status: Some(status), detail: String::from_str(body) });
    }
    match parse_json(body) {
        None => Err(RequestError::Json { detail: String::from_str(body) }),
        Some(j) => {
            proof {
                assert(j@ == json_of(body@));
            }
            match decode_permission_check(&j) {
                Some(v) => Ok(v),
                None => Err(RequestError::Json { detail: String::from_str(body) }),
            }
        },
    }
}

/// Classifies a response carrying a track-move outcome: an error status gives the `Http`
/// error with that status; otherwise the body must be the JSON shape the
/// decoder reads, whose value is returned, and anything else gives the
/// `Json` error carrying the body.
pub fn track_move_response(status: u16, body: &str) -> (r: Result<TrackMoveResponse, RequestError>)
    ensures
        is_error_status(status) ==> (r matches Err(RequestError::Http { status: st, detail })
            && st == Some(status) && detail@ == body@),
        !is_error_status(status) && !is_json_text(body@) ==> (r matches Err(
            RequestError::Json { detail },
        ) && detail@ == body@),
        !is_error_status(status) && is_json_text(body@) ==> (match spec_decode_track_move(json_of(body@)) {
            Some(v) => r matches Ok(u) && u.deep_view() == v,
            None => r matches Err(RequestError::Json { detail }) && detail@ == body@,
        }),
{
    if status >= 400 {
        return Err(RequestError::Http { status: Some(status), detail: String::from_str(body) });
    }
    match parse_json(body) {
        None => Err(RequestError::Json { detail: String::from_str(body) }),
        Some(j) => {
            proof {
                assert(j@ == json_of(body@));
            }
            match decode_track_move(&j) {
                Some(v) => Ok(v),
                None => Err(RequestError::Json { detail: String::from_str(body) }),
            }
        },
    }
}

/// Classifies a get-or-absent response carrying a user record: a not-found status
/// gives a typed absence, not an error; any other error status gives the
/// `Http` error; a success status must carry the JSON shape the decoder
/// reads, whose value is returned, and anything else gives the `Json` error
/// carrying the body.
pub fn user_opt_response(status: u16, body: &str) -> (r: Result<Option<User>, RequestError>)
    ensures
        status == 404 ==> (r matches Ok(v) && v is None),
        status != 404 && is_error_status(status) ==> (r matches Err(
            RequestError::Http { status: st, detail },
        ) && st == Some(status) && detail@ == body@),
        status != 404 && !is_error_status(status) && !is_json_text(body@) ==> (r matches Err(
            RequestError::Json { detail },
        ) && detail@ == body@),
        status != 404 && !is_error_status(status) && is_json_text(body@) ==> (match spec_decode_user(
            json_of(body@),
        ) {
            Some(v) => r matches Ok(o) && o matches Some(u) && u.deep_view() == v,
            None => r matches Err(RequestError::Json { detail }) && detail@ == body@,
        }),
{
    if status == 404 {
        return Ok(None);
    }
    if status >= 400 {
        return Err(RequestError::Http { status: Some(status), detail: String::from_str(body) });
    }
    match parse_json(body) {
        None => Err(RequestError::Json { detail: String::from_str(body) }),
        Some(j) => {
            proof {
                assert(j@ == json_of(body@));
            }
            match decode_user(&j) {
                Some(v) => Ok(Some(v)),
                None => Err(RequestError::Json { detail: String::from_str(body) }),
            }
        },
    }
}

/// Classifies a get-or-absent response carrying a group record: a not-found status
/// gives a typed absence, not an error; any other error status gives the
/// `Http` error; a success status must carry the JSON shape the decoder
/// reads, whose value is returned, and anything else gives the `Json` error
/// carrying the body.
pub fn group_opt_response(status: u16, body: &str) -> (r: Result<Option<Group>, RequestError>)
    ensures
        status == 404 ==> (r matches Ok(v) && v is None),
        status != 404 && is_error_status(status) ==> (r matches Err(
            RequestError::Http { status: st, detail },
        ) && st == Some(status) && detail@ == body@),
        status != 404 && !is_error_status(status) && !is_json_text(body@) ==> (r matches Err(
            RequestError::Json { detail },
        ) && detail@ == body@),
        status != 404 && !is_error_status(status) && is_json_text(body@) ==> (match spec_decode_group(
            json_of(body@),
        ) {
            Some(v) => r matches Ok(o) && o matches Some(u) && u.deep_view() == v,
            None => r matches Err(RequestError::Json { detail }) && detail@ == body@,
        }),
{
    if status == 404 {
        return Ok(None);
    }
    if status >= 400 {
        return Err(RequestError::Http { status: Some(status), detail: String::from_str(body) });
    }
    match parse_json(body) {
        None => Err(RequestError::Json { detail: String::from_str(body) }),
        Some(j) => {
            proof {
                assert(j@ == json_of(body@));
            }
            match decode_group(&j) {
                Some(v) => Ok(Some(v)),
                None => Err(RequestError::Json { detail: String::from_str(body) }),
            }
        },
    }
}

/// Classifies a response of a pure mutation, which carries no meaningful
/// body: an error status gives the `Http` error with that status, anything
/// else is success.
pub fn unit_response(status: u16, body: &str) -> (r: Result<(), RequestError>)
    ensures
        is_error_status(status) ==> (r matches Err(RequestError::Http { status: st, detail })
            && st == Some(status) && detail@ == body@),
        !is_error_status(status) ==> r == Ok::<(), RequestError>(()),
{
    if status >= 400 {
        return Err(RequestError::Http { status: Some(status), detail: String::from_str(body) });
    }
    Ok(())
}

} // verus!
