//! The JSON shape of every record the library sends or receives: encoders
//! from records to JSON values, decoders from JSON values back to records,
//! and the law that decoding undoes encoding.
use vstd::prelude::*;
use crate::json::{Json, JsonV, json_view, obj_get, fields_view, lemma_obj_view, obj_field};
use crate::requests::{
    Context, ContextV, QueryOptions, QueryOptionsV, PermissionCheckRequest,
    PermissionCheckRequestV, QueryMode, QueryFlag, query_mode_name, query_flag_name,
};
use crate::models::{
    Node, NodeV, NodeType, node_type_name, node_type_of_name, lemma_node_type_name_round_trip,
    lemma_uuid_text_round_trip, Uuid, uuid_text, spec_parse_uuid, parse_uuid, UserIdentifier,
    UserIdentifierV,
    UsernameUpdateRequest, TrackMoveRequest, TrackMoveResponse, TrackMoveResponseV,
    GroupCreateRequest, User, UserV, Metadata, MetadataV, Group, GroupV, UserSearchResult,
    UserSearchResultV, GroupSearchResult, GroupSearchResultV, PermissionCheckResult,
    PermissionCheckResultV, Action, ActionV, ActionSource, ActionSourceV, ActionTarget,
    ActionTargetV, action_target_type_name,
};

verus! {

/// The JSON value of an optional unsigned integer: `null` when absent.
pub open spec fn opt_u64_json(e: Option<u64>) -> JsonV {
    match e {
        None => JsonV::Null,
        Some(x) => JsonV::UInt(x),
    }
}

/// The JSON array of a sequence of strings.
pub open spec fn str_arr_json(ss: Seq<Seq<char>>) -> JsonV {
    JsonV::Arr(Seq::new(ss.len(), |i: int| JsonV::Str(ss[i])))
}

/// The JSON object of a node: its five fields, in this order.
pub open spec fn spec_node_json(n: NodeV) -> JsonV {
    JsonV::Obj(
        seq![
            ("key"@, JsonV::Str(n.key)),
            ("type"@, JsonV::Str(node_type_name(n.type_))),
            ("value"@, JsonV::Bool(n.value)),
            ("context"@, str_arr_json(n.context)),
            ("expiry"@, opt_u64_json(n.expiry)),
        ],
    )
}

/// Reads a sequence of strings from the items of a JSON array: `None` when
/// any item is not a string.
pub open spec fn decode_strings(items: Seq<JsonV>) -> Option<Seq<Seq<char>>> {
    if forall|i: int| 0 <= i < items.len() ==> (#[trigger] items[i]) is Str {
        Some(Seq::new(items.len(), |i: int| items[i]->Str_0))
    } else {
        None
    }
}

/// Reads an optional unsigned integer: `null` stands for absence.
pub open spec fn decode_opt_u64(j: JsonV) -> Option<Option<u64>> {
    match j {
        JsonV::Null => Some(None),
        JsonV::UInt(x) => Some(Some(x)),
        _ => None,
    }
}

/// Reads a node from a JSON value. All five fields must be present under
/// their wire names; `expiry` may be `null`; unknown fields are ignored.
pub open spec fn spec_decode_node(j: JsonV) -> Option<NodeV> {
    match j {
        JsonV::Obj(fields) => {
            match (
                obj_get(fields, "key"@),
                obj_get(fields, "type"@),
                obj_get(fields, "value"@),
                obj_get(fields, "context"@),
                obj_get(fields, "expiry"@),
            ) {
                (
                    Some(JsonV::Str(key)),
                    Some(JsonV::Str(tn)),
                    Some(JsonV::Bool(value)),
                    Some(JsonV::Arr(ctx)),
                    Some(ej),
                ) => {
                    match (node_type_of_name(tn), decode_strings(ctx), decode_opt_u64(ej)) {
                        (Some(type_), Some(context), Some(expiry)) => Some(
                            NodeV { key, type_, value, context, expiry },
                        ),
                        _ => None,
                    }
                },
                _ => None,
            }
        },
        _ => None,
    }
}

/// The JSON value of a vector of strings.
pub fn strings_json(ss: &Vec<String>) -> (r: Json)
    ensures
        r@ == str_arr_json(ss.deep_view()),
{
    let mut items: Vec<Json> = Vec::new();
    let mut i: usize = 0;
    while i < ss.len()
        invariant
            i <= ss.len(),
            items@.len() == i,
            forall|k: int| 0 <= k < i ==> json_view(#[trigger] items@[k]) == JsonV::Str(ss@[k]@),
        decreases ss.len() - i,
    {
        items.push(Json::Str(ss[i].clone()));
        i = i + 1;
    }
    let r = Json::Arr(items);
    proof {
        assert(r@->Arr_0 =~= str_arr_json(ss.deep_view())->Arr_0);
        assert(r@ =~= str_arr_json(ss.deep_view()));
    }
    r
}

/// The JSON object of a node.
pub fn node_json(n: &Node) -> (r: Json)
    ensures
        r@ == spec_node_json(n.deep_view()),
{
    let ctx = strings_json(&n.context);
    let mut fields: Vec<(String, Json)> = Vec::new();
    fields.push((String::from_str("key"), Json::Str(n.key.clone())));
    fields.push((String::from_str("type"), Json::Str(n.type_.to_string())));
    fields.push((String::from_str("value"), Json::Bool(n.value)));
    fields.push((String::from_str("context"), ctx));
    fields.push(
        (
            String::from_str("expiry"),
            match n.expiry {
                None => Json::Null,
                Some(x) => Json::UInt(x),
            },
        ),
    );
    let r = Json::Obj(fields);
    proof {
        let dv = n.deep_view();
        let rv = r@->Obj_0;
        assert(fields@.len() == 5);
        assert(rv.len() == 5);
        assert(rv[0] == (fields@[0].0@, json_view(fields@[0].1)));
        assert(fields@[0].0@ == "key"@);
        assert(json_view(fields@[0].1) == JsonV::Str(dv.key));
        assert(rv[1] == (fields@[1].0@, json_view(fields@[1].1)));
        assert(rv[1] == ("type"@, JsonV::Str(node_type_name(dv.type_))));
        assert(rv[2] == (fields@[2].0@, json_view(fields@[2].1)));
        assert(rv[2] == ("value"@, JsonV::Bool(dv.value)));
        assert(rv[3] == (fields@[3].0@, json_view(fields@[3].1)));
        assert(rv[3] == ("context"@, str_arr_json(dv.context)));
        assert(rv[4] == (fields@[4].0@, json_view(fields@[4].1)));
        assert(rv[4] == ("expiry"@, opt_u64_json(dv.expiry)));
        assert(r@->Obj_0 =~~= spec_node_json(n.deep_view())->Obj_0);
        assert(r@ =~~= spec_node_json(n.deep_view()));
    }
    r
}

/// Reads a node from a JSON value, exactly as `spec_decode_node` says.
pub fn decode_node(j: &Json) -> (r: Option<Node>)
    ensures
        match r {
            Some(n) => spec_decode_node(j@) == Some(n.deep_view()),
            None => spec_decode_node(j@) is None,
        },
{
    let fields = match j {
        Json::Obj(fields) => fields,
        _ => {
            return None;
        },
    };
    proof {
        lemma_obj_view(*fields);
    }
    let ghost fv = fields_view(fields@);
    let key = match obj_field(fields, "key") {
        Some(Json::Str(s)) => s.clone(),
        _ => {
            return None;
        },
    };
    let type_ = match obj_field(fields, "type") {
        Some(Json::Str(s)) => {
            match NodeType::from_name(s.as_str()) {
                Some(t) => t,
                None => {
                    return None;
                },
            }
        },
        _ => {
            return None;
        },
    };
    let value = match obj_field(fields, "value") {
        Some(Json::Bool(b)) => *b,
        _ => {
            return None;
        },
    };
    let items = match obj_field(fields, "context") {
        Some(Json::Arr(items)) => items,
        _ => {
            return None;
        },
    };
    let ghost iv = obj_get(fv, "context"@)->Some_0->Arr_0;
    proof {
        assert(json_view(Json::Arr(*items))->Arr_0 =~= iv);
    }
    let mut context: Vec<String> = Vec::new();
    let mut i: usize = 0;
    while i < items.len()
        invariant
            j@ == JsonV::Obj(fv),
            obj_get(fv, "context"@) == Some(JsonV::Arr(iv)),
            iv.len() == items@.len(),
            forall|k: int| 0 <= k < iv.len() ==> iv[k] == json_view(#[trigger] items@[k]),
            i <= items.len(),
            context@.len() == i,
            forall|k: int| 0 <= k < i ==> (#[trigger] iv[k]) is Str,
            forall|k: int| 0 <= k < i ==> (#[trigger] context@[k])@ == iv[k]->Str_0,
        decreases items.len() - i,
    {
        match &items[i] {
            Json::Str(s) => {
                context.push(s.clone());
            },
            _ => {
                proof {
                    assert(!(iv[i as int] is Str));
                    assert(decode_strings(iv) is None);
                }
                return None;
            },
        }
        i = i + 1;
    }
    proof {
        assert(decode_strings(iv) == Some(context.deep_view())) by {
            assert(forall|k: int| 0 <= k < iv.len() ==> (#[trigger] iv[k]) is Str);
            assert(decode_strings(iv)->Some_0 =~= context.deep_view());
        }
    }
    let expiry = match obj_field(fields, "expiry") {
        Some(Json::Null) => None,
        Some(Json::UInt(x)) => Some(*x),
        _ => {
            return None;
        },
    };
    let n = Node { key, type_, value, context, expiry };
    proof {
        assert(j@ == JsonV::Obj(fv));
        assert(spec_decode_node(j@) is Some);
        assert(spec_decode_node(j@)->Some_0 =~~= n.deep_view());
        assert(spec_decode_node(j@) == Some(n.deep_view()));
    }
    Some(n)
}

/// Decoding a node's JSON object yields the node back, unchanged.
pub proof fn lemma_node_json_round_trip(n: NodeV)
    ensures
        spec_decode_node(spec_node_json(n)) == Some(n),
{
    reveal_strlit("key");
    reveal_strlit("type");
    reveal_strlit("value");
    reveal_strlit("context");
    reveal_strlit("expiry");
    reveal_with_fuel(obj_get, 6);
    lemma_node_type_name_round_trip(n.type_);
    assert(!("type"@ =~= "key"@));
    assert(!("value"@ =~= "key"@));
    assert(!("value"@ =~= "type"@));
    assert(!("context"@ =~= "key"@));
    assert(!("context"@ =~= "type"@));
    assert(!("context"@ =~= "value"@));
    assert(!("expiry"@ =~= "key"@));
    assert(!("expiry"@ =~= "type"@));
    assert(!("expiry"@ =~= "value"@));
    assert(!("expiry"@ =~= "context"@));
    let fields = spec_node_json(n)->Obj_0;
    assert(obj_get(fields, "key"@) == Some(JsonV::Str(n.key)));
    assert(obj_get(fields, "type"@) == Some(JsonV::Str(node_type_name(n.type_))));
    assert(obj_get(fields, "value"@) == Some(JsonV::Bool(n.value)));
    assert(obj_get(fields, "context"@) == Some(str_arr_json(n.context)));
    assert(obj_get(fields, "expiry"@) == Some(opt_u64_json(n.expiry)));
    assert(decode_strings(str_arr_json(n.context)->Arr_0) == Some(n.context)) by {
        assert(decode_strings(str_arr_json(n.context)->Arr_0)->Some_0 =~= n.context);
    }
    assert(spec_decode_node(spec_node_json(n))->Some_0 =~= n);
}

/// The value of the string field `key`: `None` when the field is missing or
/// not a string.
pub open spec fn str_field(fields: Seq<(Seq<char>, JsonV)>, key: Seq<char>) -> Option<Seq<char>> {
    match obj_get(fields, key) {
        Some(JsonV::Str(s)) => Some(s),
        _ => None,
    }
}

/// The value of the boolean field `key`: `None` when missing or not a boolean.
pub open spec fn bool_field(fields: Seq<(Seq<char>, JsonV)>, key: Seq<char>) -> Option<bool> {
    match obj_get(fields, key) {
        Some(JsonV::Bool(b)) => Some(b),
        _ => None,
    }
}

/// The UUID written in the string field `key`: `None` when missing, not a
/// string, or not a canonical UUID text.
pub open spec fn uuid_field(fields: Seq<(Seq<char>, JsonV)>, key: Seq<char>) -> Option<u128> {
    match obj_get(fields, key) {
        Some(JsonV::Str(s)) => spec_parse_uuid(s),
        _ => None,
    }
}

/// The items of the array field `key`: `None` when missing or not an array.
pub open spec fn arr_field(fields: Seq<(Seq<char>, JsonV)>, key: Seq<char>) -> Option<Seq<JsonV>> {
    match obj_get(fields, key) {
        Some(JsonV::Arr(items)) => Some(items),
        _ => None,
    }
}

/// An optional string field: absent or `null` stands for `None`; a string
/// stands for itself; anything else is malformed.
pub open spec fn opt_str_field(fields: Seq<(Seq<char>, JsonV)>, key: Seq<char>) -> Option<
    Option<Seq<char>>,
> {
    match obj_get(fields, key) {
        None => Some(None),
        Some(JsonV::Null) => Some(None),
        Some(JsonV::Str(s)) => Some(Some(s)),
        _ => None,
    }
}

/// Reads the string field `key`, as `str_field` says.
fn get_str_field(fields: &Vec<(String, Json)>, key: &str) -> (r: Option<String>)
    ensures
        match r {
            Some(s) => str_field(fields_view(fields@), key@) == Some(s@),
            None => str_field(fields_view(fields@), key@) is None,
        },
{
    match obj_field(fields, key) {
        Some(Json::Str(s)) => Some(s.clone()),
        _ => None,
    }
}

/// Reads the boolean field `key`, as `bool_field` says.
fn get_bool_field(fields: &Vec<(String, Json)>, key: &str) -> (r: Option<bool>)
    ensures
        match r {
            Some(b) => bool_field(fields_view(fields@), key@) == Some(b),
            None => bool_field(fields_view(fields@), key@) is None,
        },
{
    match obj_field(fields, key) {
        Some(Json::Bool(b)) => Some(*b),
        _ => None,
    }
}

/// Reads the UUID field `key`, as `uuid_field` says.
fn get_uuid_field(fields: &Vec<(String, Json)>, key: &str) -> (r: Option<Uuid>)
    ensures
        match r {
            Some(u) => uuid_field(fields_view(fields@), key@) == Some(u.value),
            None => uuid_field(fields_view(fields@), key@) is None,
        },
{
    match obj_field(fields, key) {
        Some(Json::Str(s)) => parse_uuid(s.as_str()),
        _ => None,
    }
}

/// Reads the optional string field `key`, as `opt_str_field` says.
fn get_opt_str_field(fields: &Vec<(String, Json)>, key: &str) -> (r: Option<Option<String>>)
    ensures
        match r {
            Some(o) => opt_str_field(fields_view(fields@), key@) == Some(o.deep_view()),
            None => opt_str_field(fields_view(fields@), key@) is None,
        },
{
    match obj_field(fields, key) {
        None => Some(None),
        Some(Json::Null) => Some(None),
        Some(Json::Str(s)) => Some(Some(s.clone())),
        _ => None,
    }
}

/// The JSON object of a user identifier: UUID text and username.
pub open spec fn spec_user_identifier_json(u: UserIdentifierV) -> JsonV {
    JsonV::Obj(
        seq![
            ("uniqueId"@, JsonV::Str(uuid_text(u.unique_id))),
            ("username"@, JsonV::Str(u.username)),
        ],
    )
}

/// The JSON object of a user identifier.
pub fn user_identifier_json(u: &UserIdentifier) -> (r: Json)
    ensures
        r@ == spec_user_identifier_json(u.deep_view()),
{
    let mut fields: Vec<(String, Json)> = Vec::new();
    fields.push((String::from_str("uniqueId"), Json::Str(u.unique_id.to_string())));
    fields.push((String::from_str("username"), Json::Str(u.username.clone())));
    let r = Json::Obj(fields);
    proof {
        let rv = r@->Obj_0;
        assert(rv[0] == (fields@[0].0@, json_view(fields@[0].1)));
        assert(rv[1] == (fields@[1].0@, json_view(fields@[1].1)));
        assert(r@->Obj_0 =~~= spec_user_identifier_json(u.deep_view())->Obj_0);
        assert(r@ =~~= spec_user_identifier_json(u.deep_view()));
    }
    r
}

/// Reads a user identifier from a JSON value.
pub open spec fn spec_decode_user_identifier(j: JsonV) -> Option<UserIdentifierV> {
    match j {
        JsonV::Obj(fields) => {
            match (uuid_field(fields, "uniqueId"@), str_field(fields, "username"@)) {
                (Some(unique_id), Some(username)) => Some(
                    UserIdentifierV { unique_id, username },
                ),
                _ => None,
            }
        },
        _ => None,
    }
}

/// Reads a user identifier, exactly as `spec_decode_user_identifier` says.
pub fn decode_user_identifier(j: &Json) -> (r: Option<UserIdentifier>)
    ensures
        match r {
            Some(u) => spec_decode_user_identifier(j@) == Some(u.deep_view()),
            None => spec_decode_user_identifier(j@) is None,
        },
{
    let fields = match j {
        Json::Obj(fields) => fields,
        _ => {
            return None;
        },
    };
    proof {
        lemma_obj_view(*fields);
    }
    let unique_id = match get_uuid_field(fields, "uniqueId") {
        Some(u) => u,
        None => {
            return None;
        },
    };
    let username = match get_str_field(fields, "username") {
        Some(s) => s,
        None => {
            return None;
        },
    };
    Some(UserIdentifier { unique_id, username })
}

/// Decoding a user identifier's JSON object yields the identifier back,
/// unchanged: in particular, the UUID survives its trip through text.
pub proof fn lemma_user_identifier_json_round_trip(u: UserIdentifierV)
    ensures
        spec_decode_user_identifier(spec_user_identifier_json(u)) == Some(u),
{
    reveal_strlit("uniqueId");
    reveal_strlit("username");
    reveal_with_fuel(obj_get, 3);
    assert("username"@[1] != "uniqueId"@[1]);
    assert(!("username"@ =~= "uniqueId"@));
    lemma_uuid_text_round_trip(u.unique_id as u128);
    let fields = spec_user_identifier_json(u)->Obj_0;
    assert(obj_get(fields, "uniqueId"@) == Some(JsonV::Str(uuid_text(u.unique_id))));
    assert(obj_get(fields, "username"@) == Some(JsonV::Str(u.username)));
    assert(spec_decode_user_identifier(spec_user_identifier_json(u))->Some_0 =~= u);
}

/// A JSON object with the single string field `name` holding `value`:
/// the shape of the username-update, track-move and group-create bodies.
pub open spec fn single_str_json(name: Seq<char>, value: Seq<char>) -> JsonV {
    JsonV::Obj(seq![(name, JsonV::Str(value))])
}

/// The JSON object of a username-update request.
pub fn username_update_json(u: &UsernameUpdateRequest) -> (r: Json)
    ensures
        r@ == single_str_json("username"@, u.username@),
{
    let mut fields: Vec<(String, Json)> = Vec::new();
    fields.push((String::from_str("username"), Json::Str(u.username.clone())));
    let r = Json::Obj(fields);
    proof {
        let rv = r@->Obj_0;
        assert(rv[0] == (fields@[0].0@, json_view(fields@[0].1)));
        assert(r@->Obj_0 =~~= single_str_json("username"@, u.username@)->Obj_0);
        assert(r@ =~~= single_str_json("username"@, u.username@));
    }
    r
}

/// The JSON object of a track-move (promotion or demotion) request.
pub fn track_move_request_json(t: &TrackMoveRequest) -> (r: Json)
    ensures
        r@ == single_str_json("track"@, t.track@),
{
    let mut fields: Vec<(String, Json)> = Vec::new();
    fields.push((String::from_str("track"), Json::Str(t.track.clone())));
    let r = Json::Obj(fields);
    proof {
        let rv = r@->Obj_0;
        assert(rv[0] == (fields@[0].0@, json_view(fields@[0].1)));
        assert(r@->Obj_0 =~~= single_str_json("track"@, t.track@)->Obj_0);
        assert(r@ =~~= single_str_json("track"@, t.track@));
    }
    r
}

/// The JSON object of a group-creation request.
pub fn group_create_json(g: &GroupCreateRequest) -> (r: Json)
    ensures
        r@ == single_str_json("name"@, g.name@),
{
    let mut fields: Vec<(String, Json)> = Vec::new();
    fields.push((String::from_str("name"), Json::Str(g.name.clone())));
    let r = Json::Obj(fields);
    proof {
        let rv = r@->Obj_0;
        assert(rv[0] == (fields@[0].0@, json_view(fields@[0].1)));
        assert(r@->Obj_0 =~~= single_str_json("name"@, g.name@)->Obj_0);
        assert(r@ =~~= single_str_json("name"@, g.name@));
    }
    r
}

/// Reads a track-move response from a JSON value.
pub open spec fn spec_decode_track_move(j: JsonV) -> Option<TrackMoveResponseV> {
    match j {
        JsonV::Obj(fields) => {
            match (
                bool_field(fields, "success"@),
                str_field(fields, "status"@),
                str_field(fields, "groupFrom"@),
                str_field(fields, "groupTo"@),
            ) {
                (Some(success), Some(status), Some(group_from), Some(group_to)) => Some(
                    TrackMoveResponseV { success, status, group_from, group_to },
                ),
                _ => None,
            }
        },
        _ => None,
    }
}

/// Reads a track-move response, exactly as `spec_decode_track_move` says.
pub fn decode_track_move(j: &Json) -> (r: Option<TrackMoveResponse>)
    ensures
        match r {
            Some(t) => spec_decode_track_move(j@) == Some(t.deep_view()),
            None => spec_decode_track_move(j@) is None,
        },
{
    let fields = match j {
        Json::Obj(fields) => fields,
        _ => {
            return None;
        },
    };
    proof {
        lemma_obj_view(*fields);
    }
    let success = match get_bool_field(fields, "success") {
        Some(b) => b,
        None => {
            return None;
        },
    };
    let status = match get_str_field(fields, "status") {
        Some(s) => s,
        None => {
            return None;
        },
    };
    let group_from = match get_str_field(fields, "groupFrom") {
        Some(s) => s,
        None => {
            return None;
        },
    };
    let group_to = match get_str_field(fields, "groupTo") {
        Some(s) => s,
        None => {
            return None;
        },
    };
    Some(TrackMoveResponse { success, status, group_from, group_to })
}

/// Reads a list of strings from a JSON array value.
pub open spec fn spec_decode_string_list(j: JsonV) -> Option<Seq<Seq<char>>> {
    match j {
        JsonV::Arr(items) => decode_strings(items),
        _ => None,
    }
}

/// Reads a list of strings, exactly as `spec_decode_string_list` says.
pub fn decode_string_list(j: &Json) -> (r: Option<Vec<String>>)
    ensures
        match r {
            Some(v) => spec_decode_string_list(j@) == Some(v.deep_view()),
            None => spec_decode_string_list(j@) is None,
        },
{
    let items = match j {
        Json::Arr(items) => items,
        _ => {
            return None;
        },
    };
    let ghost iv = json_view(*j)->Arr_0;
    proof {
        assert(json_view(Json::Arr(*items))->Arr_0 =~= iv);
    }
    let mut out: Vec<String> = Vec::new();
    let mut i: usize = 0;
    while i < items.len()
        invariant
            j@ == JsonV::Arr(iv),
            iv.len() == items@.len(),
            forall|k: int| 0 <= k < iv.len() ==> iv[k] == json_view(#[trigger] items@[k]),
            i <= items.len(),
            out@.len() == i,
            forall|k: int| 0 <= k < i ==> (#[trigger] iv[k]) is Str,
            forall|k: int| 0 <= k < i ==> (#[trigger] out@[k])@ == iv[k]->Str_0,
        decreases items.len() - i,
    {
        match &items[i] {
            Json::Str(s) => {
                out.push(s.clone());
            },
            _ => {
                proof {
                    assert(!(iv[i as int] is Str));
                    assert(decode_strings(iv) is None);
                }
                return None;
            },
        }
        i = i + 1;
    }
    proof {
        assert(forall|k: int| 0 <= k < iv.len() ==> (#[trigger] iv[k]) is Str);
        assert(decode_strings(iv)->Some_0 =~= out.deep_view());
    }
    Some(out)
}

/// Reads a list of UUIDs, each the canonical text of one, from the items of
/// a JSON array: `None` when any item is not such a text.
pub open spec fn decode_uuids(items: Seq<JsonV>) -> Option<Seq<u128>> {
    if forall|i: int|
        0 <= i < items.len() ==> (#[trigger] items[i]) is Str && spec_parse_uuid(
            items[i]->Str_0,
        ) is Some {
        Some(Seq::new(items.len(), |i: int| spec_parse_uuid(items[i]->Str_0)->Some_0))
    } else {
        None
    }
}

/// Reads a list of UUIDs from a JSON array value.
pub open spec fn spec_decode_uuid_list(j: JsonV) -> Option<Seq<u128>> {
    match j {
        JsonV::Arr(items) => decode_uuids(items),
        _ => None,
    }
}

/// Reads a list of UUIDs, exactly as `spec_decode_uuid_list` says.
pub fn decode_uuid_list(j: &Json) -> (r: Option<Vec<Uuid>>)
    ensures
        match r {
            Some(v) => spec_decode_uuid_list(j@) == Some(v.deep_view()),
            None => spec_decode_uuid_list(j@) is None,
        },
{
    let items = match j {
        Json::Arr(items) => items,
        _ => {
            return None;
        },
    };
    let ghost iv = json_view(*j)->Arr_0;
    proof {
        assert(json_view(Json::Arr(*items))->Arr_0 =~= iv);
    }
    let mut out: Vec<Uuid> = Vec::new();
    let mut i: usize = 0;
    while i < items.len()
        invariant
            j@ == JsonV::Arr(iv),
            iv.len() == items@.len(),
            forall|k: int| 0 <= k < iv.len() ==> iv[k] == json_view(#[trigger] items@[k]),
            i <= items.len(),
            out@.len() == i,
            forall|k: int|
                0 <= k < i ==> (#[trigger] iv[k]) is Str && spec_parse_uuid(iv[k]->Str_0) is Some,
            forall|k: int|
                0 <= k < i ==> spec_parse_uuid((#[trigger] iv[k])->Str_0) == Some(
                    out@[k].value as u128,
                ),
        decreases items.len() - i,
    {
        match &items[i] {
            Json::Str(s) => {
                match parse_uuid(s.as_str()) {
                    Some(u) => {
                        out.push(u);
                    },
                    None => {
                        proof {
                            assert(decode_uuids(iv) is None);
                        }
                        return None;
                    },
                }
            },
            _ => {
                proof {
                    assert(!(iv[i as int] is Str));
                    assert(decode_uuids(iv) is None);
                }
                return None;
            },
        }
        i = i + 1;
    }
    proof {
        assert(forall|k: int|
            0 <= k < iv.len() ==> (#[trigger] iv[k]) is Str && spec_parse_uuid(
                iv[k]->Str_0,
            ) is Some);
        assert(decode_uuids(iv)->Some_0 =~= out.deep_view());
    }
    Some(out)
}

/// The JSON array of a sequence of nodes.
pub open spec fn spec_nodes_json(ns: Seq<NodeV>) -> JsonV {
    JsonV::Arr(Seq::new(ns.len(), |i: int| spec_node_json(ns[i])))
}

/// The JSON array of a vector of nodes.
pub fn nodes_json(ns: &Vec<Node>) -> (r: Json)
    ensures
        r@ == spec_nodes_json(ns.deep_view()),
{
    let mut items: Vec<Json> = Vec::new();
    let mut i: usize = 0;
    while i < ns.len()
        invariant
            i <= ns.len(),
            items@.len() == i,
            forall|k: int|
                0 <= k < i ==> json_view(#[trigger] items@[k]) == spec_node_json(
                    ns@[k].deep_view(),
                ),
        decreases ns.len() - i,
    {
        items.push(node_json(&ns[i]));
        i = i + 1;
    }
    let r = Json::Arr(items);
    proof {
        assert(r@->Arr_0 =~~= spec_nodes_json(ns.deep_view())->Arr_0);
        assert(r@ =~~= spec_nodes_json(ns.deep_view()));
    }
    r
}

/// Reads a sequence of nodes from the items of a JSON array: `None` when any
/// item is not a well-formed node object.
pub open spec fn decode_node_items(items: Seq<JsonV>) -> Option<Seq<NodeV>> {
    if forall|i: int| 0 <= i < items.len() ==> spec_decode_node(#[trigger] items[i]) is Some {
        Some(Seq::new(items.len(), |i: int| spec_decode_node(items[i])->Some_0))
    } else {
        None
    }
}

/// Reads a list of nodes from a JSON array value.
pub open spec fn spec_decode_node_list(j: JsonV) -> Option<Seq<NodeV>> {
    match j {
        JsonV::Arr(items) => decode_node_items(items),
        _ => None,
    }
}

/// Reads a list of nodes, exactly as `spec_decode_node_list` says.
pub fn decode_node_list(j: &Json) -> (r: Option<Vec<Node>>)
    ensures
        match r {
            Some(v) => spec_decode_node_list(j@) == Some(v.deep_view()),
            None => spec_decode_node_list(j@) is None,
        },
{
    let items = match j {
        Json::Arr(items) => items,
        _ => {
            return None;
        },
    };
    let ghost iv = json_view(*j)->Arr_0;
    proof {
        assert(json_view(Json::Arr(*items))->Arr_0 =~= iv);
    }
    let mut out: Vec<Node> = Vec::new();
    let mut i: usize = 0;
    while i < items.len()
        invariant
            j@ == JsonV::Arr(iv),
            iv.len() == items@.len(),
            forall|k: int| 0 <= k < iv.len() ==> iv[k] == json_view(#[trigger] items@[k]),
            i <= items.len(),
            out@.len() == i,
            forall|k: int| 0 <= k < i ==> spec_decode_node(#[trigger] iv[k]) is Some,
            forall|k: int|
                0 <= k < i ==> spec_decode_node(#[trigger] iv[k]) == Some(out@[k].deep_view()),
        decreases items.len() - i,
    {
        match decode_node(&items[i]) {
            Some(n) => {
                out.push(n);
            },
            None => {
                proof {
                    assert(spec_decode_node(iv[i as int]) is None);
                    assert(decode_node_items(iv) is None);
                }
                return None;
            },
        }
        i = i + 1;
    }
    proof {
        assert(forall|k: int|
            0 <= k < iv.len() ==> spec_decode_node(#[trigger] iv[k]) is Some);
        assert(decode_node_items(iv)->Some_0 =~= out.deep_view());
    }
    Some(out)
}

/// Reads a full user record from a JSON value: UUID, username, parent groups
/// (an absent field stands for none) and nodes.
pub open spec fn spec_decode_user(j: JsonV) -> Option<UserV> {
    match j {
        JsonV::Obj(fields) => {
            let pg = match obj_get(fields, "parentGroups"@) {
                None => Some(Seq::<Seq<char>>::empty()),
                Some(JsonV::Arr(items)) => decode_strings(items),
                Some(_) => None,
            };
            match (
                uuid_field(fields, "uniqueId"@),
                str_field(fields, "username"@),
                pg,
                arr_field(fields, "nodes"@),
            ) {
                (Some(unique_id), Some(username), Some(parent_groups), Some(nitems)) => {
                    match decode_node_items(nitems) {
                        Some(nodes) => Some(UserV { unique_id, username, parent_groups, nodes }),
                        None => None,
                    }
                },
                _ => None,
            }
        },
        _ => None,
    }
}

/// Reads a user record, exactly as `spec_decode_user` says.
pub fn decode_user(j: &Json) -> (r: Option<User>)
    ensures
        match r {
            Some(u) => spec_decode_user(j@) == Some(u.deep_view()),
            None => spec_decode_user(j@) is None,
        },
{
    let fields = match j {
        Json::Obj(fields) => fields,
        _ => {
            return None;
        },
    };
    proof {
        lemma_obj_view(*fields);
    }
    let unique_id = match get_uuid_field(fields, "uniqueId") {
        Some(u) => u,
        None => {
            return None;
        },
    };
    let username = match get_str_field(fields, "username") {
        Some(s) => s,
        None => {
            return None;
        },
    };
    let parent_groups = match obj_field(fields, "parentGroups") {
        None => Vec::new(),
        Some(pj) => {
            match pj {
                Json::Arr(_) => {
                    match decode_string_list(pj) {
                        Some(v) => v,
                        None => {
                            return None;
                        },
                    }
                },
                _ => {
                    return None;
                },
            }
        },
    };
    let nodes = match obj_field(fields, "nodes") {
        Some(nj) => {
            match decode_node_list(nj) {
                Some(v) => v,
                None => {
                    return None;
                },
            }
        },
        None => {
            return None;
        },
    };
    let u = User { unique_id, username, parent_groups, nodes };
    proof {
        assert(spec_decode_user(j@) is Some);
        assert(spec_decode_user(j@)->Some_0 =~~= u.deep_view());
        assert(spec_decode_user(j@) == Some(u.deep_view()));
    }
    Some(u)
}

/// Reads the free-form metadata pairs from the fields of a JSON object:
/// `None` when any value is not a string. Order is kept.
pub open spec fn decode_meta_pairs(fields: Seq<(Seq<char>, JsonV)>) -> Option<
    Seq<(Seq<char>, Seq<char>)>,
> {
    if forall|i: int| 0 <= i < fields.len() ==> (#[trigger] fields[i]).1 is Str {
        Some(Seq::new(fields.len(), |i: int| (fields[i].0, fields[i].1->Str_0)))
    } else {
        None
    }
}

/// Reads a metadata record from a JSON value: the `meta` object is required,
/// the prefix, suffix and primary group are optional strings.
pub open spec fn spec_decode_metadata(j: JsonV) -> Option<MetadataV> {
    match j {
        JsonV::Obj(fields) => {
            let mp = match obj_get(fields, "meta"@) {
                Some(JsonV::Obj(mf)) => decode_meta_pairs(mf),
                _ => None,
            };
            match (
                mp,
                opt_str_field(fields, "prefix"@),
                opt_str_field(fields, "suffix"@),
                opt_str_field(fields, "primaryGroup"@),
            ) {
                (Some(meta), Some(prefix), Some(suffix), Some(primary_group)) => Some(
                    MetadataV { meta, prefix, suffix, primary_group },
                ),
                _ => None,
            }
        },
        _ => None,
    }
}

/// Reads a metadata record, exactly as `spec_decode_metadata` says.
pub fn decode_metadata(j: &Json) -> (r: Option<Metadata>)
    ensures
        match r {
            Some(m) => spec_decode_metadata(j@) == Some(m.deep_view()),
            None => spec_decode_metadata(j@) is None,
        },
{
    let fields = match j {
        Json::Obj(fields) => fields,
        _ => {
            return None;
        },
    };
    proof {
        lemma_obj_view(*fields);
    }
    let ghost fv = fields_view(fields@);
    let mfields = match obj_field(fields, "meta") {
        Some(Json::Obj(mf)) => mf,
        _ => {
            return None;
        },
    };
    let ghost mv = obj_get(fv, "meta"@)->Some_0->Obj_0;
    proof {
        assert(json_view(Json::Obj(*mfields))->Obj_0 =~= mv);
    }
    let mut meta: Vec<(String, String)> = Vec::new();
    let mut i: usize = 0;
    while i < mfields.len()
        invariant
            j@ == JsonV::Obj(fv),
            obj_get(fv, "meta"@) == Some(JsonV::Obj(mv)),
            mv.len() == mfields@.len(),
            forall|k: int|
                0 <= k < mv.len() ==> mv[k] == (mfields@[k].0@, json_view(
                    #[trigger] mfields@[k].1,
                )),
            i <= mfields.len(),
            meta@.len() == i,
            forall|k: int| 0 <= k < i ==> (#[trigger] mv[k]).1 is Str,
            forall|k: int|
                0 <= k < i ==> (#[trigger] meta@[k].0)@ == mv[k].0 && meta@[k].1@ == mv[
                    k
                ].1->Str_0,
        decreases mfields.len() - i,
    {
        match &mfields[i].1 {
            Json::Str(s) => {
                meta.push((mfields[i].0.clone(), s.clone()));
            },
            _ => {
                proof {
                    assert(!(mv[i as int].1 is Str));
                    assert(decode_meta_pairs(mv) is None);
                }
                return None;
            },
        }
        i = i + 1;
    }
    proof {
        assert(forall|k: int| 0 <= k < mv.len() ==> (#[trigger] mv[k]).1 is Str);
        assert(decode_meta_pairs(mv)->Some_0 =~~= meta.deep_view());
    }
    let prefix = match get_opt_str_field(fields, "prefix") {
        Some(o) => o,
        None => {
            return None;
        },
    };
    let suffix = match get_opt_str_field(fields, "suffix") {
        Some(o) => o,
        None => {
            return None;
        },
    };
    let primary_group = match get_opt_str_field(fields, "primaryGroup") {
        Some(o) => o,
        None => {
            return None;
        },
    };
    let m = Metadata { meta, prefix, suffix, primary_group };
    proof {
        assert(spec_decode_metadata(j@) is Some);
        assert(spec_decode_metadata(j@)->Some_0 =~~= m.deep_view());
        assert(spec_decode_metadata(j@) == Some(m.deep_view()));
    }
    Some(m)
}

/// Reads an optional signed weight: absent or `null` stands for `None`, an
/// integer within the signed 64-bit range for itself.
pub open spec fn decode_weight(fields: Seq<(Seq<char>, JsonV)>) -> Option<Option<i64>> {
    match obj_get(fields, "weight"@) {
        None => Some(None),
        Some(JsonV::Null) => Some(None),
        Some(JsonV::UInt(x)) => if x <= 0x7fffffffffffffff {
            Some(Some(x as i64))
        } else {
            None
        },
        Some(JsonV::NInt(m)) => if 1 <= m && m <= 0x8000000000000000 {
            Some(Some((-(m as int)) as i64))
        } else {
            None
        },
        _ => None,
    }
}

/// Reads a group record from a JSON value.
pub open spec fn spec_decode_group(j: JsonV) -> Option<GroupV> {
    match j {
        JsonV::Obj(fields) => {
            let md = match obj_get(fields, "metadata"@) {
                Some(mj) => spec_decode_metadata(mj),
                None => None,
            };
            match (
                str_field(fields, "name"@),
                opt_str_field(fields, "displayName"@),
                decode_weight(fields),
                arr_field(fields, "nodes"@),
                md,
            ) {
                (Some(name), Some(display_name), Some(weight), Some(nitems), Some(metadata)) => {
                    match decode_node_items(nitems) {
                        Some(nodes) => Some(
                            GroupV { name, display_name, weight, nodes, metadata },
                        ),
                        None => None,
                    }
                },
                _ => None,
            }
        },
        _ => None,
    }
}

/// Reads a group record, exactly as `spec_decode_group` says.
pub fn decode_group(j: &Json) -> (r: Option<Group>)
    ensures
        match r {
            Some(g) => spec_decode_group(j@) == Some(g.deep_view()),
            None => spec_decode_group(j@) is None,
        },
{
    let fields = match j {
        Json::Obj(fields) => fields,
        _ => {
            return None;
        },
    };
    proof {
        lemma_obj_view(*fields);
    }
    let name = match get_str_field(fields, "name") {
        Some(s) => s,
        None => {
            return None;
        },
    };
    let display_name = match get_opt_str_field(fields, "displayName") {
        Some(o) => o,
        None => {
            return None;
        },
    };
    let weight = match obj_field(fields, "weight") {
        None => None,
        Some(Json::Null) => None,
        Some(Json::UInt(x)) => {
            if *x <= 0x7fffffffffffffff {
                Some(*x as i64)
            } else {
                return None;
            }
        },
        Some(Json::NInt(m)) => {
            if 1 <= *m && *m <= 0x8000000000000000 {
                if *m == 0x8000000000000000 {
                    Some(i64::MIN)
                } else {
                    Some(-((*m) as i64))
                }
            } else {
                return None;
            }
        },
        Some(_) => {
            return None;
        },
    };
    let nodes = match obj_field(fields, "nodes") {
        Some(nj) => {
            match decode_node_list(nj) {
                Some(v) => v,
                None => {
                    return None;
                },
            }
        },
        None => {
            return None;
        },
    };
    let metadata = match obj_field(fields, "metadata") {
        Some(mj) => {
            match decode_metadata(mj) {
                Some(m) => m,
                None => {
                    return None;
                },
            }
        },
        None => {
            return None;
        },
    };
    let g = Group { name, display_name, weight, nodes, metadata };
    proof {
        assert(spec_decode_group(j@) is Some);
        assert(spec_decode_group(j@)->Some_0 =~~= g.deep_view());
        assert(spec_decode_group(j@) == Some(g.deep_view()));
    }
    Some(g)
}

/// Reads a permission-check result from a JSON value: the boolean outcome,
/// and the deciding node when one is given (absent or `null` stands for none).
pub open spec fn spec_decode_permission_check(j: JsonV) -> Option<PermissionCheckResultV> {
    match j {
        JsonV::Obj(fields) => {
            let nd = match obj_get(fields, "node"@) {
                None => Some(None),
                Some(JsonV::Null) => Some(None),
                Some(nj) => match spec_decode_node(nj) {
                    Some(n) => Some(Some(n)),
                    None => None,
                },
            };
            match (bool_field(fields, "result"@), nd) {
                (Some(result), Some(node)) => Some(PermissionCheckResultV { result, node }),
                _ => None,
            }
        },
        _ => None,
    }
}

/// Reads a permission-check result, exactly as `spec_decode_permission_check`
/// says.
pub fn decode_permission_check(j: &Json) -> (r: Option<PermissionCheckResult>)
    ensures
        match r {
            Some(p) => spec_decode_permission_check(j@) == Some(p.deep_view()),
            None => spec_decode_permission_check(j@) is None,
        },
{
    let fields = match j {
        Json::Obj(fields) => fields,
        _ => {
            return None;
        },
    };
    proof {
        lemma_obj_view(*fields);
    }
    let result = match get_bool_field(fields, "result") {
        Some(b) => b,
        None => {
            return None;
        },
    };
    let node = match obj_field(fields, "node") {
        None => None,
        Some(Json::Null) => None,
        Some(nj) => {
            match decode_node(nj) {
                Some(n) => Some(n),
                None => {
                    return None;
                },
            }
        },
    };
    let p = PermissionCheckResult { result, node };
    proof {
        assert(spec_decode_permission_check(j@) is Some);
        assert(spec_decode_permission_check(j@)->Some_0 =~~= p.deep_view());
        assert(spec_decode_permission_check(j@) == Some(p.deep_view()));
    }
    Some(p)
}

/// Reads one user search match from a JSON value: a UUID and the nodes that
/// matched.
pub open spec fn spec_decode_user_search(j: JsonV) -> Option<UserSearchResultV> {
    match j {
        JsonV::Obj(fields) => {
            match (uuid_field(fields, "uniqueId"@), arr_field(fields, "results"@)) {
                (Some(unique_id), Some(items)) => {
                    match decode_node_items(items) {
                        Some(results) => Some(UserSearchResultV { unique_id, results }),
                        None => None,
                    }
                },
                _ => None,
            }
        },
        _ => None,
    }
}

/// Reads the items of a user search response.
pub open spec fn decode_user_search_items(items: Seq<JsonV>) -> Option<Seq<UserSearchResultV>> {
    if forall|i: int|
        0 <= i < items.len() ==> spec_decode_user_search(#[trigger] items[i]) is Some {
        Some(Seq::new(items.len(), |i: int| spec_decode_user_search(items[i])->Some_0))
    } else {
        None
    }
}

/// Reads a user search response from a JSON array value.
pub open spec fn spec_decode_user_search_list(j: JsonV) -> Option<Seq<UserSearchResultV>> {
    match j {
        JsonV::Arr(items) => decode_user_search_items(items),
        _ => None,
    }
}

/// Reads one user search match, exactly as `spec_decode_user_search` says.
pub fn decode_user_search(j: &Json) -> (r: Option<UserSearchResult>)
    ensures
        match r {
            Some(u) => spec_decode_user_search(j@) == Some(u.deep_view()),
            None => spec_decode_user_search(j@) is None,
        },
{
    let fields = match j {
        Json::Obj(fields) => fields,
        _ => {
            return None;
        },
    };
    proof {
        lemma_obj_view(*fields);
    }
    let unique_id = match get_uuid_field(fields, "uniqueId") {
        Some(u) => u,
        None => {
            return None;
        },
    };
    let results = match obj_field(fields, "results") {
        Some(nj) => {
            match decode_node_list(nj) {
                Some(v) => v,
                None => {
                    return None;
                },
            }
        },
        None => {
            return None;
        },
    };
    let u = UserSearchResult { unique_id, results };
    proof {
        assert(spec_decode_user_search(j@) is Some);
        assert(spec_decode_user_search(j@)->Some_0 =~~= u.deep_view());
        assert(spec_decode_user_search(j@) == Some(u.deep_view()));
    }
    Some(u)
}

/// Reads a user search response, exactly as `spec_decode_user_search_list`
/// says.
pub fn decode_user_search_list(j: &Json) -> (r: Option<Vec<UserSearchResult>>)
    ensures
        match r {
            Some(v) => spec_decode_user_search_list(j@) == Some(v.deep_view()),
            None => spec_decode_user_search_list(j@) is None,
        },
{
    let items = match j {
        Json::Arr(items) => items,
        _ => {
            return None;
        },
    };
    let ghost iv = json_view(*j)->Arr_0;
    proof {
        assert(json_view(Json::Arr(*items))->Arr_0 =~= iv);
    }
    let mut out: Vec<UserSearchResult> = Vec::new();
    let mut i: usize = 0;
    while i < items.len()
        invariant
            j@ == JsonV::Arr(iv),
            iv.len() == items@.len(),
            forall|k: int| 0 <= k < iv.len() ==> iv[k] == json_view(#[trigger] items@[k]),
            i <= items.len(),
            out@.len() == i,
            forall|k: int| 0 <= k < i ==> spec_decode_user_search(#[trigger] iv[k]) is Some,
            forall|k: int|
                0 <= k < i ==> spec_decode_user_search(#[trigger] iv[k]) == Some(
                    out@[k].deep_view(),
                ),
        decreases items.len() - i,
    {
        match decode_user_search(&items[i]) {
            Some(u) => {
                out.push(u);
            },
            None => {
                proof {
                    assert(spec_decode_user_search(iv[i as int]) is None);
                    assert(decode_user_search_items(iv) is None);
                }
                return None;
            },
        }
        i = i + 1;
    }
    proof {
        assert(forall|k: int|
            0 <= k < iv.len() ==> spec_decode_user_search(#[trigger] iv[k]) is Some);
        assert(decode_user_search_items(iv)->Some_0 =~= out.deep_view());
    }
    Some(out)
}

/// Reads one group search match from a JSON value: a group name and the
/// nodes that matched.
pub open spec fn spec_decode_group_search(j: JsonV) -> Option<GroupSearchResultV> {
    match j {
        JsonV::Obj(fields) => {
            match (str_field(fields, "name"@), arr_field(fields, "results"@)) {
                (Some(name), Some(items)) => {
                    match decode_node_items(items) {
                        Some(results) => Some(GroupSearchResultV { name, results }),
                        None => None,
                    }
                },
                _ => None,
            }
        },
        _ => None,
    }
}

/// Reads the items of a group search response.
pub open spec fn decode_group_search_items(items: Seq<JsonV>) -> Option<Seq<GroupSearchResultV>> {
    if forall|i: int|
        0 <= i < items.len() ==> spec_decode_group_search(#[trigger] items[i]) is Some {
        Some(Seq::new(items.len(), |i: int| spec_decode_group_search(items[i])->Some_0))
    } else {
        None
    }
}

/// Reads a group search response from a JSON array value.
pub open spec fn spec_decode_group_search_list(j: JsonV) -> Option<Seq<GroupSearchResultV>> {
    match j {
        JsonV::Arr(items) => decode_group_search_items(items),
        _ => None,
    }
}

/// Reads one group search match, exactly as `spec_decode_group_search` says.
pub fn decode_group_search(j: &Json) -> (r: Option<GroupSearchResult>)
    ensures
        match r {
            Some(g) => spec_decode_group_search(j@) == Some(g.deep_view()),
            None => spec_decode_group_search(j@) is None,
        },
{
    let fields = match j {
        Json::Obj(fields) => fields,
        _ => {
            return None;
        },
    };
    proof {
        lemma_obj_view(*fields);
    }
    let name = match get_str_field(fields, "name") {
        Some(s) => s,
        None => {
            return None;
        },
    };
    let results = match obj_field(fields, "results") {
        Some(nj) => {
            match decode_node_list(nj) {
                Some(v) => v,
                None => {
                    return None;
                },
            }
        },
        None => {
            return None;
        },
    };
    let g = GroupSearchResult { name, results };
    proof {
        assert(spec_decode_group_search(j@) is Some);
        assert(spec_decode_group_search(j@)->Some_0 =~~= g.deep_view());
        assert(spec_decode_group_search(j@) == Some(g.deep_view()));
    }
    Some(g)
}

/// Reads a group search response, exactly as `spec_decode_group_search_list`
/// says.
pub fn decode_group_search_list(j: &Json) -> (r: Option<Vec<GroupSearchResult>>)
    ensures
        match r {
            Some(v) => spec_decode_group_search_list(j@) == Some(v.deep_view()),
            None => spec_decode_group_search_list(j@) is None,
        },
{
    let items = match j {
        Json::Arr(items) => items,
        _ => {
            return None;
        },
    };
    let ghost iv = json_view(*j)->Arr_0;
    proof {
        assert(json_view(Json::Arr(*items))->Arr_0 =~= iv);
    }
    let mut out: Vec<GroupSearchResult> = Vec::new();
    let mut i: usize = 0;
    while i < items.len()
        invariant
            j@ == JsonV::Arr(iv),
            iv.len() == items@.len(),
            forall|k: int| 0 <= k < iv.len() ==> iv[k] == json_view(#[trigger] items@[k]),
            i <= items.len(),
            out@.len() == i,
            forall|k: int| 0 <= k < i ==> spec_decode_group_search(#[trigger] iv[k]) is Some,
            forall|k: int|
                0 <= k < i ==> spec_decode_group_search(#[trigger] iv[k]) == Some(
                    out@[k].deep_view(),
                ),
        decreases items.len() - i,
    {
        match decode_group_search(&items[i]) {
            Some(g) => {
                out.push(g);
            },
            None => {
                proof {
                    assert(spec_decode_group_search(iv[i as int]) is None);
                    assert(decode_group_search_items(iv) is None);
                }
                return None;
            },
        }
        i = i + 1;
    }
    proof {
        assert(forall|k: int|
            0 <= k < iv.len() ==> spec_decode_group_search(#[trigger] iv[k]) is Some);
        assert(decode_group_search_items(iv)->Some_0 =~= out.deep_view());
    }
    Some(out)
}

/// Reads a list of metadata records from a JSON array value.
pub open spec fn decode_metadata_items(items: Seq<JsonV>) -> Option<Seq<MetadataV>> {
    if forall|i: int|
        0 <= i < items.len() ==> spec_decode_metadata(#[trigger] items[i]) is Some {
        Some(Seq::new(items.len(), |i: int| spec_decode_metadata(items[i])->Some_0))
    } else {
        None
    }
}

/// Reads a metadata-list response from a JSON array value.
pub open spec fn spec_decode_metadata_list(j: JsonV) -> Option<Seq<MetadataV>> {
    match j {
        JsonV::Arr(items) => decode_metadata_items(items),
        _ => None,
    }
}

/// Reads a metadata list, exactly as `spec_decode_metadata_list` says.
pub fn decode_metadata_list(j: &Json) -> (r: Option<Vec<Metadata>>)
    ensures
        match r {
            Some(v) => spec_decode_metadata_list(j@) == Some(v.deep_view()),
            None => spec_decode_metadata_list(j@) is None,
        },
{
    let items = match j {
        Json::Arr(items) => items,
        _ => {
            return None;
        },
    };
    let ghost iv = json_view(*j)->Arr_0;
    proof {
        assert(json_view(Json::Arr(*items))->Arr_0 =~= iv);
    }
    let mut out: Vec<Metadata> = Vec::new();
    let mut i: usize = 0;
    while i < items.len()
        invariant
            j@ == JsonV::Arr(iv),
            iv.len() == items@.len(),
            forall|k: int| 0 <= k < iv.len() ==> iv[k] == json_view(#[trigger] items@[k]),
            i <= items.len(),
            out@.len() == i,
            forall|k: int| 0 <= k < i ==> spec_decode_metadata(#[trigger] iv[k]) is Some,
            forall|k: int|
                0 <= k < i ==> spec_decode_metadata(#[trigger] iv[k]) == Some(
                    out@[k].deep_view(),
                ),
        decreases items.len() - i,
    {
        match decode_metadata(&items[i]) {
            Some(m) => {
                out.push(m);
            },
            None => {
                proof {
                    assert(spec_decode_metadata(iv[i as int]) is None);
                    assert(decode_metadata_items(iv) is None);
                }
                return None;
            },
        }
        i = i + 1;
    }
    proof {
        assert(forall|k: int|
            0 <= k < iv.len() ==> spec_decode_metadata(#[trigger] iv[k]) is Some);
        assert(decode_metadata_items(iv)->Some_0 =~= out.deep_view());
    }
    Some(out)
}

/// The JSON object of an action source.
pub open spec fn spec_action_source_json(s: ActionSourceV) -> JsonV {
    JsonV::Obj(
        seq![("uniqueId"@, JsonV::Str(uuid_text(s.unique_id))), ("name"@, JsonV::Str(s.name))],
    )
}

/// The JSON object of an action target: the UUID is omitted when absent.
pub open spec fn spec_action_target_json(t: ActionTargetV) -> JsonV {
    JsonV::Obj(
        (match t.unique_id {
            None => Seq::empty(),
            Some(u) => seq![("uniqueId"@, JsonV::Str(uuid_text(u)))],
        }) + seq![
            ("name"@, JsonV::Str(t.name)),
            ("type"@, JsonV::Str(action_target_type_name(t.target_type))),
        ],
    )
}

/// The JSON object of an audit-log action: the timestamp is omitted when
/// absent.
pub open spec fn spec_action_json(a: ActionV) -> JsonV {
    JsonV::Obj(
        (match a.timestamp {
            None => Seq::empty(),
            Some(ts) => seq![("timestamp"@, JsonV::UInt(ts))],
        }) + seq![
            ("source"@, spec_action_source_json(a.source)),
            ("target"@, spec_action_target_json(a.target)),
            ("description"@, JsonV::Str(a.description)),
        ],
    )
}

/// The JSON object of an action source.
pub fn action_source_json(s: &ActionSource) -> (r: Json)
    ensures
        r@ == spec_action_source_json(s.deep_view()),
{
    let mut fields: Vec<(String, Json)> = Vec::new();
    fields.push((String::from_str("uniqueId"), Json::Str(s.unique_id.to_string())));
    fields.push((String::from_str("name"), Json::Str(s.name.clone())));
    let r = Json::Obj(fields);
    proof {
        let rv = r@->Obj_0;
        assert(rv[0] == (fields@[0].0@, json_view(fields@[0].1)));
        assert(rv[1] == (fields@[1].0@, json_view(fields@[1].1)));
        assert(r@->Obj_0 =~~= spec_action_source_json(s.deep_view())->Obj_0);
        assert(r@ =~~= spec_action_source_json(s.deep_view()));
    }
    r
}

/// The JSON object of an action target.
pub fn action_target_json(t: &ActionTarget) -> (r: Json)
    ensures
        r@ == spec_action_target_json(t.deep_view()),
{
    let mut fields: Vec<(String, Json)> = Vec::new();
    if let Some(u) = &t.unique_id {
        fields.push((String::from_str("uniqueId"), Json::Str(u.to_string())));
    }
    fields.push((String::from_str("name"), Json::Str(t.name.clone())));
    fields.push(
        (
            String::from_str("type"),
            Json::Str(
                match t.target_type {
                    crate::models::ActionTargetType::User => String::from_str("user"),
                    crate::models::ActionTargetType::Group => String::from_str("group"),
                    crate::models::ActionTargetType::Track => String::from_str("track"),
                },
            ),
        ),
    );
    let r = Json::Obj(fields);
    proof {
        let rv = r@->Obj_0;
        assert(forall|k: int|
            0 <= k < fields@.len() ==> rv[k] == (#[trigger] fields@[k].0@, json_view(
                fields@[k].1,
            )));
        assert(r@->Obj_0 =~~= spec_action_target_json(t.deep_view())->Obj_0);
        assert(r@ =~~= spec_action_target_json(t.deep_view()));
    }
    r
}

/// The JSON object of an audit-log action.
pub fn action_json(a: &Action) -> (r: Json)
    ensures
        r@ == spec_action_json(a.deep_view()),
{
    let mut fields: Vec<(String, Json)> = Vec::new();
    if let Some(ts) = a.timestamp {
        fields.push((String::from_str("timestamp"), Json::UInt(ts)));
    }
    fields.push((String::from_str("source"), action_source_json(&a.source)));
    fields.push((String::from_str("target"), action_target_json(&a.target)));
    fields.push((String::from_str("description"), Json::Str(a.description.clone())));
    let r = Json::Obj(fields);
    proof {
        let rv = r@->Obj_0;
        assert(forall|k: int|
            0 <= k < fields@.len() ==> rv[k] == (#[trigger] fields@[k].0@, json_view(
                fields@[k].1,
            )));
        assert(r@->Obj_0 =~~= spec_action_json(a.deep_view())->Obj_0);
        assert(r@ =~~= spec_action_json(a.deep_view()));
    }
    r
}

/// The JSON object of one query context.
pub open spec fn spec_context_json(c: ContextV) -> JsonV {
    JsonV::Obj(seq![("key"@, JsonV::Str(c.key)), ("value"@, JsonV::Str(c.value))])
}

/// The JSON object of query options: `mode` is omitted when absent, and the
/// `flags` and `contexts` keys are omitted entirely when their lists are
/// empty, so that an all-default request carries an empty object.
pub open spec fn spec_query_options_json(q: QueryOptionsV) -> JsonV {
    JsonV::Obj(
        (match q.mode {
            None => Seq::empty(),
            Some(m) => seq![("mode"@, JsonV::Str(query_mode_name(m)))],
        }) + (if q.flags.len() == 0 {
            Seq::empty()
        } else {
            seq![
                ("flags"@, JsonV::Arr(Seq::new(q.flags.len(), |i: int| JsonV::Str(query_flag_name(q.flags[i]))))),
            ]
        }) + (if q.contexts.len() == 0 {
            Seq::empty()
        } else {
            seq![
                ("contexts"@, JsonV::Arr(Seq::new(q.contexts.len(), |i: int| spec_context_json(q.contexts[i])))),
            ]
        }),
    )
}

/// The JSON object of a permission check with query options.
pub open spec fn spec_permission_check_request_json(p: PermissionCheckRequestV) -> JsonV {
    JsonV::Obj(
        seq![
            ("permission"@, JsonV::Str(p.permission)),
            ("queryOptions"@, spec_query_options_json(p.query_options)),
        ],
    )
}

/// The JSON object of query options.
pub fn query_options_json(q: &QueryOptions) -> (r: Json)
    ensures
        r@ == spec_query_options_json(q.deep_view()),
{
    let mut fields: Vec<(String, Json)> = Vec::new();
    if let Some(m) = &q.mode {
        fields.push((String::from_str("mode"), Json::Str(m.to_string())));
    }
    if q.flags.len() > 0 {
        let mut items: Vec<Json> = Vec::new();
        let mut i: usize = 0;
        while i < q.flags.len()
            invariant
                i <= q.flags@.len(),
                items@.len() == i,
                forall|k: int|
                    0 <= k < i ==> json_view(#[trigger] items@[k]) == JsonV::Str(
                        query_flag_name(q.flags@[k]),
                    ),
            decreases q.flags@.len() - i,
        {
            items.push(Json::Str(q.flags[i].to_string()));
            i = i + 1;
        }
        let fj = Json::Arr(items);
        proof {
            assert(fj@->Arr_0 =~~= Seq::new(
                q.deep_view().flags.len(),
                |i: int| JsonV::Str(query_flag_name(q.deep_view().flags[i])),
            ));
            assert(fj@ =~~= JsonV::Arr(
                Seq::new(
                    q.deep_view().flags.len(),
                    |i: int| JsonV::Str(query_flag_name(q.deep_view().flags[i])),
                ),
            ));
        }
        fields.push((String::from_str("flags"), fj));
    }
    if q.contexts.len() > 0 {
        let mut items: Vec<Json> = Vec::new();
        let mut i: usize = 0;
        while i < q.contexts.len()
            invariant
                i <= q.contexts@.len(),
                items@.len() == i,
                forall|k: int|
                    0 <= k < i ==> json_view(#[trigger] items@[k]) == spec_context_json(
                        q.contexts@[k].deep_view(),
                    ),
            decreases q.contexts@.len() - i,
        {
            let c = &q.contexts[i];
            let mut cf: Vec<(String, Json)> = Vec::new();
            cf.push((String::from_str("key"), Json::Str(c.key.clone())));
            cf.push((String::from_str("value"), Json::Str(c.value.clone())));
            let cj = Json::Obj(cf);
            proof {
                let cv = cj@->Obj_0;
                assert(cv[0] == (cf@[0].0@, json_view(cf@[0].1)));
                assert(cv[1] == (cf@[1].0@, json_view(cf@[1].1)));
                assert(cj@->Obj_0 =~~= spec_context_json(c.deep_view())->Obj_0);
                assert(cj@ =~~= spec_context_json(c.deep_view()));
            }
            items.push(cj);
            i = i + 1;
        }
        let fj = Json::Arr(items);
        proof {
            assert(fj@->Arr_0 =~~= Seq::new(
                q.deep_view().contexts.len(),
                |i: int| spec_context_json(q.deep_view().contexts[i]),
            ));
            assert(fj@ =~~= JsonV::Arr(
                Seq::new(
                    q.deep_view().contexts.len(),
                    |i: int| spec_context_json(q.deep_view().contexts[i]),
                ),
            ));
        }
        fields.push((String::from_str("contexts"), fj));
    }
    let r = Json::Obj(fields);
    proof {
        let rv = r@->Obj_0;
        assert(rv.len() == fields@.len());
        assert(forall|k: int|
            0 <= k < fields@.len() ==> rv[k] == (#[trigger] fields@[k].0@, json_view(
                fields@[k].1,
            )));
        assert(r@->Obj_0 =~~= spec_query_options_json(q.deep_view())->Obj_0);
        assert(r@ =~~= spec_query_options_json(q.deep_view()));
    }
    r
}

/// The JSON object of a permission check with query options.
pub fn permission_check_request_json(p: &PermissionCheckRequest) -> (r: Json)
    ensures
        r@ == spec_permission_check_request_json(p.deep_view()),
{
    let mut fields: Vec<(String, Json)> = Vec::new();
    fields.push((String::from_str("permission"), Json::Str(p.permission.clone())));
    fields.push((String::from_str("queryOptions"), query_options_json(&p.query_options)));
    let r = Json::Obj(fields);
    proof {
        let rv = r@->Obj_0;
        assert(rv[0] == (fields@[0].0@, json_view(fields@[0].1)));
        assert(rv[1] == (fields@[1].0@, json_view(fields@[1].1)));
        assert(r@->Obj_0 =~~= spec_permission_check_request_json(p.deep_view())->Obj_0);
        assert(r@ =~~= spec_permission_check_request_json(p.deep_view()));
    }
    r
}

/// Query options with no flags and no contexts put neither a `flags` nor a
/// `contexts` key in their JSON object; without a mode the object is empty.
pub proof fn lemma_query_options_omits_empty(q: QueryOptionsV)
    requires
        q.flags.len() == 0,
        q.contexts.len() == 0,
    ensures
        obj_get(spec_query_options_json(q)->Obj_0, "flags"@) is None,
        obj_get(spec_query_options_json(q)->Obj_0, "contexts"@) is None,
        q.mode is None ==> spec_query_options_json(q)->Obj_0 =~= Seq::<
            (Seq<char>, JsonV),
        >::empty(),
{
    reveal_strlit("mode");
    reveal_strlit("flags");
    reveal_strlit("contexts");
    assert(!("mode"@ =~= "flags"@));
    assert(!("mode"@ =~= "contexts"@));
    let fs = spec_query_options_json(q)->Obj_0;
    match q.mode {
        None => {
            assert(fs =~= Seq::<(Seq<char>, JsonV)>::empty());
            assert(obj_get(fs, "flags"@) is None);
            assert(obj_get(fs, "contexts"@) is None);
        },
        Some(m) => {
            assert(fs =~= seq![("mode"@, JsonV::Str(query_mode_name(m)))]);
            assert(fs.skip(1) =~= Seq::<(Seq<char>, JsonV)>::empty());
            assert(obj_get(fs.skip(1), "flags"@) is None);
            assert(obj_get(fs, "flags"@) is None);
            assert(obj_get(fs.skip(1), "contexts"@) is None);
            assert(obj_get(fs, "contexts"@) is None);
        },
    }
}

} // verus!
