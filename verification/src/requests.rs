//! The request-only types: permission-check query options and the three-way
//! node search, with the exact query parameters the search projects to.
use vstd::prelude::*;
use crate::models::{NodeType, node_type_name};

verus! {

/// One key/value constraint narrowing where a query applies.
#[derive(Clone, Debug)]
pub struct Context {
    pub key: String,
    pub value: String,
}

/// Mathematical view of a `Context`.
#[verifier::ext_equal]
pub struct ContextV {
    pub key: Seq<char>,
    pub value: Seq<char>,
}

impl DeepView for Context {
    type V = ContextV;

    open spec fn deep_view(&self) -> ContextV {
        ContextV { key: self.key@, value: self.value@ }
    }
}

/// Whether a permission query resolves against specific contexts.
#[derive(Clone, Copy, PartialEq, Eq, Structural, Debug)]
pub enum QueryMode {
    Contextual,
    NonContextual,
}

/// The canonical wire name of a query mode.
pub open spec fn query_mode_name(m: QueryMode) -> Seq<char> {
    match m {
        QueryMode::Contextual => "contextual"@,
        QueryMode::NonContextual => "non_contextual"@,
    }
}

/// The switches controlling inheritance resolution and context inclusion.
#[derive(Clone, Copy, PartialEq, Eq, Structural, Debug)]
pub enum QueryFlag {
    ResolveInheritance,
    IncludeNodesWithoutServerContext,
    IncludeNodesWithoutWorldContext,
    ApplyInheritanceNodesWithoutServerContext,
    ApplyInheritanceNodesWithoutWorldContext,
}

/// The canonical wire name of a query flag.
pub open spec fn query_flag_name(f: QueryFlag) -> Seq<char> {
    match f {
        QueryFlag::ResolveInheritance => "resolve_inheritance"@,
        QueryFlag::IncludeNodesWithoutServerContext => "include_nodes_without_server_context"@,
        QueryFlag::IncludeNodesWithoutWorldContext => "include_nodes_without_world_context"@,
        QueryFlag::ApplyInheritanceNodesWithoutServerContext
            => "apply_inheritance_nodes_without_server_context"@,
        QueryFlag::ApplyInheritanceNodesWithoutWorldContext
            => "apply_inheritance_nodes_without_world_context"@,
    }
}

impl QueryMode {
    /// The canonical wire name of this query mode.
    pub fn to_string(&self) -> (r: String)
        ensures
            r@ == query_mode_name(*self),
    {
        match self {
            QueryMode::Contextual => String::from_str("contextual"),
            QueryMode::NonContextual => String::from_str("non_contextual"),
        }
    }
}

impl QueryFlag {
    /// The canonical wire name of this query flag.
    pub fn to_string(&self) -> (r: String)
        ensures
            r@ == query_flag_name(*self),
    {
        match self {
            QueryFlag::ResolveInheritance => String::from_str("resolve_inheritance"),
            QueryFlag::IncludeNodesWithoutServerContext => String::from_str(
                "include_nodes_without_server_context",
            ),
            QueryFlag::IncludeNodesWithoutWorldContext => String::from_str(
                "include_nodes_without_world_context",
            ),
            QueryFlag::ApplyInheritanceNodesWithoutServerContext => String::from_str(
                "apply_inheritance_nodes_without_server_context",
            ),
            QueryFlag::ApplyInheritanceNodesWithoutWorldContext => String::from_str(
                "apply_inheritance_nodes_without_world_context",
            ),
        }
    }
}

/// Options refining a permission check.
#[derive(Clone, Debug)]
pub struct QueryOptions {
    pub mode: Option<QueryMode>,
    pub flags: Vec<QueryFlag>,
    pub contexts: Vec<Context>,
}

/// Mathematical view of a `QueryOptions`.
#[verifier::ext_equal]
pub struct QueryOptionsV {
    pub mode: Option<QueryMode>,
    pub flags: Seq<QueryFlag>,
    pub contexts: Seq<ContextV>,
}

impl DeepView for QueryOptions {
    type V = QueryOptionsV;

    open spec fn deep_view(&self) -> QueryOptionsV {
        QueryOptionsV {
            mode: self.mode,
            flags: self.flags@,
            contexts: self.contexts.deep_view(),
        }
    }
}

/// The body of a permission check with query options.
#[derive(Clone, Debug)]
pub struct PermissionCheckRequest {
    pub permission: String,
    pub query_options: QueryOptions,
}

/// Mathematical view of a `PermissionCheckRequest`.
#[verifier::ext_equal]
pub struct PermissionCheckRequestV {
    pub permission: Seq<char>,
    pub query_options: QueryOptionsV,
}

impl DeepView for PermissionCheckRequest {
    type V = PermissionCheckRequestV;

    open spec fn deep_view(&self) -> PermissionCheckRequestV {
        PermissionCheckRequestV {
            permission: self.permission@,
            query_options: self.query_options.deep_view(),
        }
    }
}

/// A node search: by exact key, by key prefix, or by meta key, each with an
/// optional node-type filter. Exactly one discriminant is active.
#[derive(Clone, Debug)]
pub enum SearchRequest {
    Key { key: String, type_: Option<NodeType> },
    KeyStartsWith { key_starts_with: String, type_: Option<NodeType> },
    MetaKey { meta_key: String, type_: Option<NodeType> },
}

/// Mathematical view of a `SearchRequest`.
#[verifier::ext_equal]
pub enum SearchRequestV {
    Key { key: Seq<char>, type_: Option<NodeType> },
    KeyStartsWith { key_starts_with: Seq<char>, type_: Option<NodeType> },
    MetaKey { meta_key: Seq<char>, type_: Option<NodeType> },
}

impl DeepView for SearchRequest {
    type V = SearchRequestV;

    open spec fn deep_view(&self) -> SearchRequestV {
        match self {
            SearchRequest::Key { key, type_ } => SearchRequestV::Key {
                key: key@,
                type_: *type_,
            },
            SearchRequest::KeyStartsWith { key_starts_with, type_ } => {
                SearchRequestV::KeyStartsWith {
                    key_starts_with: key_starts_with@,
                    type_: *type_,
                }
            },
            SearchRequest::MetaKey { meta_key, type_ } => SearchRequestV::MetaKey {
                meta_key: meta_key@,
                type_: *type_,
            },
        }
    }
}

/// The trailing `type` query parameter of a search filter: nothing when no
/// filter was given.
pub open spec fn type_pairs(t: Option<NodeType>) -> Seq<(Seq<char>, Seq<char>)> {
    match t {
        None => Seq::empty(),
        Some(t) => seq![("type"@, node_type_name(t))],
    }
}

/// The query parameters of a search, in order: exactly one of `key`,
/// `keyStartsWith` or `metaKey`, then `type` when a filter was given.
pub open spec fn spec_search_pairs(s: SearchRequestV) -> Seq<(Seq<char>, Seq<char>)> {
    match s {
        SearchRequestV::Key { key, type_ } => seq![("key"@, key)] + type_pairs(type_),
        SearchRequestV::KeyStartsWith { key_starts_with, type_ } => seq![
            ("keyStartsWith"@, key_starts_with),
        ] + type_pairs(type_),
        SearchRequestV::MetaKey { meta_key, type_ } => seq![("metaKey"@, meta_key)] + type_pairs(
            type_,
        ),
    }
}

impl SearchRequest {
    /// A search by exact key, with no type filter.
    pub fn new_key(key: String) -> (r: Self)
        ensures
            r.deep_view() == (SearchRequestV::Key { key: key@, type_: None::<NodeType> }),
    {
        SearchRequest::Key { key, type_: None }
    }

    /// A search by exact key, with the given type filter.
    pub fn new_key_type(key: String, type_: Option<NodeType>) -> (r: Self)
        ensures
            r.deep_view() == (SearchRequestV::Key { key: key@, type_ }),
    {
        SearchRequest::Key { key, type_ }
    }

    /// A search by key prefix, with no type filter.
    pub fn new_key_starts_with(key_starts_with: String) -> (r: Self)
        ensures
            r.deep_view() == (SearchRequestV::KeyStartsWith {
                key_starts_with: key_starts_with@,
                type_: None::<NodeType>,
            }),
    {
        SearchRequest::KeyStartsWith { key_starts_with, type_: None }
    }

    /// A search by key prefix, with the given type filter.
    pub fn new_key_starts_with_type(key_starts_with: String, type_: Option<NodeType>) -> (r: Self)
        ensures
            r.deep_view() == (SearchRequestV::KeyStartsWith {
                key_starts_with: key_starts_with@,
                type_,
            }),
    {
        SearchRequest::KeyStartsWith { key_starts_with, type_ }
    }

    /// A search by meta key, with no type filter.
    pub fn new_meta_key(meta_key: String) -> (r: Self)
        ensures
            r.deep_view() == (SearchRequestV::MetaKey {
                meta_key: meta_key@,
                type_: None::<NodeType>,
            }),
    {
        SearchRequest::MetaKey { meta_key, type_: None }
    }

    /// A search by meta key, with the given type filter.
    pub fn new_meta_key_type(meta_key: String, type_: Option<NodeType>) -> (r: Self)
        ensures
            r.deep_view() == (SearchRequestV::MetaKey { meta_key: meta_key@, type_ }),
    {
        SearchRequest::MetaKey { meta_key, type_ }
    }

    /// The query parameters this search projects to, in order.
    pub fn query_pairs(&self) -> (r: Vec<(String, String)>)
        ensures
            r.deep_view() == spec_search_pairs(self.deep_view()),
    {
        let mut out: Vec<(String, String)> = Vec::new();
        let type_ = match self {
            SearchRequest::Key { key, type_ } => {
                out.push((String::from_str("key"), key.clone()));
                type_
            },
            SearchRequest::KeyStartsWith { key_starts_with, type_ } => {
                out.push((String::from_str("keyStartsWith"), key_starts_with.clone()));
                type_
            },
            SearchRequest::MetaKey { meta_key, type_ } => {
                out.push((String::from_str("metaKey"), meta_key.clone()));
                type_
            },
        };
        if let Some(t) = type_ {
            out.push((String::from_str("type"), t.to_string()));
        }
        proof {
            assert(out.deep_view() =~~= spec_search_pairs(self.deep_view()));
        }
        out
    }
}

/// The query parameters of every search have one of three shapes: the active
/// discriminant's parameter first, then, exactly when a type filter was
/// given, a `type` parameter carrying the filter's canonical name.
pub proof fn lemma_search_pairs_shape(s: SearchRequestV)
    ensures
        ({
            let ps = spec_search_pairs(s);
            &&& (s is Key ==> ps[0].0 == "key"@ && ps[0].1 == s->Key_key)
            &&& (s is KeyStartsWith ==> ps[0].0 == "keyStartsWith"@ && ps[0].1
                == s->KeyStartsWith_key_starts_with)
            &&& (s is MetaKey ==> ps[0].0 == "metaKey"@ && ps[0].1 == s->MetaKey_meta_key)
            &&& (search_type_filter(s) is None ==> ps.len() == 1)
            &&& (search_type_filter(s) matches Some(t) ==> ps.len() == 2 && ps[1].0 == "type"@
                && ps[1].1 == node_type_name(t))
        }),
{
}

/// The type filter of a search, whichever discriminant is active.
pub open spec fn search_type_filter(s: SearchRequestV) -> Option<NodeType> {
    match s {
        SearchRequestV::Key { type_, .. } => type_,
        SearchRequestV::KeyStartsWith { type_, .. } => type_,
        SearchRequestV::MetaKey { type_, .. } => type_,
    }
}

} // verus!
