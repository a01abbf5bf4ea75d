use luwiki_mcp::access::{AuthContext, BearerScope, UserAttribute};
use luwiki_mcp::errors::{McpError, McpErrorCode};
use luwiki_mcp::model::ResourceListItem;
use luwiki_mcp::prompts::{
    PromptArgValue, PromptArgument, PromptArgumentDef, PromptCandidate, PromptDefinition,
    PromptSourceEntry,
};
use luwiki_mcp::resources::{
    ResourceCandidate, ResourceContents, ResourceLookup, ResourcePage, ResourceSourceEntry,
};
use luwiki_mcp::server::{
    get_prompt_protocol_error, LuwikiMcpServer, ProtocolError, ProtocolErrorKind, ServerStep,
};
use luwiki_mcp::store::{StoreError, StoreErrorKind, StoreReply, StoreRequest};

const BASE: &str = "luwiki://local.luwiki";

fn is_name(s: &str) -> bool {
    !s.is_empty()
        && s.chars().count() <= 128
        && !s.chars().any(|c| c.is_whitespace() || c.is_control())
}

fn is_resource_path(s: &str) -> bool {
    match s.strip_prefix("/page/") {
        Some(rest) => {
            !rest.is_empty()
                && !rest.chars().any(|c| c.is_whitespace() || c.is_control())
                && rest.split('/').next() != Some("builtin")
        }
        None => false,
    }
}

fn is_path_shape(s: &str) -> bool {
    s.starts_with('/')
}

fn is_token_id(_s: &str) -> bool {
    false
}

fn ctx(scopes: Vec<BearerScope>, prefixes: Vec<&str>) -> AuthContext {
    AuthContext::new(
        "alice".to_string(),
        scopes,
        prefixes.into_iter().map(str::to_string).collect(),
        None,
    )
}

fn read_ctx() -> AuthContext {
    ctx(vec![BearerScope::Read], vec![])
}

fn append_only_ctx() -> AuthContext {
    ctx(vec![BearerScope::Append], vec![])
}

fn read_only_ctx() -> AuthContext {
    AuthContext::new_with_attributes(
        "alice".to_string(),
        vec![BearerScope::Read],
        vec![],
        vec![UserAttribute::ReadOnly],
        None,
        None,
    )
}

fn server() -> LuwikiMcpServer {
    LuwikiMcpServer::new(Some(true), Some(true))
}

fn serve<T>(
    answer: &dyn Fn(&StoreRequest) -> StoreReply,
    mut step: impl FnMut(&[StoreReply], Option<&StoreReply>) -> ServerStep<T>,
) -> (Result<T, ProtocolError>, Vec<StoreRequest>) {
    let mut replies: Vec<StoreReply> = Vec::new();
    let mut audit_reply: Option<StoreReply> = None;
    let mut asked: Vec<StoreRequest> = Vec::new();
    loop {
        match step(&replies, audit_reply.as_ref()) {
            ServerStep::Ask(StoreRequest::AuditUserId { .. }) => {
                audit_reply = Some(StoreReply::UserId(Ok(Some("u1".to_string()))));
            }
            ServerStep::Ask(request) => {
                replies.push(answer(&request));
                asked.push(request);
            }
            ServerStep::Done(result, _) => return (result, asked),
        }
    }
}

fn assert_protocol_error(e: &ProtocolError, kind: ProtocolErrorKind, message: &str, code: &str) {
    assert_eq!(e.kind, kind);
    assert_eq!(e.message, message);
    assert_eq!(e.data_code.as_deref(), Some(code));
}

fn assert_hides(e: &ProtocolError, secrets: &[&str]) {
    for s in secrets {
        assert!(!e.message.contains(s), "message reveals {}", s);
        assert!(!e.data_code.as_deref().unwrap_or("").contains(s), "data reveals {}", s);
    }
}

// --- prompts/get ---------------------------------------------------------

fn prompt_entry(name: &str, description: &str, system: Option<&str>, args: Vec<PromptArgumentDef>, body: &str) -> StoreReply {
    StoreReply::PromptSource(Ok(Some(PromptSourceEntry {
        revision: 1,
        prompt: Some(PromptDefinition {
            name: name.to_string(),
            description: description.to_string(),
            system: system.map(str::to_string),
            arguments: args,
        }),
        body: body.to_string(),
    })))
}

fn def(name: &str, description: &str, required: Option<bool>) -> PromptArgumentDef {
    PromptArgumentDef { name: name.to_string(), description: description.to_string(), required }
}

fn get_prompt(
    auth: &AuthContext,
    name: &str,
    arguments: Option<&Vec<PromptArgument>>,
    answer: &dyn Fn(&StoreRequest) -> StoreReply,
) -> Result<luwiki_mcp::model::GetPromptServiceResult, ProtocolError> {
    let s = server();
    serve(answer, |replies, audit| {
        s.get_prompt_for_auth_at(true, auth, name, arguments, &is_name, &is_name, replies, audit)
    })
    .0
}

#[test]
fn mcp_server_get_prompt_resolves_latest_source_by_name() {
    let auth = ctx(vec![BearerScope::Read], vec!["/allowed"]);
    let body = "\n# Heading\n\n{{macro}}\n---\n";
    let answer = |r: &StoreRequest| match r {
        StoreRequest::PromptSource { name } if name == "get-prompt" => {
            prompt_entry("get-prompt", "prompt description", None, vec![], body)
        }
        other => panic!("unexpected request {:?}", other),
    };
    let result = get_prompt(&auth, "get-prompt", None, &answer).expect("get prompt failed");
    assert_eq!(result.description, "prompt description");
    assert_eq!(result.message, body);
}

#[test]
fn mcp_server_get_prompt_maps_body_without_system() {
    let body = "\n  Body {{macro}}  \n\n";
    let answer = |_: &StoreRequest| prompt_entry("no-system", "body description", None, vec![], body);
    let result = get_prompt(&read_ctx(), "no-system", None, &answer).expect("get prompt failed");
    assert_eq!(result.description, "body description");
    assert_eq!(result.message, "\n  Body {{macro}}  \n\n");
}

#[test]
fn mcp_server_get_prompt_returns_expanded_user_message() {
    let answer = |_: &StoreRequest| {
        prompt_entry(
            "argument-prompt",
            "argument description",
            Some("System {{@target}}\n"),
            vec![def("target", "target value", Some(true)), def("optional", "optional value", None)],
            "\nBody {{@target}} {{@optional}} {{@@literal}}",
        )
    };
    let arguments = vec![PromptArgument {
        name: "target".to_string(),
        value: PromptArgValue::Text("{{@optional}}".to_string()),
    }];
    let result = get_prompt(&read_ctx(), "argument-prompt", Some(&arguments), &answer)
        .expect("get argument prompt failed");
    assert_eq!(result.description, "argument description");
    assert_eq!(
        result.message,
        "System {{@optional}}\n\n\n\nBody {{@optional}}  {{@literal}}"
    );
}

#[test]
fn mcp_server_get_prompt_maps_argument_errors() {
    for message in [
        "required prompt argument is missing: target",
        "unknown prompt argument: unknown",
        "prompt argument must be a string: target",
    ] {
        let error = get_prompt_protocol_error(McpError::new(McpErrorCode::InvalidInput, message.to_string()));
        assert_protocol_error(&error, ProtocolErrorKind::InvalidParams, message, "invalid_input");
        assert_hides(&error, &["secret-argument-value"]);
    }
}

#[test]
fn mcp_server_get_prompt_requires_read_scope() {
    let answer = |_: &StoreRequest| prompt_entry("scope-prompt", "scope-prompt description", None, vec![], "本文");
    let error = get_prompt(&append_only_ctx(), "scope-prompt", None, &answer)
        .expect_err("append-only must be rejected");
    assert_protocol_error(&error, ProtocolErrorKind::InvalidRequest, "operation is not allowed", "forbidden");
    assert!(get_prompt(&read_ctx(), "scope-prompt", None, &answer).is_ok());
    assert!(get_prompt(&read_only_ctx(), "scope-prompt", None, &answer).is_ok());
}

#[test]
fn mcp_server_get_prompt_maps_state_and_consistency_errors() {
    let deleted = |_: &StoreRequest| StoreReply::PromptSource(Ok(None));
    let not_found = get_prompt(&read_ctx(), "state-prompt", None, &deleted)
        .expect_err("deleted prompt must not be returned");
    assert_protocol_error(&not_found, ProtocolErrorKind::InvalidParams, "prompt not found", "not_found");

    let renamed = |_: &StoreRequest| prompt_entry("changed-name", "changed", None, vec![], "secret-body");
    let internal = get_prompt(&read_ctx(), "state-prompt", None, &renamed).expect_err("name mismatch must fail");
    assert_protocol_error(&internal, ProtocolErrorKind::InternalError, "internal error", "internal_error");
    assert_hides(&internal, &["/secret/prompt-path", "secret-body"]);
}

#[test]
fn mcp_server_get_prompt_hides_unavailable_states() {
    let answer = |_: &StoreRequest| StoreReply::PromptSource(Ok(None));
    for name in ["missing-prompt", " invalid-name", "draft-prompt", "hard-deleted"] {
        let error = get_prompt(&read_ctx(), name, None, &answer).expect_err("unavailable prompt must fail");
        assert_protocol_error(&error, ProtocolErrorKind::InvalidParams, "prompt not found", "not_found");
        assert_hides(&error, &["/secret/", "hard delete", "draft"]);
    }
}

#[test]
fn mcp_server_get_prompt_preserves_source_on_consistency_error() {
    let sources: Vec<Box<dyn Fn(&StoreRequest) -> StoreReply>> = vec![
        Box::new(|_: &StoreRequest| {
            StoreReply::PromptSource(Ok(Some(PromptSourceEntry {
                revision: 1,
                prompt: None,
                body: "secret-invalid-body".to_string(),
            })))
        }),
        Box::new(|_: &StoreRequest| {
            StoreReply::PromptSource(Ok(Some(PromptSourceEntry {
                revision: 1,
                prompt: None,
                body: "secret-normal-body".to_string(),
            })))
        }),
        Box::new(|_: &StoreRequest| prompt_entry("changed-prompt", "changed", None, vec![], "secret-name-body")),
        Box::new(|_: &StoreRequest| prompt_entry("stable-prompt", "stable", None, vec![], "secret {{@undeclared}} body")),
    ];
    for answer in sources {
        let error = get_prompt(&read_ctx(), "stable-prompt", None, answer.as_ref())
            .expect_err("consistency error expected");
        assert_protocol_error(&error, ProtocolErrorKind::InternalError, "internal error", "internal_error");
        assert_hides(&error, &["secret", "undeclared", "/secret/consistency"]);
    }
}

// --- capabilities --------------------------------------------------------

#[test]
fn mcp_server_does_not_publish_prompts_when_name_index_is_not_ready() {
    let s = LuwikiMcpServer::new(Some(false), Some(false));
    let c = s.build_capabilities();
    assert!(!c.prompts);
    assert!(c.tools);
}

#[test]
fn mcp_server_publishes_prompts_when_name_index_is_ready() {
    let c = LuwikiMcpServer::new(Some(true), Some(false)).build_capabilities();
    assert!(c.prompts);
    assert!(c.tools);
}

#[test]
fn mcp_server_does_not_publish_resources_when_uri_index_is_not_ready() {
    let c = LuwikiMcpServer::new(Some(true), None).build_capabilities();
    assert!(!c.resources);
    assert!(c.tools);
}

#[test]
fn mcp_server_publishes_resources_when_uri_index_is_ready() {
    let c = LuwikiMcpServer::new(Some(false), Some(true)).build_capabilities();
    assert!(c.resources);
    assert!(c.tools);
}

#[test]
fn mcp_server_publishes_tools_prompts_and_resources_together() {
    let c = server().build_capabilities();
    assert!(c.prompts && c.resources && c.tools);
}

// --- prompts/list --------------------------------------------------------

fn candidate(name: &str, description: &str, args: Vec<PromptArgumentDef>) -> PromptCandidate {
    PromptCandidate { name: name.to_string(), description: description.to_string(), arguments: args }
}

fn list_prompts(
    auth: &AuthContext,
    cursor: Option<&str>,
    answer: &dyn Fn(&StoreRequest) -> StoreReply,
) -> Result<luwiki_mcp::server::PromptListing, ProtocolError> {
    let s = server();
    serve(answer, |replies, audit| s.list_prompts_for_auth_at(true, auth, cursor, &is_name, replies, audit)).0
}

fn names_of(listing: &luwiki_mcp::server::PromptListing) -> Vec<&str> {
    listing.prompts.iter().map(|p| p.name.as_str()).collect()
}

#[test]
fn mcp_server_list_prompts_connects_standard_handler() {
    let answer = |_: &StoreRequest| StoreReply::Prompts(Ok(vec![candidate("list-prompt", "一覧接続", vec![])]));
    let result = list_prompts(&read_ctx(), None, &answer).expect("list prompts failed");
    assert_eq!(result.prompts.len(), 1);
    assert_eq!(result.prompts[0].name, "list-prompt");
    assert_eq!(result.prompts[0].description, "一覧接続");
    assert_eq!(result.next_cursor, None);
}

#[test]
fn mcp_server_list_prompts_maps_decided_prompt_fields() {
    let answer = |_: &StoreRequest| {
        StoreReply::Prompts(Ok(vec![
            candidate("no-arguments", "引数なし", vec![]),
            candidate(
                "arguments-prompt",
                "引数あり",
                vec![
                    def("first", "第一引数", None),
                    def("second", "第二引数", Some(false)),
                    def("third", "第三引数", Some(true)),
                ],
            ),
        ]))
    };
    let result = list_prompts(&read_ctx(), None, &answer).expect("list prompts failed");
    assert_eq!(result.prompts.len(), 2);
    assert_eq!(result.next_cursor, None);
    let prompt = &result.prompts[0];
    assert_eq!(prompt.name, "arguments-prompt");
    assert_eq!(prompt.description, "引数あり");
    let arguments = prompt.arguments.as_ref().expect("prompt arguments missing");
    assert_eq!(arguments.len(), 3);
    assert_eq!(arguments[0].name, "first");
    assert_eq!(arguments[0].description, "第一引数");
    assert_eq!(arguments[0].required, None);
    assert_eq!(arguments[1].name, "second");
    assert_eq!(arguments[1].required, Some(false));
    assert_eq!(arguments[2].name, "third");
    assert_eq!(arguments[2].description, "第三引数");
    assert_eq!(arguments[2].required, Some(true));
    let no_arguments = &result.prompts[1];
    assert_eq!(no_arguments.name, "no-arguments");
    assert_eq!(no_arguments.description, "引数なし");
    assert_eq!(no_arguments.arguments, None);
}

#[test]
fn mcp_server_list_prompts_requires_read_scope_and_allows_read_only() {
    let answer = |_: &StoreRequest| StoreReply::Prompts(Ok(vec![]));
    let error = list_prompts(&append_only_ctx(), None, &answer).expect_err("append-only scope must be denied");
    assert_protocol_error(&error, ProtocolErrorKind::InvalidRequest, "operation is not allowed", "forbidden");
    assert!(list_prompts(&read_ctx(), None, &answer).is_ok());
    assert!(list_prompts(&read_only_ctx(), None, &answer).is_ok());
}

#[test]
fn mcp_server_list_prompts_ignores_page_path_prefix() {
    let auth = ctx(vec![BearerScope::Read], vec!["/allowed"]);
    let answer = |_: &StoreRequest| {
        StoreReply::Prompts(Ok(vec![candidate("outside-prefix", "outside-prefix description", vec![])]))
    };
    let result = list_prompts(&auth, None, &answer).expect("list prompts failed");
    assert_eq!(result.prompts.len(), 1);
    assert_eq!(result.prompts[0].name, "outside-prefix");
}

#[test]
fn mcp_server_list_prompts_filters_unavailable_pages() {
    // The store lists only the prompts of available pages.
    let answer = |_: &StoreRequest| StoreReply::Prompts(Ok(vec![candidate("visible", "visible description", vec![])]));
    let result = list_prompts(&read_ctx(), None, &answer).expect("list prompts failed");
    assert_eq!(result.prompts.len(), 1);
    assert_eq!(result.prompts[0].name, "visible");
}

#[test]
fn mcp_server_list_prompts_uses_case_sensitive_name_order() {
    let answer = |_: &StoreRequest| {
        StoreReply::Prompts(Ok(["日本", "alpha", "Alpha"]
            .iter()
            .map(|n| candidate(n, "d", vec![]))
            .collect()))
    };
    let all = list_prompts(&read_ctx(), None, &answer).expect("list all prompts failed");
    assert_eq!(names_of(&all), vec!["Alpha", "alpha", "日本"]);
    let after_missing = list_prompts(&read_ctx(), Some("Alphaz"), &answer).expect("list after missing cursor failed");
    assert_eq!(names_of(&after_missing), vec!["alpha", "日本"]);
}

#[test]
fn mcp_server_list_prompts_pages_by_fifty() {
    let answer = |_: &StoreRequest| {
        StoreReply::Prompts(Ok((0..52).map(|i| candidate(&format!("prompt-{:03}", i), "d", vec![])).collect()))
    };
    let first = list_prompts(&read_ctx(), None, &answer).expect("list first page failed");
    assert_eq!(first.prompts.len(), 50);
    assert_eq!(first.prompts[0].name, "prompt-000");
    assert_eq!(first.prompts[49].name, "prompt-049");
    assert_eq!(first.next_cursor.as_deref(), Some("prompt-049"));
    let second = list_prompts(&read_ctx(), first.next_cursor.as_deref(), &answer).expect("list second page failed");
    assert_eq!(second.prompts.len(), 2);
    assert_eq!(second.prompts[0].name, "prompt-050");
    assert_eq!(second.prompts[1].name, "prompt-051");
    assert_eq!(second.next_cursor, None);
}

#[test]
fn mcp_server_list_prompts_rejects_invalid_cursor() {
    let answer = |_: &StoreRequest| StoreReply::Prompts(Ok(vec![]));
    let too_long = "x".repeat(129);
    for cursor in ["", " leading", "trailing ", "\n"] {
        let error = list_prompts(&read_ctx(), Some(cursor), &answer).expect_err("invalid cursor must be rejected");
        assert_eq!(error.kind, ProtocolErrorKind::InvalidParams);
    }
    let error = list_prompts(&read_ctx(), Some(&too_long), &answer).expect_err("too long cursor must be rejected");
    assert_eq!(error.kind, ProtocolErrorKind::InvalidParams);
    let result = list_prompts(&read_ctx(), Some("zzzz"), &answer).expect("valid missing cursor failed");
    assert!(result.prompts.is_empty());
    assert_eq!(result.next_cursor, None);
}

#[test]
fn mcp_server_list_prompts_returns_empty_list() {
    let answer = |_: &StoreRequest| StoreReply::Prompts(Ok(vec![]));
    let result = list_prompts(&read_ctx(), None, &answer).expect("list empty prompts failed");
    assert!(result.prompts.is_empty());
    assert_eq!(result.next_cursor, None);
}

#[test]
fn mcp_server_list_prompts_maps_protocol_errors() {
    // A duplicated prompt name makes the store's listing fail.
    let duplicate = |_: &StoreRequest| {
        StoreReply::Prompts(Err(StoreError::new(
            StoreErrorKind::Other,
            "duplicate MCP primitive name: first in /prompts/second".to_string(),
        )))
    };
    let forbidden = list_prompts(&append_only_ctx(), None, &duplicate).expect_err("scope denial expected");
    assert_protocol_error(&forbidden, ProtocolErrorKind::InvalidRequest, "operation is not allowed", "forbidden");
    let invalid = list_prompts(&read_ctx(), Some(""), &duplicate).expect_err("invalid cursor expected");
    assert_protocol_error(&invalid, ProtocolErrorKind::InvalidParams, "cursor is invalid", "invalid_input");
    let internal = list_prompts(&read_ctx(), None, &duplicate).expect_err("internal inconsistency expected");
    assert_protocol_error(&internal, ProtocolErrorKind::InternalError, "internal error", "internal_error");
    assert_hides(&internal, &["/prompts/", "duplicate MCP primitive name"]);
}

#[test]
fn rebuilt_prompt_candidates_are_visible_to_prompts_list() {
    let answer = |_: &StoreRequest| {
        StoreReply::Prompts(Ok(vec![candidate("rebuilt-prompt", "rebuilt description", vec![])]))
    };
    let result = list_prompts(&read_ctx(), None, &answer).expect("list prompts failed");
    assert_eq!(names_of(&result), vec!["rebuilt-prompt"]);
}

// --- resources -----------------------------------------------------------

fn page_uri(id: &str) -> String {
    format!("{}/page/{}", BASE, id)
}

fn builtin_items() -> Vec<ResourceListItem> {
    vec![
        ResourceListItem::new(
            format!("{}/builtin/front-matter-spec", BASE),
            "Front Matter Specification".to_string(),
            "LuWiki front matter specification".to_string(),
            "text/markdown".to_string(),
        ),
        ResourceListItem::new(
            format!("{}/builtin/mcp-prompt-spec", BASE),
            "MCP Prompt Specification".to_string(),
            "LuWiki MCP prompt specification".to_string(),
            "text/markdown".to_string(),
        ),
    ]
}

fn res_candidate(id: &str, name: &str) -> ResourceCandidate {
    ResourceCandidate {
        resource_path: format!("/page/{}", id),
        name: name.to_string(),
        description: format!("{} description", name),
    }
}

fn found(current_path: &str, id: &str, mime: Option<&str>, body: &str) -> StoreReply {
    StoreReply::ResourceSource(Ok(ResourceLookup::Found(ResourceSourceEntry {
        current_path: current_path.to_string(),
        revision: 1,
        resource: Some(ResourcePage {
            acl: None,
            resource_path: Some(format!("/page/{}", id)),
            mime_type: mime.map(str::to_string),
        }),
        body: body.to_string(),
        uri: page_uri(id),
    })))
}

/// A store with the given candidates: each candidate's page lookup is
/// answered by `lookup`, and the merge adds the built-in resources and
/// orders by URI.
fn resource_store<'a>(
    candidates: Vec<ResourceCandidate>,
    lookup: &'a dyn Fn(&str) -> StoreReply,
    mime: &'a dyn Fn(&str) -> String,
) -> impl Fn(&StoreRequest) -> StoreReply + 'a {
    move |r: &StoreRequest| match r {
        StoreRequest::ResourceCandidates => StoreReply::Resources(Ok(candidates.clone())),
        StoreRequest::ResourceSource { resource_path } => lookup(resource_path),
        StoreRequest::MergeResources { candidates } => {
            let mut items = builtin_items();
            for c in candidates {
                let id = c.resource_path.trim_start_matches("/page/").to_string();
                items.push(ResourceListItem::new(page_uri(&id), c.name.clone(), c.description.clone(), mime(&id)));
            }
            items.sort_by(|a, b| a.uri.cmp(&b.uri));
            StoreReply::Merged(Ok(items))
        }
        StoreRequest::BuiltinResource { builtin_id } => {
            if builtin_id == "front-matter-spec" || builtin_id == "mcp-prompt-spec" {
                StoreReply::Builtin(Some(ResourceContents {
                    uri: format!("{}/builtin/{}", BASE, builtin_id),
                    mime_type: "text/markdown".to_string(),
                    text: "# Front Matter 基本仕様\n".to_string(),
                }))
            } else {
                StoreReply::Builtin(None)
            }
        }
        other => panic!("unexpected request {:?}", other),
    }
}

fn markdown(_: &str) -> String {
    "text/markdown".to_string()
}

fn list_resources(
    auth: &AuthContext,
    cursor: Option<&str>,
    answer: &dyn Fn(&StoreRequest) -> StoreReply,
) -> (Result<luwiki_mcp::model::ListResourcesServiceResult, ProtocolError>, Vec<StoreRequest>) {
    let s = server();
    serve(answer, |replies, audit| {
        s.list_resources_for_auth_at(true, auth, cursor, &is_resource_path, &is_token_id, replies, audit)
    })
}

fn read_resource(
    auth: &AuthContext,
    uri: &str,
    answer: &dyn Fn(&StoreRequest) -> StoreReply,
) -> Result<luwiki_mcp::model::ReadResourceServiceResult, ProtocolError> {
    let s = server();
    serve(answer, |replies, audit| {
        s.read_resource_for_auth_at(
            true,
            auth,
            uri,
            "text/markdown",
            &is_resource_path,
            &is_path_shape,
            &is_token_id,
            replies,
            audit,
        )
    })
    .0
}

fn uris(r: &luwiki_mcp::model::ListResourcesServiceResult) -> Vec<String> {
    r.items.iter().map(|i| i.uri.clone()).collect()
}

#[test]
fn mcp_server_list_resources_connects_standard_handler() {
    let lookup = |_: &str| found("/resources/list", "docs/list", None, "本文");
    let store = resource_store(vec![res_candidate("docs/list", "list-resource")], &lookup, &markdown);
    let result = list_resources(&read_ctx(), None, &store).0.expect("list resources failed");
    assert!(uris(&result).contains(&format!("{}/page/docs/list", BASE)));
    assert_eq!(result.next_cursor, None);
}

#[test]
fn mcp_server_list_resources_requires_read_scope_and_allows_read_only() {
    let lookup = |_: &str| panic!("no page is looked up");
    let store = resource_store(vec![], &lookup, &markdown);
    let error = list_resources(&append_only_ctx(), None, &store).0.expect_err("append-only scope must be denied");
    assert_protocol_error(&error, ProtocolErrorKind::InvalidRequest, "operation is not allowed", "forbidden");
    assert!(list_resources(&read_ctx(), None, &store).0.is_ok());
    assert!(list_resources(&read_only_ctx(), None, &store).0.is_ok());
}

#[test]
fn mcp_server_list_resources_applies_page_path_prefix() {
    let lookup = |path: &str| match path {
        "/page/docs/allowed" => found("/allowed/resource", "docs/allowed", None, "本文"),
        "/page/docs/blocked" => found("/blocked/resource", "docs/blocked", None, "本文"),
        other => panic!("unexpected lookup {}", other),
    };
    let store = resource_store(
        vec![res_candidate("docs/allowed", "allowed-resource"), res_candidate("docs/blocked", "blocked-resource")],
        &lookup,
        &markdown,
    );
    let auth = ctx(vec![BearerScope::Read], vec!["/allowed"]);
    let (result, asked) = list_resources(&auth, None, &store);
    let all = uris(&result.expect("list resources failed"));
    assert!(all.contains(&format!("{}/builtin/front-matter-spec", BASE)));
    assert!(all.contains(&format!("{}/page/docs/allowed", BASE)));
    assert!(!all.contains(&format!("{}/page/docs/blocked", BASE)));
    assert!(asked.iter().any(|r| matches!(r, StoreRequest::MergeResources { candidates } if candidates.len() == 1)));
}

#[test]
fn mcp_server_list_resources_filters_unavailable_page_candidates() {
    let lookup = |path: &str| match path {
        "/page/docs/visible" => found("/resources/visible", "docs/visible", None, "本文"),
        "/page/docs/draft" => StoreReply::ResourceSource(Ok(ResourceLookup::Unavailable)),
        "/page/docs/orphan" => StoreReply::ResourceSource(Ok(ResourceLookup::NotFound)),
        other => panic!("unexpected lookup {}", other),
    };
    let store = resource_store(
        vec![
            res_candidate("docs/visible", "visible-resource"),
            res_candidate("docs/draft", "draft-resource"),
            res_candidate("docs/orphan", "orphan-resource"),
        ],
        &lookup,
        &markdown,
    );
    let result = list_resources(&read_ctx(), None, &store).0.expect("list resources failed");
    assert_eq!(
        uris(&result),
        vec![
            format!("{}/builtin/front-matter-spec", BASE),
            format!("{}/builtin/mcp-prompt-spec", BASE),
            format!("{}/page/docs/visible", BASE),
        ]
    );
    assert_eq!(result.next_cursor, None);
    let names: Vec<&str> = result.items.iter().map(|i| i.name.as_str()).collect();
    assert!(names.contains(&"visible-resource"));
    assert!(!names.contains(&"deleted-resource"));
    assert!(!names.contains(&"draft-resource"));
    assert!(!names.contains(&"orphan-resource"));
}

#[test]
fn mcp_server_list_resources_maps_builtin_and_page_resources() {
    let lookup = |_: &str| found("/resources/mapping", "docs/mapping", Some("application/json"), "本文");
    let json = |_: &str| "application/json".to_string();
    let store = resource_store(vec![res_candidate("docs/mapping", "mapped-resource")], &lookup, &json);
    let result = list_resources(&read_ctx(), None, &store).0.expect("list resources failed");
    assert_eq!(result.items.len(), 3);
    assert_eq!(result.next_cursor, None);
    assert_eq!(result.items[0].uri, format!("{}/builtin/front-matter-spec", BASE));
    assert_eq!(result.items[0].name, "Front Matter Specification");
    assert_eq!(result.items[0].description, "LuWiki front matter specification");
    assert_eq!(result.items[0].mime_type, "text/markdown");
    assert_eq!(result.items[1].uri, format!("{}/builtin/mcp-prompt-spec", BASE));
    assert_eq!(result.items[1].name, "MCP Prompt Specification");
    assert_eq!(result.items[2].uri, format!("{}/page/docs/mapping", BASE));
    assert_eq!(result.items[2].name, "mapped-resource");
    assert_eq!(result.items[2].description, "mapped-resource description");
    assert_eq!(result.items[2].mime_type, "application/json");
}

#[test]
fn mcp_server_read_resource_returns_builtin_contents() {
    let auth = ctx(vec![BearerScope::Read], vec!["/private"]);
    let lookup = |_: &str| panic!("no page is looked up");
    let store = resource_store(vec![], &lookup, &markdown);
    let result = read_resource(&auth, &format!("{}/builtin/front-matter-spec", BASE), &store)
        .expect("read builtin resource failed");
    assert_eq!(result.uri, format!("{}/builtin/front-matter-spec", BASE));
    assert_eq!(result.mime_type, "text/markdown");
    assert!(result.text.contains("# Front Matter 基本仕様"));
    assert_eq!(result.revision, None);
    let listed = list_resources(&auth, None, &store).0.expect("list builtin resources failed");
    assert_eq!(
        uris(&listed),
        vec![format!("{}/builtin/front-matter-spec", BASE), format!("{}/builtin/mcp-prompt-spec", BASE)]
    );
    assert!(read_resource(&auth, &format!("{}/builtin/mcp-prompt-spec", BASE), &store).is_ok());
}

#[test]
fn mcp_server_read_resource_requires_read_scope_and_allows_read_only() {
    let uri = format!("{}/builtin/front-matter-spec", BASE);
    let lookup = |_: &str| panic!("no page is looked up");
    let store = resource_store(vec![], &lookup, &markdown);
    let error = read_resource(&append_only_ctx(), &uri, &store).expect_err("append-only scope must be denied");
    assert_protocol_error(&error, ProtocolErrorKind::InvalidRequest, "operation is not allowed", "forbidden");
    assert!(read_resource(&read_ctx(), &uri, &store).is_ok());
    assert!(read_resource(&read_only_ctx(), &uri, &store).is_ok());
}

#[test]
fn mcp_server_read_resource_hides_draft_resource() {
    let lookup = |_: &str| StoreReply::ResourceSource(Ok(ResourceLookup::Unavailable));
    let store = resource_store(vec![], &lookup, &markdown);
    let error = read_resource(&read_ctx(), &format!("{}/page/docs/draft-read", BASE), &store)
        .expect_err("draft resource must be hidden");
    assert_protocol_error(&error, ProtocolErrorKind::InvalidParams, "resource not found", "not_found");
    assert_hides(&error, &["/secret/draft-resource", "docs/draft-read", "draft-read-resource", "draft read description"]);
}

#[test]
fn mcp_server_read_resource_returns_page_contents() {
    let lookup = |_: &str| found("/allowed/read-resource", "docs/read", Some("text/plain"), "# Resource Body\n\n本文\n");
    let store = resource_store(vec![], &lookup, &markdown);
    let allowed = ctx(vec![BearerScope::Read], vec!["/allowed"]);
    let blocked = ctx(vec![BearerScope::Read], vec!["/blocked"]);
    let result = read_resource(&allowed, &format!("{}/page/docs/read", BASE), &store).expect("read page resource failed");
    assert_eq!(result.uri, format!("{}/page/docs/read", BASE));
    assert_eq!(result.mime_type, "text/plain");
    assert_eq!(result.text, "# Resource Body\n\n本文\n");
    let error = read_resource(&blocked, &format!("{}/page/docs/read", BASE), &store)
        .expect_err("blocked resource must be hidden");
    assert_protocol_error(&error, ProtocolErrorKind::InvalidParams, "resource not found", "not_found");
}

#[test]
fn mcp_server_read_resource_maps_state_and_uri_errors() {
    let lookup = |path: &str| match path {
        "/page/docs/soft" => StoreReply::ResourceSource(Ok(ResourceLookup::Unavailable)),
        _ => StoreReply::ResourceSource(Ok(ResourceLookup::NotFound)),
    };
    let store = resource_store(vec![], &lookup, &markdown);
    for uri in [
        format!("{}/page/docs/soft", BASE),
        format!("{}/page/docs/hard", BASE),
        "luwiki://other.luwiki/page/docs/soft".to_string(),
        format!("{}/page/docs/missing", BASE),
    ] {
        let error = read_resource(&read_ctx(), &uri, &store).expect_err("unavailable resource must fail");
        assert_protocol_error(&error, ProtocolErrorKind::InvalidParams, "resource not found", "not_found");
        assert_hides(&error, &[uri.as_str(), "/secret/", "soft delete", "hard delete"]);
    }
    let invalid = read_resource(&read_ctx(), &format!("{}/page/ bad", BASE), &store)
        .expect_err("invalid resource uri must fail");
    assert_protocol_error(&invalid, ProtocolErrorKind::InvalidParams, "resource uri is invalid", "invalid_input");
    assert_hides(&invalid, &[" bad"]);
}

#[test]
fn mcp_server_read_resource_maps_consistency_error() {
    let lookup = |_: &str| found("/secret/inconsistent-resource", "docs/changed", None, "secret-body");
    let store = resource_store(vec![], &lookup, &markdown);
    let error = read_resource(&read_ctx(), &format!("{}/page/docs/original", BASE), &store)
        .expect_err("resource_id mismatch must fail");
    assert_protocol_error(&error, ProtocolErrorKind::InternalError, "internal error", "internal_error");
    assert_hides(&error, &["/secret/inconsistent-resource", "docs/changed", "changed-resource", "secret-body"]);
}

#[test]
fn mcp_server_list_resources_uses_uri_order() {
    let lookup = |path: &str| {
        let id = path.trim_start_matches("/page/");
        found(&format!("/resources/{}", id), id, None, "本文")
    };
    let store = resource_store(
        vec![
            res_candidate("docs/zeta", "zeta"),
            res_candidate("Docs/alpha", "alpha-upper"),
            res_candidate("docs/日本", "japanese"),
        ],
        &lookup,
        &markdown,
    );
    let all = list_resources(&read_ctx(), None, &store).0.expect("list all resources failed");
    assert_eq!(
        uris(&all),
        vec![
            format!("{}/builtin/front-matter-spec", BASE),
            format!("{}/builtin/mcp-prompt-spec", BASE),
            format!("{}/page/Docs/alpha", BASE),
            format!("{}/page/docs/zeta", BASE),
            format!("{}/page/docs/日本", BASE),
        ]
    );
    let cursor = format!("{}/page/docs/a", BASE);
    let after_missing = list_resources(&read_ctx(), Some(&cursor), &store).0.expect("list after missing cursor failed");
    assert_eq!(uris(&after_missing), vec![format!("{}/page/docs/zeta", BASE), format!("{}/page/docs/日本", BASE)]);
    assert_eq!(after_missing.next_cursor, None);
}

#[test]
fn mcp_server_list_resources_pages_by_fifty() {
    let lookup = |path: &str| {
        let id = path.trim_start_matches("/page/");
        found(&format!("/resources/{}", id), id, None, "本文")
    };
    let candidates = (0..52).map(|i| res_candidate(&format!("docs/resource-{:03}", i), &format!("resource-{:03}", i))).collect();
    let store = resource_store(candidates, &lookup, &markdown);
    let first = list_resources(&read_ctx(), None, &store).0.expect("list first page failed");
    assert_eq!(first.items.len(), 50);
    assert_eq!(first.items[0].uri, format!("{}/builtin/front-matter-spec", BASE));
    assert_eq!(first.items[1].uri, format!("{}/builtin/mcp-prompt-spec", BASE));
    assert_eq!(first.items[49].uri, format!("{}/page/docs/resource-047", BASE));
    assert_eq!(first.next_cursor.as_deref(), Some(format!("{}/page/docs/resource-047", BASE).as_str()));
    let second = list_resources(&read_ctx(), first.next_cursor.as_deref(), &store).0.expect("list second page failed");
    assert_eq!(
        uris(&second),
        (48..52).map(|i| format!("{}/page/docs/resource-{:03}", BASE, i)).collect::<Vec<_>>()
    );
    assert_eq!(second.next_cursor, None);
}

#[test]
fn mcp_server_list_resources_rejects_invalid_cursor() {
    let lookup = |_: &str| panic!("no page is looked up");
    let store = resource_store(vec![], &lookup, &markdown);
    let too_long = format!("{}/page/{}", BASE, "x".repeat(513));
    for cursor in [
        "",
        " leading",
        "trailing ",
        "\n",
        "http://local.luwiki/page/docs/a",
        "luwiki://other/page/docs/a",
        "luwiki://local.luwiki/other/docs/a",
        "luwiki://local.luwiki/page/",
        "luwiki://local.luwiki/page/builtin/spec",
        "luwiki://local.luwiki/builtin/",
        "luwiki://local.luwiki/builtin/a/b",
    ] {
        let error = list_resources(&read_ctx(), Some(cursor), &store).0.expect_err("invalid cursor must be rejected");
        assert_eq!(error.kind, ProtocolErrorKind::InvalidParams);
        assert_eq!(error.message, "cursor is invalid");
    }
    let error = list_resources(&read_ctx(), Some(&too_long), &store).0.expect_err("too long cursor must be rejected");
    assert_eq!(error.kind, ProtocolErrorKind::InvalidParams);
    assert_eq!(error.message, "cursor is invalid");
    let result = list_resources(&read_ctx(), Some("luwiki://local.luwiki/page/zzzz"), &store)
        .0
        .expect("valid missing cursor failed");
    assert!(result.items.is_empty());
    assert_eq!(result.next_cursor, None);
}

#[test]
fn mcp_server_list_resources_maps_protocol_errors() {
    let lookup = |path: &str| {
        let id = path.trim_start_matches("/page/");
        found(&format!("/resources/{}", id), id, None, "本文")
    };
    let candidates = vec![res_candidate("docs/first", "first-resource"), res_candidate("docs/first", "duplicate-resource")];
    let base = resource_store(candidates, &lookup, &markdown);
    // Two candidates with one resource path make the merge fail.
    let store = |r: &StoreRequest| match r {
        StoreRequest::MergeResources { .. } => StoreReply::Merged(Err(StoreError::new(
            StoreErrorKind::Other,
            "duplicate resource docs/first in /resources/second".to_string(),
        ))),
        other => base(other),
    };
    let forbidden = list_resources(&append_only_ctx(), None, &store).0.expect_err("scope denial expected");
    assert_protocol_error(&forbidden, ProtocolErrorKind::InvalidRequest, "operation is not allowed", "forbidden");
    let invalid = list_resources(&read_ctx(), Some("secret-cursor"), &store).0.expect_err("invalid cursor expected");
    assert_protocol_error(&invalid, ProtocolErrorKind::InvalidParams, "cursor is invalid", "invalid_input");
    assert_hides(&invalid, &["secret-cursor"]);
    let internal = list_resources(&read_ctx(), None, &store).0.expect_err("internal inconsistency expected");
    assert_protocol_error(&internal, ProtocolErrorKind::InternalError, "internal error", "internal_error");
    assert_hides(&internal, &["/resources/", "docs/first", "duplicate-resource", "secret duplicate description", "duplicate resource"]);
}

// --- audited handlers ----------------------------------------------------

fn any_path(s: &str) -> bool {
    s.starts_with('/') && !s.chars().any(|c| c.is_whitespace() || c.is_control())
}

fn run_handler<T>(
    answer: &dyn Fn(&StoreRequest) -> StoreReply,
    mut step: impl FnMut(&[StoreReply], Option<&StoreReply>) -> luwiki_mcp::handler::HandlerStep<T>,
) -> Result<T, McpError> {
    let mut replies: Vec<StoreReply> = Vec::new();
    let mut audit_reply: Option<StoreReply> = None;
    loop {
        match step(&replies, audit_reply.as_ref()) {
            luwiki_mcp::handler::HandlerStep::Ask(StoreRequest::AuditUserId { .. }) => {
                audit_reply = Some(StoreReply::UserId(Ok(Some("u1".to_string()))));
            }
            luwiki_mcp::handler::HandlerStep::Ask(request) => replies.push(answer(&request)),
            // The record would be handed to the audit log; whether writing
            // it fails does not reach the result.
            luwiki_mcp::handler::HandlerStep::Done(result, _record) => return result,
        }
    }
}

fn audited_handler() -> luwiki_mcp::handler::McpHandler {
    luwiki_mcp::handler::McpHandler::new(
        luwiki_mcp::auth::McpAuthGateway::new(),
        luwiki_mcp::service::McpService::new(),
        true,
    )
}

#[test]
fn handle_list_resources_ignores_audit_record_failure() {
    let handler = audited_handler();
    let read = AuthContext::new("alice".to_string(), vec![BearerScope::Read], vec![], Some("tok-1".to_string()));
    let append_only = AuthContext::new("alice".to_string(), vec![BearerScope::Append], vec![], Some("tok-1".to_string()));
    let lookup = |_: &str| panic!("no page is looked up");
    let store = resource_store(vec![], &lookup, &markdown);
    let result = run_handler(&store, |replies, audit| {
        handler.handle_list_resources(&read, None, &any_path, &is_token_id, replies, audit)
    })
    .expect("list resources should succeed");
    assert!(!result.items.is_empty());
    let error = run_handler(&store, |replies, audit| {
        handler.handle_list_resources(&append_only, None, &any_path, &is_token_id, replies, audit)
    })
    .expect_err("scope denial expected");
    assert_eq!(error.code(), McpErrorCode::Forbidden);
}

#[test]
fn handle_read_resource_ignores_audit_record_failure() {
    let handler = audited_handler();
    let auth = AuthContext::new("alice".to_string(), vec![BearerScope::Read], vec![], Some("tok-1".to_string()));
    let store = |r: &StoreRequest| match r {
        StoreRequest::ResourceSource { resource_path } if resource_path == "/docs/audit-fail" => {
            StoreReply::ResourceSource(Ok(ResourceLookup::Found(ResourceSourceEntry {
                current_path: "/audit-fail/read-resource".to_string(),
                revision: 1,
                resource: Some(ResourcePage {
                    acl: None,
                    resource_path: Some("/docs/audit-fail".to_string()),
                    mime_type: None,
                }),
                body: "audit fail body".to_string(),
                uri: format!("{}/docs/audit-fail", BASE),
            })))
        }
        StoreRequest::ResourceSource { .. } => StoreReply::ResourceSource(Ok(ResourceLookup::NotFound)),
        other => panic!("unexpected request {:?}", other),
    };
    let result = run_handler(&store, |replies, audit| {
        handler.handle_read_resource(
            &auth,
            "luwiki://local.luwiki/docs/audit-fail",
            "text/markdown",
            &any_path,
            &any_path,
            &is_token_id,
            replies,
            audit,
        )
    })
    .expect("read resource should succeed");
    assert_eq!(result.text, "audit fail body");
    let error = run_handler(&store, |replies, audit| {
        handler.handle_read_resource(
            &auth,
            "luwiki://local.luwiki/docs/missing",
            "text/markdown",
            &any_path,
            &any_path,
            &is_token_id,
            replies,
            audit,
        )
    })
    .expect_err("not found expected");
    assert_eq!(error.code(), McpErrorCode::NotFound);
}
