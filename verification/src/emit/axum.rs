//! The parts of the axum server interface that are text: the security section
//! of each trait method's doc comment.

use vstd::prelude::*;

use crate::emit::scheme_for;
use crate::emit::scheme_index;
use crate::graph::views;
use crate::emit::render::doc_body;
use crate::emit::render::push_doc_body;
use crate::emit::render::push_type;
use crate::emit::render::type_text;
use crate::ir::BodyKind;
use crate::ir::Operation;
use crate::ir::Param;
use crate::ir::RequestPayload;
use crate::text::has_prefix;
use crate::text::join;
use crate::text::join_strings;
use crate::ir::Service;
use crate::ir::SecurityScheme;
use crate::ir::SecuritySchemeKind;
use crate::text::owned;
use crate::text::push_str;

verus! {

/// The axum server-interface emitter.
pub struct AxumServer;

/// Name of the emitted server trait, reserved at the crate root so a component
/// schema cannot collide with it.
pub const API_TRAIT_NAME: &'static str = "Api";

/// Where a scheme's credential sits, or `None` for a scheme the generator has
/// no built-in support for.
pub open spec fn location_text(kind: SecuritySchemeKind) -> Option<Seq<char>> {
    match kind {
        SecuritySchemeKind::HttpBearer => Some("a bearer token in the `Authorization` header"@),
        SecuritySchemeKind::HttpBasic => Some("basic credentials in the `Authorization` header"@),
        SecuritySchemeKind::ApiKeyHeader(name) => Some("an API key in the `"@ + name@ + "` header"@),
        SecuritySchemeKind::ApiKeyQuery(name) => Some("an API key in the `"@ + name@ + "` query parameter"@),
        SecuritySchemeKind::ApiKeyCookie(name) => Some("an API key in the `"@ + name@ + "` cookie"@),
        SecuritySchemeKind::Unsupported(_) => None,
    }
}

/// One security scheme, named and located: where the credential sits is what
/// a server needs, because it reads the credential itself.
pub open spec fn requirement_text(key: Seq<char>, schemes: Seq<SecurityScheme>) -> Seq<char> {
    match scheme_for(schemes, key) {
        None => "`"@ + key + "`, which `components.securitySchemes` does not declare"@,
        Some(scheme) => match location_text(scheme.kind) {
            Some(location) => "`"@ + key + "`: "@ + location,
            None => "`"@ + key + "`, a scheme this generator has no built-in support for"@,
        },
    }
}

/// One security scheme, named and located.
///
/// A scheme the document names and never declares is named as such: a server
/// has nothing to reject, so the doc says what it knows. A scheme the generator
/// does not support is named by its key alone, because the reason held for it
/// is written for the client.
pub fn requirement_line(key: &str, schemes: &Vec<SecurityScheme>) -> (r: String)
    ensures
        r@ == requirement_text(key@, schemes@),
{
    let mut r = owned("`");
    push_str(&mut r, key);
    match scheme_index(schemes, key) {
        None => {
            push_str(&mut r, "`, which `components.securitySchemes` does not declare");
        },
        Some(i) => {
            match &schemes[i].kind {
                SecuritySchemeKind::HttpBearer => {
                    push_str(&mut r, "`: ");
                    push_str(&mut r, "a bearer token in the `Authorization` header");
                },
                SecuritySchemeKind::HttpBasic => {
                    push_str(&mut r, "`: ");
                    push_str(&mut r, "basic credentials in the `Authorization` header");
                },
                SecuritySchemeKind::ApiKeyHeader(name) => {
                    push_str(&mut r, "`: ");
                    push_str(&mut r, "an API key in the `");
                    push_str(&mut r, name.as_str());
                    push_str(&mut r, "` header");
                },
                SecuritySchemeKind::ApiKeyQuery(name) => {
                    push_str(&mut r, "`: ");
                    push_str(&mut r, "an API key in the `");
                    push_str(&mut r, name.as_str());
                    push_str(&mut r, "` query parameter");
                },
                SecuritySchemeKind::ApiKeyCookie(name) => {
                    push_str(&mut r, "`: ");
                    push_str(&mut r, "an API key in the `");
                    push_str(&mut r, name.as_str());
                    push_str(&mut r, "` cookie");
                },
                SecuritySchemeKind::Unsupported(_) => {
                    push_str(&mut r, "`, a scheme this generator has no built-in support for");
                },
            }
        },
    }
    assert(r@ =~= requirement_text(key@, schemes@));
    r
}

/// The security lines of a method's doc, one per named scheme.
pub open spec fn requirement_lines(keys: Seq<String>, schemes: Seq<SecurityScheme>) -> Seq<Seq<char>> {
    keys.map_values(|k: String| "- "@ + requirement_text(k@, schemes))
}

/// The lines of a trait method's doc comment: the operation's own doc, then,
/// when the operation names security, a `# Security` section that lists each
/// scheme, notes that past one scheme the list is a union of alternatives, and
/// says the generator emits no check.
pub open spec fn method_doc_text(op: Operation, schemes: Seq<SecurityScheme>) -> Seq<Seq<char>> {
    let own = match op.doc {
        Some(text) => seq![text@],
        None => Seq::empty(),
    };
    if op.security@.len() == 0 {
        own
    } else {
        (match op.doc {
            Some(text) => seq![text@, Seq::empty()],
            None => Seq::empty(),
        }) + seq![
            "# Security"@,
            Seq::empty(),
            "The document names these security schemes for this operation:"@,
            Seq::empty(),
        ] + requirement_lines(op.security@, schemes) + seq![Seq::<char>::empty()] + (if op.security@.len() > 1 {
            seq![
                "This list is the union of every alternative the document gives, so it may be a choice between schemes rather than all of them. Read `security` in the document for the exact rule."@,
                Seq::empty(),
            ]
        } else {
            Seq::empty()
        }) + seq![
            "This generator emits no check. Enforce it in a layer around the router: this method receives only the parameters the operation declares, not the credential."@,
        ]
    }
}

/// Append one line.
fn push_line(lines: &mut Vec<String>, line: String)
    ensures
        views(final(lines)@) == views(old(lines)@).push(line@),
{
    proof {
        crate::graph::lemma_views_push(lines@, line);
    }
    lines.push(line);
}

/// The lines of a trait method's doc comment.
///
/// The generator emits no check for the security an operation names, because
/// verifying a credential needs application knowledge it does not have. Naming
/// the schemes is what it can do, so an implementer can tell a public operation
/// from a protected one without reading the document.
pub fn method_doc_lines(operation: &Operation, schemes: &Vec<SecurityScheme>) -> (lines: Vec<String>)
    ensures
        views(lines@) == method_doc_text(*operation, schemes@),
{
    let mut lines: Vec<String> = Vec::new();
    if operation.security.len() == 0 {
        match &operation.doc {
            Some(text) => push_line(&mut lines, text.clone()),
            None => {},
        }
        assert(views(lines@) =~= method_doc_text(*operation, schemes@));
        return lines;
    }
    match &operation.doc {
        Some(text) => {
            push_line(&mut lines, text.clone());
            push_line(&mut lines, String::new());
        },
        None => {},
    }
    let ghost head = views(lines@);
    push_line(&mut lines, owned("# Security"));
    push_line(&mut lines, String::new());
    push_line(&mut lines, owned("The document names these security schemes for this operation:"));
    push_line(&mut lines, String::new());
    let ghost intro = views(lines@);
    let mut k: usize = 0;
    while k < operation.security.len()
        invariant
            k <= operation.security@.len(),
            views(lines@) == intro + requirement_lines(operation.security@.take(k as int), schemes@),
        decreases operation.security@.len() - k,
    {
        let mut line = owned("- ");
        let requirement = requirement_line(operation.security[k].as_str(), schemes);
        push_str(&mut line, requirement.as_str());
        push_line(&mut lines, line);
        assert(requirement_lines(operation.security@.take(k + 1), schemes@) =~= requirement_lines(
            operation.security@.take(k as int),
            schemes@,
        ).push("- "@ + requirement_text(operation.security@[k as int]@, schemes@)));
        assert(views(lines@) =~= intro + requirement_lines(operation.security@.take(k + 1), schemes@));
        k = k + 1;
    }
    assert(operation.security@.take(operation.security@.len() as int) =~= operation.security@);
    push_line(&mut lines, String::new());
    if operation.security.len() > 1 {
        push_line(&mut lines, 
            owned(
                "This list is the union of every alternative the document gives, so it may be a choice between schemes rather than all of them. Read `security` in the document for the exact rule.",
            ),
        );
        push_line(&mut lines, String::new());
    }
    push_line(&mut lines, 
        owned(
            "This generator emits no check. Enforce it in a layer around the router: this method receives only the parameters the operation declares, not the credential.",
        ),
    );
    assert(views(lines@) =~= method_doc_text(*operation, schemes@));
    lines
}

/// Whether `groups` splits the operations `ops` into runs: consecutive,
/// non-empty, covering every operation in order, each run sharing one path,
/// and each run starting where the path changes.
pub open spec fn route_runs(ops: Seq<Operation>, groups: Seq<(usize, usize)>) -> bool {
    &&& (ops.len() == 0 <==> groups.len() == 0)
    &&& groups.len() > 0 ==> groups[0].0 == 0 && groups[groups.len() - 1].1 == ops.len()
    &&& forall|k: int| 0 <= k < groups.len() ==> (#[trigger] groups[k]).0 < groups[k].1 <= ops.len()
    &&& forall|k: int| 0 <= k < groups.len() - 1 ==> (#[trigger] groups[k]).1 == groups[k + 1].0
    &&& forall|k: int, i: int|
        0 <= k < groups.len() && (#[trigger] groups[k]).0 <= i < groups[k].1 ==> (#[trigger] ops[i]).path@ == ops[groups[k].0 as int].path@
    &&& forall|k: int| 0 < k < groups.len() ==> ops[(#[trigger] groups[k]).0 - 1].path@ != ops[groups[k].0 as int].path@
}

/// The router's routes: each run of adjacent operations on one path becomes
/// one `.route` call, its methods chained in operation order. The runs come
/// back as half-open ranges of operation positions.
pub fn route_groups(service: &Service) -> (groups: Vec<(usize, usize)>)
    ensures
        route_runs(service.operations@, groups@),
{
    let ops = &service.operations;
    let mut groups: Vec<(usize, usize)> = Vec::new();
    if ops.len() == 0 {
        return groups;
    }
    let mut start: usize = 0;
    let mut i: usize = 1;
    while i < ops.len()
        invariant
            ops == &service.operations,
            0 <= start < i <= ops@.len(),
            groups@.len() == 0 <==> start == 0,
            groups@.len() > 0 ==> groups@[0].0 == 0 && groups@[groups@.len() - 1].1 == start,
            forall|k: int| 0 <= k < groups@.len() ==> (#[trigger] groups@[k]).0 < groups@[k].1 <= start,
            forall|k: int| 0 <= k < groups@.len() - 1 ==> (#[trigger] groups@[k]).1 == groups@[k + 1].0,
            forall|k: int, j: int|
                0 <= k < groups@.len() && (#[trigger] groups@[k]).0 <= j < groups@[k].1 ==> (#[trigger] ops@[j]).path@
                    == ops@[groups@[k].0 as int].path@,
            forall|k: int| 0 < k < groups@.len() ==> ops@[(#[trigger] groups@[k]).0 - 1].path@ != ops@[groups@[k].0 as int].path@,
            start > 0 ==> ops@[start - 1].path@ != ops@[start as int].path@,
            forall|j: int| start <= j < i ==> (#[trigger] ops@[j]).path@ == ops@[start as int].path@,
        decreases ops@.len() - i,
    {
        if ops[i].path != ops[i - 1].path {
            groups.push((start, i));
            start = i;
        }
        i = i + 1;
    }
    groups.push((start, ops.len()));
    groups
}

/// How widely an emitted handler function is visible. A flat file keeps the
/// handler private, because the router that names it sits beside it; a
/// package puts the two in different modules, so the handler has to reach its
/// parent.
#[derive(Debug, Clone, Copy, PartialEq, Eq)]
pub enum HandlerVisibility {
    /// No visibility keyword: the handler is reachable within its own module.
    Private,
    /// `pub(super)`: the handler is reachable from the module holding the router.
    Parent,
}

/// The visibility written before `async fn`.
pub open spec fn visibility_text(v: HandlerVisibility) -> Seq<char> {
    match v {
        HandlerVisibility::Private => Seq::empty(),
        HandlerVisibility::Parent => "pub(super) "@,
    }
}

/// The identifiers of the path parameters, in path order.
pub open spec fn path_names(ps: Seq<Param>) -> Seq<Seq<char>> {
    ps.map_values(|p: Param| p.name@)
}

/// The types of the path parameters, in path order.
pub open spec fn path_types(ps: Seq<Param>) -> Seq<Seq<char>> {
    ps.map_values(|p: Param| type_text(p.ty))
}

/// The path extractor: none without path parameters, the bare value for one,
/// a tuple for several.
pub open spec fn path_extractor(ps: Seq<Param>) -> Seq<Seq<char>> {
    if ps.len() == 0 {
        Seq::empty()
    } else if ps.len() == 1 {
        seq!["axum::extract::Path("@ + ps[0].name@ + "): axum::extract::Path<"@ + type_text(ps[0].ty) + ">"@]
    } else {
        seq![
            "axum::extract::Path(("@ + join(path_names(ps), ", "@) + ")): axum::extract::Path<("@ + join(
                path_types(ps),
                ", "@,
            ) + ")>"@,
        ]
    }
}

/// The extractor of a request body: by its content kind for a single one,
/// the operation's own extractor type for a multipart or negotiated one.
pub open spec fn body_extractor(request: Option<RequestPayload>) -> Seq<Seq<char>> {
    match request {
        None => Seq::empty(),
        Some(RequestPayload::Single(body)) => match body.kind {
            BodyKind::Json => seq!["axum::Json(body): axum::Json<"@ + type_text(body.ty) + ">"@],
            BodyKind::Text => seq!["body: String"@],
            BodyKind::Form => seq!["axum::Form(body): axum::Form<"@ + type_text(body.ty) + ">"@],
            BodyKind::Multipart => Seq::empty(),
        },
        Some(RequestPayload::Multipart(m)) => seq!["body: "@ + m.name@],
        Some(RequestPayload::Negotiated(n)) => seq!["body: "@ + n.name@],
    }
}

/// The extractors of a handler, in order: the state, the path, the query,
/// the headers, the cookies, the body.
pub open spec fn handler_extractors(op: Operation) -> Seq<Seq<char>> {
    seq!["axum::extract::State(api): axum::extract::State<T>"@] + path_extractor(op.path_params@) + (match op.query {
        Some(q) => seq!["axum_extra::extract::Query(query): axum_extra::extract::Query<"@ + q.name@ + ">"@],
        None => Seq::empty(),
    }) + (match op.headers {
        Some(h) => seq!["headers: "@ + h.name@],
        None => Seq::empty(),
    }) + (match op.cookies {
        Some(c) => seq!["cookies: "@ + c.name@],
        None => Seq::empty(),
    }) + body_extractor(op.request)
}

/// What the handler hands the trait method, in the same order.
pub open spec fn handler_args(op: Operation) -> Seq<Seq<char>> {
    path_names(op.path_params@) + (if op.query is Some {
        seq!["query"@]
    } else {
        Seq::empty()
    }) + (if op.headers is Some {
        seq!["headers"@]
    } else {
        Seq::empty()
    }) + (if op.cookies is Some {
        seq!["cookies"@]
    } else {
        Seq::empty()
    }) + (if op.request is Some {
        seq!["body"@]
    } else {
        Seq::empty()
    })
}

/// The handler the router dispatches an operation to: it extracts each input
/// and awaits the trait method with them.
pub open spec fn handler_text(op: Operation, handler: Seq<char>, vis: HandlerVisibility) -> Seq<char> {
    visibility_text(vis) + "async fn "@ + handler + "<T: Api>("@ + join(handler_extractors(op), ", "@) + ") -> "@
        + op.response_enum@ + " {\n    api."@ + op.name@ + "("@ + join(handler_args(op), ", "@) + ").await\n}\n"@
}

/// The texts of a list of strings.
pub open spec fn texts(v: Seq<String>) -> Seq<Seq<char>> {
    v.map_values(|s: String| s@)
}

/// A string holding the concatenation of the given pieces.
fn text_of(a: &str, b: &str, c: &str) -> (r: String)
    ensures
        r@ == a@ + b@ + c@,
{
    let mut r = String::new();
    push_str(&mut r, a);
    push_str(&mut r, b);
    push_str(&mut r, c);
    assert(r@ =~= a@ + b@ + c@);
    r
}

/// Appends one text to a list of strings.
fn push_text(list: &mut Vec<String>, t: String)
    ensures
        texts(final(list)@) == texts(old(list)@).push(t@),
{
    list.push(t);
    assert(texts(list@) =~= texts(old(list)@).push(t@));
}

/// The path extractor of a handler.
fn push_path_extractor(list: &mut Vec<String>, ps: &Vec<Param>)
    ensures
        texts(final(list)@) == texts(old(list)@) + path_extractor(ps@),
{
    if ps.len() == 0 {
        assert(texts(list@) =~= texts(old(list)@) + path_extractor(ps@));
        return;
    }
    if ps.len() == 1 {
        let ty = crate::emit::render::emit_type(&ps[0].ty);
        let mut t = text_of("axum::extract::Path(", ps[0].name.logical(), "): axum::extract::Path<");
        push_str(&mut t, ty.as_str());
        push_str(&mut t, ">");
        push_text(list, t);
        assert(texts(list@) =~= texts(old(list)@) + path_extractor(ps@));
        return;
    }
    let mut names: Vec<String> = Vec::new();
    let mut types: Vec<String> = Vec::new();
    let mut i: usize = 0;
    while i < ps.len()
        invariant
            i <= ps@.len(),
            texts(names@) == path_names(ps@.take(i as int)),
            texts(types@) == path_types(ps@.take(i as int)),
        decreases ps@.len() - i,
    {
        push_text(&mut names, crate::text::owned(ps[i].name.logical()));
        let mut ty = String::new();
        push_type(&mut ty, &ps[i].ty);
        push_text(&mut types, ty);
        assert(path_names(ps@.take(i + 1)) =~= path_names(ps@.take(i as int)).push(ps@[i as int].name@));
        assert(path_types(ps@.take(i + 1)) =~= path_types(ps@.take(i as int)).push(type_text(ps@[i as int].ty)));
        i = i + 1;
    }
    assert(ps@.take(ps@.len() as int) =~= ps@);
    assert(names@.map_values(|s: String| s@) =~= texts(names@));
    assert(types@.map_values(|s: String| s@) =~= texts(types@));
    let name_list = join_strings(&names, ", ");
    let type_list = join_strings(&types, ", ");
    let mut t = text_of("axum::extract::Path((", name_list.as_str(), ")): axum::extract::Path<(");
    push_str(&mut t, type_list.as_str());
    push_str(&mut t, ")>");
    push_text(list, t);
    assert(texts(list@) =~= texts(old(list)@) + path_extractor(ps@));
}

/// Whether a request payload is a single multipart body, which a multipart
/// extractor carries and a body extractor never meets.
pub open spec fn single_multipart(request: Option<RequestPayload>) -> bool {
    request matches Some(RequestPayload::Single(body)) && body.kind == BodyKind::Multipart
}

/// The body extractor of a handler.
fn push_body_extractor(list: &mut Vec<String>, request: &Option<RequestPayload>)
    requires
        !single_multipart(*request),
    ensures
        texts(final(list)@) == texts(old(list)@) + body_extractor(*request),
{
    match request {
        None => {},
        Some(RequestPayload::Single(body)) => {
            let ty = crate::emit::render::emit_type(&body.ty);
            match body.kind {
                BodyKind::Json => push_text(list, text_of("axum::Json(body): axum::Json<", ty.as_str(), ">")),
                BodyKind::Text => push_text(list, crate::text::owned("body: String")),
                BodyKind::Form => push_text(list, text_of("axum::Form(body): axum::Form<", ty.as_str(), ">")),
                BodyKind::Multipart => {},
            }
        },
        Some(RequestPayload::Multipart(m)) => push_text(list, text_of("body: ", m.name.logical(), "")),
        Some(RequestPayload::Negotiated(n)) => push_text(list, text_of("body: ", n.name.logical(), "")),
    }
    proof {
        reveal_strlit("");
        assert(""@ =~= Seq::<char>::empty());
    }
    assert(texts(list@) =~= texts(old(list)@) + body_extractor(*request));
}

/// The extractors of a handler, as texts.
fn extractor_list(operation: &Operation) -> (list: Vec<String>)
    requires
        !single_multipart(operation.request),
    ensures
        texts(list@) == handler_extractors(*operation),
{
    proof {
        reveal_strlit("");
        assert(""@ =~= Seq::<char>::empty());
    }
    let mut extractors: Vec<String> = Vec::new();
    push_text(&mut extractors, crate::text::owned("axum::extract::State(api): axum::extract::State<T>"));
    push_path_extractor(&mut extractors, &operation.path_params);
    match &operation.query {
        Some(q) => push_text(
            &mut extractors,
            text_of("axum_extra::extract::Query(query): axum_extra::extract::Query<", q.name.logical(), ">"),
        ),
        None => {},
    }
    match &operation.headers {
        Some(h) => push_text(&mut extractors, text_of("headers: ", h.name.logical(), "")),
        None => {},
    }
    match &operation.cookies {
        Some(c) => push_text(&mut extractors, text_of("cookies: ", c.name.logical(), "")),
        None => {},
    }
    push_body_extractor(&mut extractors, &operation.request);
    assert(texts(extractors@) =~= handler_extractors(*operation));
    extractors
}

/// What a handler hands the trait method, as texts.
fn arg_list(operation: &Operation) -> (list: Vec<String>)
    ensures
        texts(list@) == handler_args(*operation),
{
    let mut args: Vec<String> = Vec::new();
    let mut i: usize = 0;
    while i < operation.path_params.len()
        invariant
            i <= operation.path_params@.len(),
            texts(args@) == path_names(operation.path_params@.take(i as int)),
        decreases operation.path_params@.len() - i,
    {
        push_text(&mut args, crate::text::owned(operation.path_params[i].name.logical()));
        assert(path_names(operation.path_params@.take(i + 1)) =~= path_names(operation.path_params@.take(i as int)).push(
            operation.path_params@[i as int].name@,
        ));
        i = i + 1;
    }
    assert(operation.path_params@.take(operation.path_params@.len() as int) =~= operation.path_params@);
    if operation.query.is_some() {
        push_text(&mut args, crate::text::owned("query"));
    }
    if operation.headers.is_some() {
        push_text(&mut args, crate::text::owned("headers"));
    }
    if operation.cookies.is_some() {
        push_text(&mut args, crate::text::owned("cookies"));
    }
    if operation.request.is_some() {
        push_text(&mut args, crate::text::owned("body"));
    }
    assert(texts(args@) =~= handler_args(*operation));
    args
}

/// The Rust source of the handler the router dispatches an operation to,
/// under the given handler name and visibility. A multipart body reaches the
/// handler through the operation's multipart extractor, so a single body of
/// that kind is not among the inputs.
#[verifier::spinoff_prover]
pub fn emit_handler(operation: &Operation, handler: &str, visibility: HandlerVisibility) -> (code: String)
    requires
        !single_multipart(operation.request),
    ensures
        code@ == handler_text(*operation, handler@, visibility),
{
    let extractors = extractor_list(operation);
    let args = arg_list(operation);
    assert(extractors@.map_values(|s: String| s@) =~= texts(extractors@));
    assert(args@.map_values(|s: String| s@) =~= texts(args@));
    let extractor_text = join_strings(&extractors, ", ");
    let arg_text = join_strings(&args, ", ");
    let mut out = String::new();
    match visibility {
        HandlerVisibility::Private => {},
        HandlerVisibility::Parent => push_str(&mut out, "pub(super) "),
    }
    push_str(&mut out, "async fn ");
    push_str(&mut out, handler);
    push_str(&mut out, "<T: Api>(");
    push_str(&mut out, extractor_text.as_str());
    push_str(&mut out, ") -> ");
    push_str(&mut out, operation.response_enum.logical());
    push_str(&mut out, " {\n    api.");
    push_str(&mut out, operation.name.logical());
    push_str(&mut out, "(");
    push_str(&mut out, arg_text.as_str());
    push_str(&mut out, ").await\n}\n");
    assert(out@ =~= handler_text(*operation, handler@, visibility));
    out
}

/// Lines of a doc comment at the given indent, one `///` line each; an
/// empty line is a bare `///`.
pub open spec fn doc_lines_text(lines: Seq<Seq<char>>, indent: Seq<char>) -> Seq<char>
    decreases lines.len(),
{
    if lines.len() == 0 {
        Seq::empty()
    } else {
        doc_lines_text(lines.drop_last(), indent) + indent + if lines.last().len() == 0 {
            "///\n"@
        } else {
            "/// "@ + doc_body(lines.last(), indent) + "\n"@
        }
    }
}

/// The typed arguments of a trait method, in order: the path parameters, the
/// query struct, the header struct, the cookie struct, the body.
pub open spec fn method_args(op: Operation) -> Seq<Seq<char>> {
    op.path_params@.map_values(|p: Param| p.name@ + ": "@ + type_text(p.ty)) + (match op.query {
        Some(q) => seq!["query: "@ + q.name@],
        None => Seq::empty(),
    }) + (match op.headers {
        Some(h) => seq!["headers: "@ + h.name@],
        None => Seq::empty(),
    }) + (match op.cookies {
        Some(c) => seq!["cookies: "@ + c.name@],
        None => Seq::empty(),
    }) + (match op.request {
        Some(RequestPayload::Single(body)) => seq!["body: "@ + type_text(body.ty)],
        Some(RequestPayload::Multipart(m)) => seq!["body: "@ + m.name@],
        Some(RequestPayload::Negotiated(n)) => seq!["body: "@ + n.name@],
        None => Seq::empty(),
    })
}

/// Each argument led by a comma, as it follows `&self`.
pub open spec fn led_args(args: Seq<Seq<char>>) -> Seq<char>
    decreases args.len(),
{
    if args.len() == 0 {
        Seq::empty()
    } else {
        led_args(args.drop_last()) + ", "@ + args.last()
    }
}

/// One method of the server trait: its doc (the operation's description and
/// the security the document names), and its signature.
pub open spec fn trait_method_text(op: Operation, schemes: Seq<SecurityScheme>) -> Seq<char> {
    doc_lines_text(method_doc_text(op, schemes), "    "@) + "    fn "@ + op.name@ + "(&self"@ + led_args(method_args(op))
        + ") -> impl std::future::Future<Output = "@ + op.response_enum@ + "> + Send;\n"@
}

/// The methods of the server trait, operation by operation.
pub open spec fn trait_methods_text(ops: Seq<Operation>, schemes: Seq<SecurityScheme>) -> Seq<char>
    decreases ops.len(),
{
    if ops.len() == 0 {
        Seq::empty()
    } else {
        trait_methods_text(ops.drop_last(), schemes) + trait_method_text(ops.last(), schemes)
    }
}

/// The server trait: one async method per operation.
pub open spec fn trait_text(service: Service) -> Seq<char> {
    "/// Server behaviour: implement one method per operation.\npub trait Api: Clone + Send + Sync + 'static {\n"@
        + trait_methods_text(service.operations@, service.security_schemes@) + "}\n"@
}

/// Appends lines of a doc comment at the given indent.
fn push_doc_lines(out: &mut String, lines: &Vec<String>, indent: &str)
    ensures
        final(out)@ == old(out)@ + doc_lines_text(views(lines@), indent@),
{
    let ghost start = out@;
    let mut i: usize = 0;
    while i < lines.len()
        invariant
            i <= lines@.len(),
            out@ == start + doc_lines_text(views(lines@.take(i as int)), indent@),
        decreases lines@.len() - i,
    {
        push_str(out, indent);
        if crate::text::chars_of(lines[i].as_str()).len() == 0 {
            push_str(out, "///\n");
        } else {
            push_str(out, "/// ");
            push_doc_body(out, lines[i].as_str(), indent);
            push_str(out, "\n");
        }
        assert(views(lines@.take(i + 1)).drop_last() =~= views(lines@.take(i as int)));
        assert(views(lines@.take(i + 1)).last() == lines@[i as int]@);
        assert(out@ =~= start + doc_lines_text(views(lines@.take(i + 1)), indent@));
        i = i + 1;
    }
    assert(lines@.take(lines@.len() as int) =~= lines@);
}

/// The typed arguments of a trait method, as texts.
fn method_arg_list(op: &Operation) -> (list: Vec<String>)
    ensures
        texts(list@) == method_args(*op),
{
    let ghost path = op.path_params@.map_values(|p: Param| p.name@ + ": "@ + type_text(p.ty));
    let mut list: Vec<String> = Vec::new();
    let mut i: usize = 0;
    while i < op.path_params.len()
        invariant
            i <= op.path_params@.len(),
            path == op.path_params@.map_values(|p: Param| p.name@ + ": "@ + type_text(p.ty)),
            texts(list@) == path.take(i as int),
        decreases op.path_params@.len() - i,
    {
        let ty = crate::emit::render::emit_type(&op.path_params[i].ty);
        push_text(&mut list, text_of(op.path_params[i].name.logical(), ": ", ty.as_str()));
        assert(path.take(i + 1) =~= path.take(i as int).push(path[i as int]));
        i = i + 1;
    }
    assert(path.take(path.len() as int) =~= path);
    proof {
        reveal_strlit("");
        assert(""@ =~= Seq::<char>::empty());
    }
    match &op.query {
        Some(q) => push_text(&mut list, text_of("query: ", q.name.logical(), "")),
        None => {},
    }
    match &op.headers {
        Some(h) => push_text(&mut list, text_of("headers: ", h.name.logical(), "")),
        None => {},
    }
    match &op.cookies {
        Some(c) => push_text(&mut list, text_of("cookies: ", c.name.logical(), "")),
        None => {},
    }
    match &op.request {
        Some(RequestPayload::Single(body)) => {
            let ty = crate::emit::render::emit_type(&body.ty);
            push_text(&mut list, text_of("body: ", ty.as_str(), ""));
        },
        Some(RequestPayload::Multipart(m)) => push_text(&mut list, text_of("body: ", m.name.logical(), "")),
        Some(RequestPayload::Negotiated(n)) => push_text(&mut list, text_of("body: ", n.name.logical(), "")),
        None => {},
    }
    assert(texts(list@) =~= method_args(*op));
    list
}

/// Appends each argument of a trait method, led by a comma.
fn push_method_args(out: &mut String, op: &Operation)
    ensures
        final(out)@ == old(out)@ + led_args(method_args(*op)),
{
    let ghost start = out@;
    let args = method_arg_list(op);
    let mut i: usize = 0;
    while i < args.len()
        invariant
            i <= args@.len(),
            out@ == start + led_args(texts(args@).take(i as int)),
        decreases args@.len() - i,
    {
        push_str(out, ", ");
        push_str(out, args[i].as_str());
        assert(texts(args@).take(i + 1).drop_last() =~= texts(args@).take(i as int));
        assert(out@ =~= start + led_args(texts(args@).take(i + 1)));
        i = i + 1;
    }
    assert(texts(args@).take(args@.len() as int) =~= texts(args@));
}

/// Appends one method of the server trait.
fn push_trait_method(out: &mut String, op: &Operation, schemes: &Vec<SecurityScheme>)
    ensures
        final(out)@ == old(out)@ + trait_method_text(*op, schemes@),
{
    let ghost start = out@;
    let lines = method_doc_lines(op, schemes);
    push_doc_lines(out, &lines, "    ");
    push_str(out, "    fn ");
    push_str(out, op.name.logical());
    push_str(out, "(&self");
    push_method_args(out, op);
    push_str(out, ") -> impl std::future::Future<Output = ");
    push_str(out, op.response_enum.logical());
    push_str(out, "> + Send;\n");
    assert(out@ =~= start + trait_method_text(*op, schemes@));
}

/// The Rust source of the server trait: one async method per operation, each
/// documented with the security the document names for it.
pub fn emit_trait(service: &Service) -> (code: String)
    ensures
        code@ == trait_text(*service),
{
    let mut out = String::new();
    push_str(&mut out, "/// Server behaviour: implement one method per operation.\npub trait Api: Clone + Send + Sync + 'static {\n");
    let ghost head = out@;
    let mut i: usize = 0;
    while i < service.operations.len()
        invariant
            i <= service.operations@.len(),
            out@ == head + trait_methods_text(service.operations@.take(i as int), service.security_schemes@),
        decreases service.operations@.len() - i,
    {
        push_trait_method(&mut out, &service.operations[i], &service.security_schemes);
        assert(service.operations@.take(i + 1).drop_last() =~= service.operations@.take(i as int));
        assert(out@ =~= head + trait_methods_text(service.operations@.take(i + 1), service.security_schemes@));
        i = i + 1;
    }
    assert(service.operations@.take(service.operations@.len() as int) =~= service.operations@);
    push_str(&mut out, "}\n");
    assert(out@ =~= trait_text(*service));
    out
}

/// Each argument a handler passes names the trait-method parameter at the
/// same place: the parameter reads as the argument, `: `, then its type.
pub open spec fn args_agree(passed: Seq<Seq<char>>, params: Seq<Seq<char>>) -> bool {
    &&& passed.len() == params.len()
    &&& forall|i: int| 0 <= i < passed.len() ==> has_prefix(#[trigger] params[i], passed[i] + ": "@)
}

/// Agreement carries over a concatenation.
proof fn lemma_args_agree_concat(a: Seq<Seq<char>>, b: Seq<Seq<char>>, c: Seq<Seq<char>>, d: Seq<Seq<char>>)
    requires
        args_agree(a, b),
        args_agree(c, d),
    ensures
        args_agree(a + c, b + d),
{
    assert forall|i: int| 0 <= i < (a + c).len() implies has_prefix(#[trigger] (b + d)[i], (a + c)[i] + ": "@) by {
        if i < a.len() {
            assert((b + d)[i] == b[i]);
            assert((a + c)[i] == a[i]);
        } else {
            assert((b + d)[i] == d[i - a.len()]);
            assert((a + c)[i] == c[i - a.len()]);
        }
    }
}

/// A text that starts with `a` then `: ` has that prefix.
proof fn lemma_led_by(a: Seq<char>, rest: Seq<char>)
    ensures
        has_prefix(a + ": "@ + rest, a + ": "@),
{
    assert((a + ": "@ + rest).subrange(0, (a + ": "@).len() as int) =~= a + ": "@);
}

/// One named argument agrees with a parameter written as the name, `: `
/// and a type name.
proof fn lemma_one_agrees(word: Seq<char>, led: Seq<char>, ty: Seq<char>)
    requires
        led == word + ": "@,
    ensures
        args_agree(seq![word], seq![led + ty]),
{
    lemma_led_by(word, ty);
    assert(seq![led + ty][0] == word + ": "@ + ty);
}

/// The arguments a handler passes to the trait method are its parameters,
/// one to one and in order: the path parameters, then the query, the
/// headers, the cookies and the body, each where the operation declares it.
pub proof fn handlers_pass_what_the_trait_takes(op: Operation)
    ensures
        handler_args(op).len() == method_args(op).len(),
        forall|i: int|
            0 <= i < handler_args(op).len() ==> has_prefix(#[trigger] method_args(op)[i], handler_args(op)[i] + ": "@),
{
    reveal_strlit("query");
    reveal_strlit("query: ");
    reveal_strlit("headers");
    reveal_strlit("headers: ");
    reveal_strlit("cookies");
    reveal_strlit("cookies: ");
    reveal_strlit("body");
    reveal_strlit("body: ");
    reveal_strlit(": ");
    let ps = op.path_params@;
    let pn = path_names(ps);
    let pm = ps.map_values(|p: Param| p.name@ + ": "@ + type_text(p.ty));
    assert forall|i: int| 0 <= i < pn.len() implies has_prefix(#[trigger] pm[i], pn[i] + ": "@) by {
        lemma_led_by(ps[i].name@, type_text(ps[i].ty));
    }
    assert(args_agree(pn, pm));
    let qa: Seq<Seq<char>> = if op.query is Some { seq!["query"@] } else { Seq::empty() };
    let qm: Seq<Seq<char>> = match op.query {
        Some(q) => seq!["query: "@ + q.name@],
        None => Seq::empty(),
    };
    match op.query {
        Some(q) => {
            assert("query: "@ =~= "query"@ + ": "@);
            lemma_one_agrees("query"@, "query: "@, q.name@);
        },
        None => {},
    }
    let ha: Seq<Seq<char>> = if op.headers is Some { seq!["headers"@] } else { Seq::empty() };
    let hm: Seq<Seq<char>> = match op.headers {
        Some(h) => seq!["headers: "@ + h.name@],
        None => Seq::empty(),
    };
    match op.headers {
        Some(h) => {
            assert("headers: "@ =~= "headers"@ + ": "@);
            lemma_one_agrees("headers"@, "headers: "@, h.name@);
        },
        None => {},
    }
    let ca: Seq<Seq<char>> = if op.cookies is Some { seq!["cookies"@] } else { Seq::empty() };
    let cm: Seq<Seq<char>> = match op.cookies {
        Some(c) => seq!["cookies: "@ + c.name@],
        None => Seq::empty(),
    };
    match op.cookies {
        Some(c) => {
            assert("cookies: "@ =~= "cookies"@ + ": "@);
            lemma_one_agrees("cookies"@, "cookies: "@, c.name@);
        },
        None => {},
    }
    let ba: Seq<Seq<char>> = if op.request is Some { seq!["body"@] } else { Seq::empty() };
    let bm: Seq<Seq<char>> = match op.request {
        Some(RequestPayload::Single(body)) => seq!["body: "@ + type_text(body.ty)],
        Some(RequestPayload::Multipart(m)) => seq!["body: "@ + m.name@],
        Some(RequestPayload::Negotiated(n)) => seq!["body: "@ + n.name@],
        None => Seq::empty(),
    };
    assert("body: "@ =~= "body"@ + ": "@);
    match op.request {
        Some(RequestPayload::Single(body)) => lemma_one_agrees("body"@, "body: "@, type_text(body.ty)),
        Some(RequestPayload::Multipart(m)) => lemma_one_agrees("body"@, "body: "@, m.name@),
        Some(RequestPayload::Negotiated(n)) => lemma_one_agrees("body"@, "body: "@, n.name@),
        None => {},
    }
    lemma_args_agree_concat(pn, pm, qa, qm);
    lemma_args_agree_concat(pn + qa, pm + qm, ha, hm);
    lemma_args_agree_concat(pn + qa + ha, pm + qm + hm, ca, cm);
    lemma_args_agree_concat(pn + qa + ha + ca, pm + qm + hm + cm, ba, bm);
    assert(handler_args(op) =~= pn + qa + ha + ca + ba);
    assert(method_args(op) =~= pm + qm + hm + cm + bm);
}

} // verus!
