//! The instruction registry: stable keys for the instruction catalog, and
//! the verified synthesis of each instruction's context text.
//!
//! The catalog's template texts are opaque collaborator data; what is
//! verified here is which instruction a stage asks for and exactly what
//! context text it sends along.

use vstd::prelude::*;
use crate::agent_traits::{FactSheet, ProjectScope, RouteObject};
use crate::frontend_developer::SitePages;

verus! {

/// Stable identifier of one template in the instruction catalog, named
/// after the text-producing template it selects.
#[derive(Debug, Clone, Copy, PartialEq, Eq, Structural)]
pub enum InstructionKey {
    ConvertUserInputToGoal,
    PrintProjectScope,
    PrintSiteUrls,
    PrintBackendWebserverCode,
    PrintImprovedWebserverCode,
    PrintFixedCode,
    PrintRestApiEndpoints,
    PrintRecommendedSitePages,
    PrintRecommendedSitePagesWithApis,
    PrintRecommendedSiteMainColours,
    PrintSvgLogo,
    PrintCompletedLogoWithBrandNameReactComponent,
    PrintHeaderNavigationReactComponent,
    PrintFooterNavigationReactComponent,
    PrintReactTypescriptHookComponent,
    CreateFrontendWebsitePageContent,
    PrintCodeBugsResolution,
}

// ---------------------------------------------------------------------------
// Small renderers shared by the context builders.
// ---------------------------------------------------------------------------

/// Text of a boolean flag.
pub open spec fn spec_render_bool(b: bool) -> Seq<char> {
    if b {
        "true"@
    } else {
        "false"@
    }
}

/// Executable form of `spec_render_bool`.
pub fn render_bool(b: bool) -> (r: String)
    ensures
        r@ == spec_render_bool(b),
{
    if b {
        String::from_str("true")
    } else {
        String::from_str("false")
    }
}

/// A text wrapped in double quotes.
pub open spec fn spec_quoted(s: Seq<char>) -> Seq<char> {
    "\""@ + s + "\""@
}

/// Executable form of `spec_quoted`.
pub fn render_quoted(s: &str) -> (r: String)
    ensures
        r@ == spec_quoted(s@),
{
    String::from_str("\"").concat(s).concat("\"")
}

/// The comma-separated body of a rendered list of quoted texts.
pub open spec fn spec_str_list_body(items: Seq<Seq<char>>) -> Seq<char>
    decreases items.len(),
{
    if items.len() == 0 {
        Seq::<char>::empty()
    } else if items.len() == 1 {
        spec_quoted(items[0])
    } else {
        spec_str_list_body(items.drop_last()) + ", "@ + spec_quoted(items.last())
    }
}

/// A bracketed, comma-separated list of quoted texts.
pub open spec fn spec_render_str_list(items: Seq<Seq<char>>) -> Seq<char> {
    "["@ + spec_str_list_body(items) + "]"@
}

/// Renders a list of texts as a bracketed, quoted, comma-separated list.
pub fn render_str_list(items: &Vec<String>) -> (r: String)
    ensures
        r@ == spec_render_str_list(items@.map_values(|s: String| s@)),
{
    let ghost m: Seq<Seq<char>> = items@.map_values(|s: String| s@);
    let mut body: String = String::new();
    let mut i: usize = 0;
    while i < items.len()
        invariant
            i <= m.len(),
            m.len() == items@.len(),
            forall|j: int| 0 <= j < m.len() ==> m[j] == items@[j]@,
            body@ == spec_str_list_body(m.take(i as int)),
        decreases m.len() - i,
    {
        if i > 0 {
            body.append(", ");
        }
        body.append("\"");
        body.append(items[i].as_str());
        body.append("\"");
        proof {
            assert(m.take(i + 1).drop_last() =~= m.take(i as int));
            assert(m.take(i + 1).last() == m[i as int]);
            assert(body@ == spec_str_list_body(m.take(i + 1)));
        }
        i = i + 1;
    }
    proof {
        assert(m.take(m.len() as int) =~= m);
    }
    let mut r: String = String::from_str("[");
    r.append(body.as_str());
    r.append("]");
    r
}

/// One route of the schema rendered for a context text.
pub open spec fn spec_render_route(r: RouteObject) -> Seq<char> {
    "{ \"route\": \""@ + r.route@ + "\", \"method\": \""@ + r.method@
        + "\", \"is_route_dynamic\": \""@ + r.is_route_dynamic@ + "\", \"request_body\": "@
        + r.request_body@ + ", \"response\": "@ + r.response@ + " }"@
}

/// Executable form of `spec_render_route`.
pub fn render_route(r: &RouteObject) -> (out: String)
    ensures
        out@ == spec_render_route(*r),
{
    String::from_str("{ \"route\": \"").concat(r.route.as_str()).concat("\", \"method\": \"")
        .concat(r.method.as_str()).concat("\", \"is_route_dynamic\": \"").concat(
        r.is_route_dynamic.as_str(),
    ).concat("\", \"request_body\": ").concat(r.request_body.as_str()).concat(", \"response\": ")
        .concat(r.response.as_str()).concat(" }")
}

/// The comma-separated body of a rendered route schema.
pub open spec fn spec_route_list_body(items: Seq<RouteObject>) -> Seq<char>
    decreases items.len(),
{
    if items.len() == 0 {
        Seq::<char>::empty()
    } else if items.len() == 1 {
        spec_render_route(items[0])
    } else {
        spec_route_list_body(items.drop_last()) + ", "@ + spec_render_route(items.last())
    }
}

/// A bracketed rendering of a whole route schema.
pub open spec fn spec_render_routes(items: Seq<RouteObject>) -> Seq<char> {
    "["@ + spec_route_list_body(items) + "]"@
}

/// Renders a route schema as a bracketed, comma-separated list.
pub fn render_routes(items: &Vec<RouteObject>) -> (r: String)
    ensures
        r@ == spec_render_routes(items@),
{
    let mut body: String = String::new();
    let mut i: usize = 0;
    while i < items.len()
        invariant
            i <= items@.len(),
            body@ == spec_route_list_body(items@.take(i as int)),
        decreases items@.len() - i,
    {
        if i > 0 {
            body.append(", ");
        }
        let rendered: String = render_route(&items[i]);
        body.append(rendered.as_str());
        proof {
            assert(items@.take(i + 1).drop_last() =~= items@.take(i as int));
            assert(items@.take(i + 1).last() == items@[i as int]);
            assert(body@ == spec_route_list_body(items@.take(i + 1)));
        }
        i = i + 1;
    }
    proof {
        assert(items@.take(items@.len() as int) =~= items@);
    }
    let mut r: String = String::from_str("[");
    r.append(body.as_str());
    r.append("]");
    r
}

/// One recommended page rendered for a context text.
pub open spec fn spec_render_site_page(p: SitePages) -> Seq<char> {
    "{ \"page_name\": \""@ + p.page_name@ + "\", \"suggested_content_sections\": "@
        + p.suggested_content_sections@ + " }"@
}

/// Executable form of `spec_render_site_page`.
pub fn render_site_page(p: &SitePages) -> (out: String)
    ensures
        out@ == spec_render_site_page(*p),
{
    String::from_str("{ \"page_name\": \"").concat(p.page_name.as_str()).concat(
        "\", \"suggested_content_sections\": ",
    ).concat(p.suggested_content_sections.as_str()).concat(" }")
}

/// The comma-separated body of a rendered page list.
pub open spec fn spec_site_page_list_body(items: Seq<SitePages>) -> Seq<char>
    decreases items.len(),
{
    if items.len() == 0 {
        Seq::<char>::empty()
    } else if items.len() == 1 {
        spec_render_site_page(items[0])
    } else {
        spec_site_page_list_body(items.drop_last()) + ", "@ + spec_render_site_page(items.last())
    }
}

/// A bracketed rendering of the recommended pages.
pub open spec fn spec_render_site_pages(items: Seq<SitePages>) -> Seq<char> {
    "["@ + spec_site_page_list_body(items) + "]"@
}

/// Renders the recommended pages as a bracketed, comma-separated list.
pub fn render_site_pages(items: &Vec<SitePages>) -> (r: String)
    ensures
        r@ == spec_render_site_pages(items@),
{
    let mut body: String = String::new();
    let mut i: usize = 0;
    while i < items.len()
        invariant
            i <= items@.len(),
            body@ == spec_site_page_list_body(items@.take(i as int)),
        decreases items@.len() - i,
    {
        if i > 0 {
            body.append(", ");
        }
        let rendered: String = render_site_page(&items[i]);
        body.append(rendered.as_str());
        proof {
            assert(items@.take(i + 1).drop_last() =~= items@.take(i as int));
            assert(items@.take(i + 1).last() == items@[i as int]);
            assert(body@ == spec_site_page_list_body(items@.take(i + 1)));
        }
        i = i + 1;
    }
    proof {
        assert(items@.take(items@.len() as int) =~= items@);
    }
    let mut r: String = String::from_str("[");
    r.append(body.as_str());
    r.append("]");
    r
}

/// The scope flags rendered for a context text.
pub open spec fn spec_render_scope(scope: ProjectScope) -> Seq<char> {
    "{ \"is_crud_required\": "@ + spec_render_bool(scope.is_crud_required)
        + ", \"is_user_login_and_logout\": "@ + spec_render_bool(scope.is_user_login_and_logout)
        + ", \"is_external_urls_required\": "@ + spec_render_bool(scope.is_external_urls_required)
        + " }"@
}

/// Executable form of `spec_render_scope`.
pub fn render_scope(scope: ProjectScope) -> (r: String)
    ensures
        r@ == spec_render_scope(scope),
{
    let crud: String = render_bool(scope.is_crud_required);
    let login: String = render_bool(scope.is_user_login_and_logout);
    let external: String = render_bool(scope.is_external_urls_required);
    String::from_str("{ \"is_crud_required\": ").concat(crud.as_str()).concat(
        ", \"is_user_login_and_logout\": ",
    ).concat(login.as_str()).concat(", \"is_external_urls_required\": ").concat(external.as_str())
        .concat(" }")
}

/// The record summary sent with the improve instruction: the description,
/// the scope and the surviving external URLs. The record's other two
/// fields are deliberately left out: the current backend code already
/// travels as the instruction's CODE_TEMPLATE part, and the route schema
/// is never set before the improve call runs.
pub open spec fn spec_render_record_summary(fs: FactSheet) -> Seq<char> {
    "{ \"project_description\": "@ + spec_quoted(fs.project_description@)
        + ", \"project_scope\": "@ + (match fs.project_scope {
        Some(scope) => spec_render_scope(scope),
        None => "null"@,
    }) + ", \"external_urls\": "@ + (match fs.external_urls {
        Some(urls) => spec_render_str_list(urls@.map_values(|s: String| s@)),
        None => "null"@,
    }) + " }"@
}

/// Executable form of `spec_render_record_summary`.
pub fn render_record_summary(fs: &FactSheet) -> (r: String)
    ensures
        r@ == spec_render_record_summary(*fs),
{
    let quoted_description: String = render_quoted(fs.project_description.as_str());
    let scope_text: String = match &fs.project_scope {
        Some(scope) => render_scope(*scope),
        None => String::from_str("null"),
    };
    let urls_text: String = match &fs.external_urls {
        Some(urls) => render_str_list(urls),
        None => String::from_str("null"),
    };
    String::from_str("{ \"project_description\": ").concat(quoted_description.as_str()).concat(
        ", \"project_scope\": ",
    ).concat(scope_text.as_str()).concat(", \"external_urls\": ").concat(urls_text.as_str()).concat(
        " }",
    )
}

// ---------------------------------------------------------------------------
// Context builders: exactly what each instruction sends along.
// ---------------------------------------------------------------------------

/// The exclusion clause added when the project will use external data: the
/// generated webserver itself stays a pure CRUD server.
pub open spec fn spec_clause_ignore_external() -> Seq<char> {
    " IMPORTANT IGNORE EXTERNAL DATA: Even though the PROJECT_DESCRIPTION will connect with external vendors for data, you do not need to write any code linking to external data APIS. This webserver purely deals with CRUD operations."@
}

/// The exclusion clause added when no login capability is required.
pub open spec fn spec_clause_ignore_login() -> Seq<char> {
    " IMPORTANT IGNORE USER REGISTRATION AND LOGIN: Even though the CODE_TEMPLATE shows how to manage User credentials, you can REMOVE this functionality from your code and just use the basic CRUD operations as shown."@
}

/// The exclusion clause added when no CRUD capability is required.
pub open spec fn spec_clause_ignore_crud() -> Seq<char> {
    " IMPORTANT IGNORE CRUD: Even though the CODE_TEMPLATE shows how to use CRUD, you can REMOVE this functionality from your code and just use the basic User Registration and Login operations as shown."@
}

/// The demand appended to every instruction whose only acceptable output is
/// source code.
pub open spec fn spec_code_only_demand() -> Seq<char> {
    ". THIS FUNCTION ONLY OUTPUTS CODE. JUST OUTPUT THE CODE."@
}

/// Context of the initial backend-code instruction: the starter template,
/// the description, and the exclusion clauses the scope flags call for.
pub open spec fn spec_initial_backend_context(
    template: Seq<char>,
    description: Seq<char>,
    scope: ProjectScope,
) -> Seq<char> {
    "CODE_TEMPLATE: "@ + template + "\nPROJECT_DESCRIPTION: "@ + description + "\n"@ + (
    if scope.is_external_urls_required {
        spec_clause_ignore_external()
    } else {
        Seq::<char>::empty()
    }) + (if !scope.is_user_login_and_logout {
        spec_clause_ignore_login()
    } else {
        Seq::<char>::empty()
    }) + (if !scope.is_crud_required {
        spec_clause_ignore_crud()
    } else {
        Seq::<char>::empty()
    })
}

/// Builds the initial backend-code context.
pub fn initial_backend_context(template: &str, description: &str, scope: ProjectScope) -> (r:
    String)
    ensures
        r@ == spec_initial_backend_context(template@, description@, scope),
{
    let mut r: String = String::from_str("CODE_TEMPLATE: ").concat(template).concat(
        "\nPROJECT_DESCRIPTION: ",
    ).concat(description).concat("\n");
    if scope.is_external_urls_required {
        r.append(
            " IMPORTANT IGNORE EXTERNAL DATA: Even though the PROJECT_DESCRIPTION will connect with external vendors for data, you do not need to write any code linking to external data APIS. This webserver purely deals with CRUD operations.",
        );
    }
    if !scope.is_user_login_and_logout {
        r.append(
            " IMPORTANT IGNORE USER REGISTRATION AND LOGIN: Even though the CODE_TEMPLATE shows how to manage User credentials, you can REMOVE this functionality from your code and just use the basic CRUD operations as shown.",
        );
    }
    if !scope.is_crud_required {
        r.append(
            " IMPORTANT IGNORE CRUD: Even though the CODE_TEMPLATE shows how to use CRUD, you can REMOVE this functionality from your code and just use the basic User Registration and Login operations as shown.",
        );
    }
    r
}

/// Context of the improve instruction: the current backend code and the
/// record summary, with the code-only demand.
pub open spec fn spec_improve_context(code: Seq<char>, fs: FactSheet) -> Seq<char> {
    "CODE_TEMPLATE: "@ + code + ", PROJECT_DESCRIPTION: "@ + spec_render_record_summary(fs)
        + spec_code_only_demand()
}

/// Builds the improve-code context.
pub fn improve_context(code: &str, fs: &FactSheet) -> (r: String)
    ensures
        r@ == spec_improve_context(code@, *fs),
{
    let summary: String = render_record_summary(fs);
    String::from_str("CODE_TEMPLATE: ").concat(code).concat(", PROJECT_DESCRIPTION: ").concat(
        summary.as_str(),
    ).concat(". THIS FUNCTION ONLY OUTPUTS CODE. JUST OUTPUT THE CODE.")
}

/// Context of the fix instruction: the broken code and the captured
/// diagnostics, with the code-only demand.
pub open spec fn spec_fix_context(code: Seq<char>, diagnostics: Seq<char>) -> Seq<char> {
    "BROKEN_CODE: "@ + code + ", ERROR_BUGS: "@ + diagnostics + spec_code_only_demand()
}

/// Builds the fix-bugs context.
pub fn fix_context(code: &str, diagnostics: &str) -> (r: String)
    ensures
        r@ == spec_fix_context(code@, diagnostics@),
{
    String::from_str("BROKEN_CODE: ").concat(code).concat(", ERROR_BUGS: ").concat(
        diagnostics,
    ).concat(". THIS FUNCTION ONLY OUTPUTS CODE. JUST OUTPUT THE CODE.")
}

/// Context of the route-schema extraction: the backend source as read back
/// from durable storage.
pub open spec fn spec_extract_context(code: Seq<char>) -> Seq<char> {
    "CODE_INPUT: "@ + code
}

/// Builds the route-schema extraction context.
pub fn extract_context(code: &str) -> (r: String)
    ensures
        r@ == spec_extract_context(code@),
{
    String::from_str("CODE_INPUT: ").concat(code)
}

/// Context of the scope classification: the quoted project description.
pub open spec fn spec_scope_query_context(description: Seq<char>) -> Seq<char> {
    spec_quoted(description)
}

/// Builds the scope classification context.
pub fn scope_query_context(description: &str) -> (r: String)
    ensures
        r@ == spec_scope_query_context(description@),
{
    render_quoted(description)
}

/// Context of the page recommendation call: the description and the
/// generated backend code.
pub open spec fn spec_site_pages_context(description: Seq<char>, code: Seq<char>) -> Seq<char> {
    "PROJECT_DESCRIPTION: "@ + spec_quoted(description) + ", CODE_LOGIC: "@ + spec_quoted(code)
}

/// Builds the page recommendation context.
pub fn site_pages_context(description: &str, code: &str) -> (r: String)
    ensures
        r@ == spec_site_pages_context(description@, code@),
{
    let qd: String = render_quoted(description);
    let qc: String = render_quoted(code);
    String::from_str("PROJECT_DESCRIPTION: ").concat(qd.as_str()).concat(", CODE_LOGIC: ").concat(
        qc.as_str(),
    )
}

/// Context of the route-assignment call: description, page list, the
/// persisted internal route schema, and the surviving external URLs (empty
/// text when none were gathered).
pub open spec fn spec_route_assign_context(
    description: Seq<char>,
    pages: Seq<Seq<char>>,
    schema: Seq<RouteObject>,
    external_urls: Option<Seq<Seq<char>>>,
) -> Seq<char> {
    "WEBSITE SPECIFICATION: { PROJECT_DESCRIPTION: "@ + description + ", PAGES: "@
        + spec_render_str_list(pages) + ", INTERNAL_API_ROUTES: "@ + spec_render_routes(schema)
        + ", EXTERNAL_API_ROUTES: "@ + (match external_urls {
        Some(urls) => spec_render_str_list(urls),
        None => Seq::<char>::empty(),
    }) + " }"@
}

/// Builds the route-assignment context.
pub fn route_assign_context(
    description: &str,
    pages: &Vec<String>,
    schema: &Vec<RouteObject>,
    external_urls: &Option<Vec<String>>,
) -> (r: String)
    ensures
        r@ == spec_route_assign_context(
            description@,
            pages@.map_values(|s: String| s@),
            schema@,
            match *external_urls {
                Some(urls) => Some(urls@.map_values(|s: String| s@)),
                None => None,
            },
        ),
{
    let pages_text: String = render_str_list(pages);
    let schema_text: String = render_routes(schema);
    let external_text: String = match external_urls {
        Some(urls) => render_str_list(urls),
        None => String::new(),
    };
    String::from_str("WEBSITE SPECIFICATION: { PROJECT_DESCRIPTION: ").concat(description).concat(
        ", PAGES: ",
    ).concat(pages_text.as_str()).concat(", INTERNAL_API_ROUTES: ").concat(
        schema_text.as_str(),
    ).concat(", EXTERNAL_API_ROUTES: ").concat(external_text.as_str()).concat(" }")
}

/// Context of the brand-colour call: the description and the recommended
/// pages with their suggested content.
pub open spec fn spec_colours_context(description: Seq<char>, pages: Seq<SitePages>) -> Seq<char> {
    "PROJECT_DESCRIPTION: "@ + description + ", WEBSITE_CONTENT: "@ + spec_render_site_pages(pages)
}

/// Builds the brand-colour context.
pub fn colours_context(description: &str, pages: &Vec<SitePages>) -> (r: String)
    ensures
        r@ == spec_colours_context(description@, pages@),
{
    let pages_text: String = render_site_pages(pages);
    String::from_str("PROJECT_DESCRIPTION: ").concat(description).concat(
        ", WEBSITE_CONTENT: ",
    ).concat(pages_text.as_str())
}

/// Context of the icon call: the description and the brand colours.
pub open spec fn spec_svg_logo_context(description: Seq<char>, colours: Seq<Seq<char>>) -> Seq<
    char,
> {
    "PROJECT_DESCRIPTION: "@ + description + ", BRAND_COLOURS: "@ + spec_render_str_list(colours)
}

/// Builds the icon context.
pub fn svg_logo_context(description: &str, colours: &Vec<String>) -> (r: String)
    ensures
        r@ == spec_svg_logo_context(description@, colours@.map_values(|s: String| s@)),
{
    let colours_text: String = render_str_list(colours);
    String::from_str("PROJECT_DESCRIPTION: ").concat(description).concat(
        ", BRAND_COLOURS: ",
    ).concat(colours_text.as_str())
}

/// Context of the logo wrapper call: the produced icon and the page list.
pub open spec fn spec_logo_wrapper_context(svg: Seq<char>, pages: Seq<Seq<char>>) -> Seq<char> {
    "WEBSITE SPECIFICATION: { SVG_LOGO: "@ + svg + ", PAGES: "@ + spec_render_str_list(pages)
        + " }"@
}

/// Builds the logo wrapper context.
pub fn logo_wrapper_context(svg: &str, pages: &Vec<String>) -> (r: String)
    ensures
        r@ == spec_logo_wrapper_context(svg@, pages@.map_values(|s: String| s@)),
{
    let pages_text: String = render_str_list(pages);
    String::from_str("WEBSITE SPECIFICATION: { SVG_LOGO: ").concat(svg).concat(", PAGES: ").concat(
        pages_text.as_str(),
    ).concat(" }")
}

/// Context of the navigation calls: description, the pages that need
/// links, and the colour scheme.
pub open spec fn spec_navigation_context(
    description: Seq<char>,
    pages: Seq<Seq<char>>,
    colours: Seq<Seq<char>>,
) -> Seq<char> {
    "WEBSITE_SPECIFICATION: { PROJECT_DESCRIPTION: "@ + description + ", PAGES_WHICH_NEED_LINKS: "@
        + spec_render_str_list(pages) + ", COLOUR_SCHEME: "@ + spec_render_str_list(colours)
        + " }"@
}

/// Builds a navigation (header or footer) context.
pub fn navigation_context(description: &str, pages: &Vec<String>, colours: &Vec<String>) -> (r:
    String)
    ensures
        r@ == spec_navigation_context(
            description@,
            pages@.map_values(|s: String| s@),
            colours@.map_values(|s: String| s@),
        ),
{
    let pages_text: String = render_str_list(pages);
    let colours_text: String = render_str_list(colours);
    String::from_str("WEBSITE_SPECIFICATION: { PROJECT_DESCRIPTION: ").concat(description).concat(
        ", PAGES_WHICH_NEED_LINKS: ",
    ).concat(pages_text.as_str()).concat(", COLOUR_SCHEME: ").concat(colours_text.as_str()).concat(
        " }",
    )
}

/// Context of the data-fetch hook call: the full persisted route schema.
pub open spec fn spec_hook_context(schema: Seq<RouteObject>) -> Seq<char> {
    "API_ENDPOINTS_JSON_SCHEMA: "@ + spec_render_routes(schema)
}

/// Builds the data-fetch hook context.
pub fn hook_context(schema: &Vec<RouteObject>) -> (r: String)
    ensures
        r@ == spec_hook_context(schema@),
{
    let schema_text: String = render_routes(schema);
    String::from_str("API_ENDPOINTS_JSON_SCHEMA: ").concat(schema_text.as_str())
}

/// Context of a per-page content call: the page, its suggested content and
/// the description.
pub open spec fn spec_page_content_context(
    page_name: Seq<char>,
    sections: Seq<char>,
    description: Seq<char>,
) -> Seq<char> {
    "PAGE_NAME: "@ + page_name + ", PROJECT_DESCRIPTION: "@ + description
        + ", SUGGESTED_CONTENT_SECTIONS: "@ + sections
}

/// Builds a per-page content context.
pub fn page_content_context(page_name: &str, sections: &str, description: &str) -> (r: String)
    ensures
        r@ == spec_page_content_context(page_name@, sections@, description@),
{
    String::from_str("PAGE_NAME: ").concat(page_name).concat(", PROJECT_DESCRIPTION: ").concat(
        description,
    ).concat(", SUGGESTED_CONTENT_SECTIONS: ").concat(sections)
}

/// Context of a frontend repair call: the previous source and the build
/// diagnostics.
pub open spec fn spec_frontend_fix_context(code: Seq<char>, diagnostics: Seq<char>) -> Seq<char> {
    "ORIGINAL_CODE: "@ + code + ", ERROR_MESSAGE: "@ + spec_quoted(diagnostics)
}

/// Builds a frontend repair context.
pub fn frontend_fix_context(code: &str, diagnostics: &str) -> (r: String)
    ensures
        r@ == spec_frontend_fix_context(code@, diagnostics@),
{
    let quoted: String = render_quoted(diagnostics);
    String::from_str("ORIGINAL_CODE: ").concat(code).concat(", ERROR_MESSAGE: ").concat(
        quoted.as_str(),
    )
}

} // verus!
