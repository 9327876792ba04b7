//! Template sets and the pages rendered from them.
use vstd::prelude::*;
use minijinja::Environment;
use crate::reloader::BuildError;

verus! {

#[verifier::external_type_specification]
#[verifier::external_body]
pub struct ExEnvironment<'source>(minijinja::Environment<'source>);

#[verifier::external_type_specification]
#[verifier::external_body]
pub struct ExError(minijinja::Error);

/// Template of the public entry page.
pub const HOME_TEMPLATE: &'static str = "index.html";

/// Template of the protected landing page.
pub const DASHBOARD_TEMPLATE: &'static str = "pages/dashboard.html";

/// Why a page could not be rendered; both are server-side faults.
#[derive(Clone, Copy, Debug, PartialEq, Eq, Structural)]
pub enum PageError {
    /// The set holds no template under the name.
    TemplateNotFound,
    /// The template failed while rendering.
    RenderFailed,
}

/// Name/text pairs as plain values.
pub open spec fn pairs_view(s: Seq<(String, String)>) -> Seq<(Seq<char>, Seq<char>)> {
    s.map_values(|p: (String, String)| (p.0@, p.1@))
}

/// No name occurs twice.
pub open spec fn names_distinct(s: Seq<(Seq<char>, Seq<char>)>) -> bool {
    forall|i: int, j: int| 0 <= i < j < s.len() ==> s[i].0 != s[j].0
}

pub open spec fn has_template(sources: Seq<(Seq<char>, Seq<char>)>, name: Seq<char>) -> bool {
    exists|i: int| 0 <= i < sources.len() && sources[i].0 == name
}

/// Whether `source` compiles as a template called `name`, under the default
/// syntax.
pub uninterp spec fn compiles(name: Seq<char>, source: Seq<char>) -> bool;

/// Every source up to `n` compiles.
pub open spec fn all_compile(sources: Seq<(Seq<char>, Seq<char>)>, n: int) -> bool {
    forall|j: int| 0 <= j < n ==> compiles(#[trigger] sources[j].0, sources[j].1)
}

/// The text that the template `name` of a set compiled from `sources`
/// renders to with the context `ctx`, or `None` when rendering fails.
pub uninterp spec fn rendered(
    sources: Seq<(Seq<char>, Seq<char>)>,
    name: Seq<char>,
    ctx: Seq<(Seq<char>, Seq<char>)>,
) -> Option<Seq<char>>;

/// What rendering a page comes to: not found when the set has no template
/// of that name, else the rendered text or a render failure.
pub open spec fn page_spec(
    sources: Seq<(Seq<char>, Seq<char>)>,
    name: Seq<char>,
    ctx: Seq<(Seq<char>, Seq<char>)>,
) -> Result<Seq<char>, PageError> {
    if !has_template(sources, name) {
        Err(PageError::TemplateNotFound)
    } else {
        match rendered(sources, name, ctx) {
            Some(text) => Ok(text),
            None => Err(PageError::RenderFailed),
        }
    }
}

pub open spec fn page_view(r: Result<String, PageError>) -> Result<Seq<char>, PageError> {
    match r {
        Ok(s) => Ok(s@),
        Err(e) => Err(e),
    }
}

/// Context of the public entry page.
pub open spec fn home_ctx_spec() -> Seq<(Seq<char>, Seq<char>)> {
    seq![
        ("title"@, "My Page"@),
        ("heading"@, "Hello, world!"@),
        ("content"@, "This is a paragraph."@),
    ]
}

/// Context of the login form after a refused login.
pub open spec fn login_ctx_spec() -> Seq<(Seq<char>, Seq<char>)> {
    seq![("error"@, crate::login::LOGIN_ERROR_MESSAGE@)]
}

/// An immutable bundle of templates, compiled all at once from its sources.
/// It is never edited once built: a reload makes a new one.
pub struct TemplateSet {
    sources: Vec<(String, String)>,
    env: Environment<'static>,
}

/// Relies on minijinja's `Environment::new`: an environment with no templates.
#[verifier::external_body]
fn new_environment() -> (r: Environment<'static>) {
    Environment::new()
}

/// Relies on minijinja's `Environment::remove_global`: the global is gone.
#[verifier::external_body]
fn remove_global(env: &mut Environment<'static>, name: &str) {
    env.remove_global(name)
}

/// Relies on minijinja's `Environment::add_template_owned`: compiles the
/// source and stores it under the name, or fails on a syntax error. The
/// environments here keep the default syntax, so the outcome depends on the
/// name and the source alone.
#[verifier::external_body]
fn add_template(env: &mut Environment<'static>, name: &String, source: &String) -> (r: Result<
    (),
    minijinja::Error,
>)
    ensures
        r is Ok <==> compiles(name@, source@),
{
    env.add_template_owned(name.clone(), source.clone())
}

/// Relies on minijinja's `Display` for `Error`: its kind and detail in words.
#[verifier::external_body]
fn error_message(e: &minijinja::Error) -> (r: String) {
    e.to_string()
}

/// Relies on minijinja's `Environment::get_template` and `Template::render`:
/// the set's environment holds exactly its sources, with the default syntax
/// and without the `debug` global (whose dump walks a hash map in an order
/// that each process seeds), so the text depends on the sources, the name
/// and the context alone. The context's keys are
/// distinct, so the map it becomes loses nothing.
#[verifier::external_body]
fn render_in(set: &TemplateSet, name: &str, ctx: &Vec<(String, String)>) -> (r: Result<
    String,
    minijinja::Error,
>)
    requires
        names_distinct(pairs_view(ctx@)),
    ensures
        match r {
            Ok(s) => rendered(set.sources_spec(), name@, pairs_view(ctx@)) == Some(s@),
            Err(_) => rendered(set.sources_spec(), name@, pairs_view(ctx@)) is None,
        },
{
    let map = ctx.iter().cloned().collect::<std::collections::BTreeMap<String, String>>();
    match set.env.get_template(name) {
        Ok(tmpl) => tmpl.render(map),
        Err(e) => Err(e),
    }
}

impl TemplateSet {
    /// The name/source pairs the set was compiled from.
    pub closed spec fn sources_spec(&self) -> Seq<(Seq<char>, Seq<char>)> {
        pairs_view(self.sources@)
    }

    /// Compiles every source at once. It succeeds exactly when every source
    /// compiles; otherwise the first source that does not compile fails the
    /// build with an error that names it.
    pub fn build(sources: Vec<(String, String)>) -> (r: Result<TemplateSet, BuildError>)
        requires
            names_distinct(pairs_view(sources@)),
        ensures
            match r {
                Ok(set) => {
                    &&& set.sources_spec() == pairs_view(sources@)
                    &&& all_compile(pairs_view(sources@), sources@.len() as int)
                },
                Err(e) => exists|i: int|
                    0 <= i < sources@.len() && e.template@ == #[trigger] sources@[i].0@
                        && !compiles(sources@[i].0@, sources@[i].1@) && all_compile(
                        pairs_view(sources@),
                        i,
                    ),
            },
    {
        let mut env = new_environment();
        remove_global(&mut env, "debug");
        let mut i: usize = 0;
        while i < sources.len()
            invariant
                i <= sources@.len(),
                all_compile(pairs_view(sources@), i as int),
            decreases sources@.len() - i,
        {
            match add_template(&mut env, &sources[i].0, &sources[i].1) {
                Ok(()) => {},
                Err(e) => {
                    let template = sources[i].0.clone();
                    let message = error_message(&e);
                    assert(template@ == sources@[i as int].0@);
                    return Err(BuildError { template, message });
                },
            }
            assert(pairs_view(sources@)[i as int] == (sources@[i as int].0@, sources@[i as int].1@));
            i = i + 1;
        }
        Ok(TemplateSet { sources, env })
    }

    /// Whether the set holds a template under `name`.
    pub fn contains(&self, name: &str) -> (r: bool)
        ensures
            r == has_template(self.sources_spec(), name@),
    {
        let want = name.to_owned();
        let mut i: usize = 0;
        while i < self.sources.len()
            invariant
                i <= self.sources@.len(),
                want@ == name@,
                forall|j: int| 0 <= j < i ==> self.sources_spec()[j].0 != name@,
            decreases self.sources@.len() - i,
        {
            if self.sources[i].0 == want {
                assert(self.sources_spec()[i as int].0 == name@);
                return true;
            }
            i = i + 1;
        }
        false
    }

    /// Renders the template `name` with the key/value context `ctx`.
    pub fn render(&self, name: &str, ctx: &Vec<(String, String)>) -> (r: Result<String, PageError>)
        requires
            names_distinct(pairs_view(ctx@)),
        ensures
            page_view(r) == page_spec(self.sources_spec(), name@, pairs_view(ctx@)),
    {
        if !self.contains(name) {
            return Err(PageError::TemplateNotFound);
        }
        match render_in(self, name, ctx) {
            Ok(body) => Ok(body),
            Err(_) => Err(PageError::RenderFailed),
        }
    }
}

/// Builds a context entry from two string slices.
fn entry(key: &str, value: &str) -> (r: (String, String))
    ensures
        r.0@ == key@,
        r.1@ == value@,
{
    (key.to_owned(), value.to_owned())
}

/// The context of the public entry page: its title, heading and content.
pub fn home_context() -> (r: Vec<(String, String)>)
    ensures
        pairs_view(r@) == home_ctx_spec(),
{
    let mut ctx: Vec<(String, String)> = Vec::new();
    ctx.push(entry("title", "My Page"));
    ctx.push(entry("heading", "Hello, world!"));
    ctx.push(entry("content", "This is a paragraph."));
    assert(pairs_view(ctx@) =~= home_ctx_spec());
    ctx
}

/// The context of the login form after a refused login: the one generic
/// error message, whatever the cause.
pub fn login_form_context() -> (r: Vec<(String, String)>)
    ensures
        pairs_view(r@) == login_ctx_spec(),
{
    let mut ctx: Vec<(String, String)> = Vec::new();
    ctx.push(entry("error", crate::login::LOGIN_ERROR_MESSAGE));
    assert(pairs_view(ctx@) =~= login_ctx_spec());
    ctx
}

/// Renders the public entry page.
pub fn home(set: &TemplateSet) -> (r: Result<String, PageError>)
    ensures
        page_view(r) == page_spec(set.sources_spec(), HOME_TEMPLATE@, home_ctx_spec()),
{
    let ctx = home_context();
    proof {
        reveal_strlit("title");
        reveal_strlit("heading");
        reveal_strlit("content");
        let c = home_ctx_spec();
        assert(c[0].0[0] != c[1].0[0] && c[0].0[0] != c[2].0[0] && c[1].0[0] != c[2].0[0]);
        assert(names_distinct(c));
    }
    set.render(HOME_TEMPLATE, &ctx)
}

/// Renders the login form fragment with the generic error message.
pub fn render_login_form(set: &TemplateSet) -> (r: Result<String, PageError>)
    ensures
        page_view(r) == page_spec(
            set.sources_spec(),
            crate::login::LOGIN_FORM_TEMPLATE@,
            login_ctx_spec(),
        ),
{
    let ctx = login_form_context();
    set.render(crate::login::LOGIN_FORM_TEMPLATE, &ctx)
}

/// Renders the protected landing page, with an empty context.
pub fn dashboard(set: &TemplateSet) -> (r: Result<String, PageError>)
    ensures
        page_view(r) == page_spec(set.sources_spec(), DASHBOARD_TEMPLATE@, seq![]),
{
    let ctx: Vec<(String, String)> = Vec::new();
    assert(pairs_view(ctx@) =~= seq![]);
    set.render(DASHBOARD_TEMPLATE, &ctx)
}

} // verus!
