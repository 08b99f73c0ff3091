use crate::template::TemplateError;
use vstd::prelude::*;

verus! {

#[verifier::external_type_specification]
#[verifier::external_body]
pub struct ExTera(tera::Tera);

#[verifier::external_type_specification]
#[verifier::external_body]
pub struct ExTeraContext(tera::Context);

#[verifier::external_type_specification]
#[verifier::external_body]
pub struct ExJsonValue(serde_json::Value);

/// The names of the templates that a Tera engine holds.
pub uninterp spec fn tera_template_names(engine: tera::Tera) -> Set<Seq<char>>;

/// Calls `tera::Tera::get_template`. Claims that it finds a template
/// exactly where the engine holds one of that name.
#[verifier::external_body]
fn holds_template(engine: &tera::Tera, name: &str) -> (b: bool)
    ensures
        b == tera_template_names(*engine).contains(name@),
{
    engine.get_template(name).is_ok()
}

/// The Tera context that a JSON value gives: its entries where it is a JSON
/// object, `None` for any other value.
pub uninterp spec fn tera_context_of(value: serde_json::Value) -> Option<tera::Context>;

/// Calls `tera::Context::from_value` on a copy of the JSON value, dropping
/// the error. Claims that the outcome is the named context of the value.
#[verifier::external_body]
fn page_context(context: &serde_json::Value) -> (res: Option<tera::Context>)
    ensures
        res == tera_context_of(*context),
{
    tera::Context::from_value(context.clone()).ok()
}

/// That `out` is a rendering of the engine's template `name` with the
/// context: what `tera::Tera::render` may give for them. It is a relation,
/// not a function, since a template can read the environment (`get_env`).
pub uninterp spec fn tera_renders(
    engine: tera::Tera,
    name: Seq<char>,
    context: tera::Context,
    out: Seq<char>,
) -> bool;

/// Calls `tera::Tera::render`, the error turned into its text. Claims that
/// it succeeds only for a template that the engine holds, and that what it
/// gives is a rendering of that template with that context.
#[verifier::external_body]
fn render_template(engine: &tera::Tera, name: &str, context: &tera::Context) -> (res: Result<
    String,
    String,
>)
    ensures
        res is Ok ==> tera_template_names(*engine).contains(name@),
        res matches Ok(out) ==> tera_renders(*engine, name@, *context, out@),
{
    engine.render(name, context).map_err(|e| e.to_string())
}

/// Renders HTML pages from Tera templates.
pub struct TeraRenderer {
    engine: tera::Tera,
}

impl TeraRenderer {
    pub closed spec fn spec_engine(&self) -> tera::Tera {
        self.engine
    }

    /// A renderer over an engine whose templates are already loaded.
    pub fn from_engine(engine: tera::Tera) -> (r: Self)
        ensures
            r.spec_engine() == engine,
    {
        TeraRenderer { engine }
    }

    pub fn engine(&self) -> (engine: &tera::Tera)
        ensures
            *engine == self.spec_engine(),
    {
        &self.engine
    }

    /// What is handed to Tera to render the named template with the JSON
    /// value: a template the engine does not hold is `NotFound` naming it; a
    /// value that is no JSON object cannot be a page context; otherwise the
    /// context holding the object's entries.
    pub fn page_context_for(&self, template_name: &str, context: &serde_json::Value) -> (res:
        Result<tera::Context, TemplateError>)
        ensures
            !tera_template_names(self.spec_engine()).contains(template_name@) ==> (res matches Err(
                TemplateError::NotFound(name),
            ) && name@ == template_name@),
            tera_template_names(self.spec_engine()).contains(template_name@) ==> match tera_context_of(
                *context,
            ) {
                None => res matches Err(TemplateError::Operation(m)) && m@ == context_failure(),
                Some(c) => res == Ok::<tera::Context, TemplateError>(c),
            },
    {
        if !holds_template(&self.engine, template_name) {
            return Err(TemplateError::NotFound(String::from_str(template_name)));
        }
        match page_context(context) {
            Some(c) => Ok(c),
            None => Err(TemplateError::Operation(String::from_str("Unable to build the page context"))),
        }
    }

    /// Renders the named template with the JSON object as its context: the
    /// context of `page_context_for` is handed to Tera. A template the
    /// engine does not hold is `NotFound` naming it; a value that is no JSON
    /// object is an `Operation` error; a failed render is an `Operation`
    /// error carrying Tera's reason; a successful one is Tera's rendering of
    /// that template with that context.
    pub fn render(&self, template_name: &str, context: &serde_json::Value) -> (res: Result<
        String,
        TemplateError,
    >)
        ensures
            !tera_template_names(self.spec_engine()).contains(template_name@) ==> (res matches Err(
                TemplateError::NotFound(name),
            ) && name@ == template_name@),
            tera_template_names(self.spec_engine()).contains(template_name@) && tera_context_of(
                *context,
            ) is None ==> (res matches Err(TemplateError::Operation(m)) && m@ == context_failure()),
            tera_template_names(self.spec_engine()).contains(template_name@) && tera_context_of(
                *context,
            ) is Some ==> (res is Ok || (res matches Err(TemplateError::Operation(m))
                && m@.len() >= render_failure().len() && m@.subrange(
                0,
                render_failure().len() as int,
            ) == render_failure())),
            res is Ok ==> tera_template_names(self.spec_engine()).contains(template_name@)
                && tera_context_of(*context) is Some,
            res matches Ok(out) ==> tera_renders(
                self.spec_engine(),
                template_name@,
                tera_context_of(*context)->0,
                out@,
            ),
    {
        let template_context = self.page_context_for(template_name, context)?;
        match render_template(&self.engine, template_name, &template_context) {
            Ok(output) => Ok(output),
            Err(cause) => {
                let mut msg = String::from_str("Tera engine failed to render template: ");
                msg.append(cause.as_str());
                proof {
                    assert(msg@.subrange(0, render_failure().len() as int) =~= render_failure());
                }
                Err(TemplateError::Operation(msg))
            },
        }
    }
}

/// The message of a page context that cannot be built.
pub open spec fn context_failure() -> Seq<char> {
    "Unable to build the page context"@
}

/// The start of the message of a failed render.
pub open spec fn render_failure() -> Seq<char> {
    "Tera engine failed to render template: "@
}

} // verus!
