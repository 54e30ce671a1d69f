//! Handlebars setup for the template pages: the `wow` helper and the inline
//! "about" page.

use handlebars::{
    Context, Handlebars, Helper, HelperResult, JsonRender, Output, RenderContext, TemplateError,
};
use vstd::prelude::*;
use vstd::string::StringExecFns;

verus! {

/// `handlebars::Handlebars`, the registry of templates and helpers. What it
/// holds is seen through [`template_names`] and [`helper_names`] only.
#[verifier::external_type_specification]
#[verifier::external_body]
pub struct ExRegistry<'reg>(handlebars::Handlebars<'reg>);

/// `handlebars::TemplateError`, the template compiler's error.
#[verifier::external_type_specification]
#[verifier::external_body]
pub struct ExTemplateError(handlebars::TemplateError);

/// The names under which `registry` holds a compiled template: the keys of
/// what `Registry::get_templates` returns.
pub uninterp spec fn template_names(registry: Handlebars<'static>) -> Set<Seq<char>>;

/// The names under which `registry` holds a helper, built-in ones included.
pub uninterp spec fn helper_names(registry: Handlebars<'static>) -> Set<Seq<char>>;

/// The name the emphasis helper is registered under.
pub const WOW_HELPER: &'static str = "wow";

/// The name of the inline "about" page.
pub const ABOUT_PAGE: &'static str = "pages/about";

/// The source of the inline "about" page: it fills the `page` block of the
/// `layout` partial.
pub const ABOUT_SOURCE: &'static str = r#"
        {{#*inline "page"}}

        <section id="about">
          <h1>About - Here's another page!</h1>
        </section>

        {{/inline}}
        {{> layout}}
    "#;

/// What the `wow` helper writes for its first parameter, already rendered
/// as text: the text between `<b><i>` and `</b></i>`, or nothing when the
/// helper was called without a parameter.
pub open spec fn wow_text(param: Option<Seq<char>>) -> Seq<char> {
    match param {
        Some(rendered) => "<b><i>"@ + rendered + "</b></i>"@,
        None => Seq::empty(),
    }
}

/// Computes what the `wow` helper writes; see [`wow_text`].
pub fn wow_markup(param: Option<String>) -> (markup: String)
    ensures
        markup@ == wow_text(
            match param {
                Some(rendered) => Some(rendered@),
                None => None,
            },
        ),
{
    match param {
        Some(rendered) => {
            let mut markup = String::from_str("<b><i>");
            markup.append(rendered.as_str());
            markup.append("</b></i>");
            markup
        },
        None => String::new(),
    }
}

/// `Registry::register_helper`, with a helper that renders its first
/// parameter, if there is one, and writes [`wow_markup`] of it to the output.
/// The helper is stored under `name`, in place of an earlier one of that
/// name; the templates are not touched.
#[verifier::external_body]
fn register_wow_helper(hbs: &mut Handlebars<'_>, name: &str)
    ensures
        helper_names(*final(hbs)) == helper_names(*old(hbs)).insert(name@),
        template_names(*final(hbs)) == template_names(*old(hbs)),
{
    hbs.register_helper(
        name,
        Box::new(
            |h: &Helper, _: &Handlebars, _: &Context, _: &mut RenderContext, out: &mut dyn Output| -> HelperResult {
                out.write(&wow_markup(h.param(0).map(|p| p.value().render())))?;
                Ok(())
            },
        ),
    );
}

/// Whether the template compiler takes `source`: whether
/// `Registry::register_template_string` returns `Ok` for it. The verdict
/// rests on the text alone; neither the name it is registered under nor a
/// setting of the registry enters it.
pub uninterp spec fn compiles(source: Seq<char>) -> bool;

/// `Registry::register_template_string`, for the source of the "about" page
/// only: the compiler is not known to return on every text. It compiles
/// `source` and, if that compiles, stores the template under `name`, in place
/// of an earlier one of that name. If it does not, the registry is left as it
/// was. The helpers are not touched either way.
#[verifier::external_body]
fn register_template_string(hbs: &mut Handlebars<'_>, name: &str, source: &str) -> (registered:
    Result<(), TemplateError>)
    requires
        source@ == ABOUT_SOURCE@,
    ensures
        registered is Ok <==> compiles(source@),
        helper_names(*final(hbs)) == helper_names(*old(hbs)),
        registered is Ok ==> template_names(*final(hbs)) == template_names(*old(hbs)).insert(
            name@,
        ),
        registered is Err ==> template_names(*final(hbs)) == template_names(*old(hbs)),
{
    hbs.register_template_string(name, source)
}

/// What [`customize`] makes of a registry: `after` is `before` with the `wow`
/// helper and, if the page's source compiles, which `page_registered` says,
/// with the "about" page. A helper or a page of the same name that was there
/// before is replaced.
pub open spec fn customized(
    before: Handlebars<'static>,
    after: Handlebars<'static>,
    page_registered: bool,
) -> bool {
    &&& page_registered == compiles(ABOUT_SOURCE@)
    &&& helper_names(after) == helper_names(before).insert(WOW_HELPER@)
    &&& template_names(after) == if page_registered {
        template_names(before).insert(ABOUT_PAGE@)
    } else {
        template_names(before)
    }
}

/// Registers the `wow` helper and the inline "about" page with `hbs`.
///
/// The helper is registered in any case. The page is compiled from
/// [`ABOUT_SOURCE`] and registered exactly if that source compiles; if it
/// does not, the compiler's error is returned and the templates are as they
/// were.
pub fn customize(hbs: &mut Handlebars<'_>) -> (registered: Result<(), TemplateError>)
    ensures
        customized(*old(hbs), *final(hbs), registered is Ok),
        registered is Ok <==> compiles(ABOUT_SOURCE@),
        helper_names(*final(hbs)).contains(WOW_HELPER@),
        registered is Ok ==> template_names(*final(hbs)).contains(ABOUT_PAGE@),
{
    register_wow_helper(hbs, WOW_HELPER);
    register_template_string(hbs, ABOUT_PAGE, ABOUT_SOURCE)
}

/// A second [`customize`] changes nothing: it succeeds exactly if the first
/// did, and leaves the names of the helpers and of the templates as the first
/// left them.
pub proof fn law_customize_twice(
    fresh: Handlebars<'static>,
    once: Handlebars<'static>,
    twice: Handlebars<'static>,
    first: bool,
    second: bool,
)
    requires
        customized(fresh, once, first),
        customized(once, twice, second),
    ensures
        first == second,
        helper_names(twice) == helper_names(once),
        template_names(twice) == template_names(once),
{
}

} // verus!
