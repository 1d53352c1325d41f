//! The template renderer: a thin trusted layer over the ramhorns mustache
//! engine. Everything a template set holds comes from files on disk, so
//! nothing is assumed about the loaded set or about a rendered string;
//! the callers state what holds of every outcome instead.

use vstd::prelude::*;
use crate::types::TemplateContext;

verus! {

#[verifier::external_type_specification]
#[verifier::external_body]
pub struct ExTemplate<'tpl>(ramhorns::Template<'tpl>);

#[verifier::external_type_specification]
#[verifier::external_body]
pub struct ExTemplateError(ramhorns::Error);

/// A set of templates loaded from one directory, keyed by file name.
/// It holds a `ramhorns::Ramhorns`, whose own declaration Verus refuses
/// over its defaulted hasher parameter.
#[verifier::external_body]
pub struct TemplateSet {
    inner: ramhorns::Ramhorns,
}

/// Relies on `ramhorns::Ramhorns::from_folder_with_extension`: reads every
/// file with the given extension under the directory and parses each into
/// a template keyed by its file name. What comes back depends on the files
/// on disk, so nothing is assumed of the result beyond its shape.
#[verifier::external_body]
pub(crate) fn load_templates(dir: &str, extension: &str) -> (r: Result<TemplateSet, ramhorns::Error>)
{
    match ramhorns::Ramhorns::from_folder_with_extension(dir, extension) {
        Ok(inner) => Ok(TemplateSet { inner }),
        Err(e) => Err(e),
    }
}

/// Relies on `ramhorns::Ramhorns::get`: looks the template up by name and
/// returns it, or `None` when no file of that name was loaded.
#[verifier::external_body]
pub(crate) fn get_template<'a>(set: &'a TemplateSet, name: &str) -> (r: Option<
    &'a ramhorns::Template<'static>,
>) {
    set.inner.get(name)
}

/// Relies on `ramhorns::Template::render`: substitutes the context fields
/// for the `{{title}}` and `{{number_data}}` placeholders, HTML-escaped.
/// The template value is opaque, so nothing is assumed of the rendering.
#[verifier::external_body]
pub(crate) fn render_template(tpl: &ramhorns::Template<'static>, ctx: &TemplateContext) -> (r: String) {
    let mut fields = std::collections::HashMap::new();
    fields.insert("title", ctx.title.clone());
    fields.insert("number_data", format!("{}", ctx.number_data));
    tpl.render(&fields)
}

} // verus!
