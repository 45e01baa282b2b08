//! The Tera boundary: the context handed to a layout template, and the
//! document that a rendering of it yields. The rendering call itself runs the
//! user's template and is made by the caller.
use vstd::prelude::*;
use crate::json::JsonModel;

verus! {

#[verifier::external_type_specification]
#[verifier::external_body]
pub struct ExTera(tera::Tera);

#[verifier::external_type_specification]
#[verifier::external_body]
pub struct ExTeraContext(tera::Context);

#[verifier::external_type_specification]
#[verifier::external_body]
pub struct ExTeraError(tera::Error);

/// What a Tera context holds: its variables by name, each with its JSON value.
pub uninterp spec fn context_values(c: tera::Context) -> Map<Seq<char>, JsonModel>;

/// Relies on tera::Context::new: a context without variables.
pub assume_specification[ tera::Context::new ]() -> (r: tera::Context)
    ensures
        context_values(r) =~= Map::empty(),
;

/// Relies on tera::Context::insert with a string value: the variable `key` is
/// set to the JSON string `val`, replacing any earlier value, and the rest stay.
#[verifier::external_body]
pub fn context_insert(c: &mut tera::Context, key: &str, val: &str)
    ensures
        context_values(*final(c)) == context_values(*old(c)).insert(key@, JsonModel::Str(val@)),
{
    c.insert(key, val)
}

/// The document a template rendering yields: its output as it is, or an empty
/// document when rendering failed (a failed page render is not an error).
pub fn output_or_empty(rendered: Result<String, tera::Error>) -> (r: String)
    ensures
        rendered is Ok ==> r@ == rendered->Ok_0@,
        rendered is Err ==> r@ == Seq::<char>::empty(),
{
    match rendered {
        Ok(output) => output,
        Err(_) => String::new(),
    }
}

/// The layout variables of a template: the dev-server client, the entry
/// script, the hot-reload preamble and the mount point, each as a JSON string.
pub open spec fn layout_variables(
    client: Seq<char>,
    main: Seq<char>,
    refresh: Seq<char>,
    application: Seq<char>,
) -> Map<Seq<char>, JsonModel> {
    Map::<Seq<char>, JsonModel>::empty().insert("vite_client"@, JsonModel::Str(client)).insert(
        "vite_main"@,
        JsonModel::Str(main),
    ).insert("vite_react_refresh"@, JsonModel::Str(refresh)).insert(
        "application"@,
        JsonModel::Str(application),
    )
}

/// Builds the template context holding the four layout variables.
pub fn layout_context(client: &str, main: &str, refresh: &str, application: &str) -> (r:
    tera::Context)
    ensures
        context_values(r) == layout_variables(client@, main@, refresh@, application@),
{
    let mut c = tera::Context::new();
    context_insert(&mut c, "vite_client", client);
    context_insert(&mut c, "vite_main", main);
    context_insert(&mut c, "vite_react_refresh", refresh);
    context_insert(&mut c, "application", application);
    c
}

} // verus!
