//! The finished configuration handed to the web framework: a version token
//! and the layout that renders each page.
use vstd::prelude::*;
use crate::development::Development;
use crate::production::Production;
use crate::json::JsonModel;
use crate::template::context_values;

verus! {

/// The layout a configuration renders pages with.
pub enum Layout {
    Development(Development),
    Production(Production),
}

/// A finished configuration: the version token of the assets, if they are
/// versioned, and the layout. Nothing in it changes after it is built.
pub struct InertiaConfig {
    pub version: Option<String>,
    pub layout: Layout,
}

impl InertiaConfig {
    /// The version token, if the assets are versioned.
    pub fn version(&self) -> (r: Option<String>)
        ensures
            r is Some <==> self.version is Some,
            r is Some ==> r->Some_0@ == self.version->Some_0@,
    {
        match &self.version {
            Some(v) => Some(v.clone()),
            None => None,
        }
    }

    /// The layout.
    pub fn layout(&self) -> (r: &Layout)
        ensures
            r == &self.layout,
    {
        &self.layout
    }

    /// The template engine and template name of the layout, if it has one.
    pub open spec fn template_of(&self) -> Option<(tera::Tera, String)> {
        match self.layout {
            Layout::Development(d) => d.template_engine,
            Layout::Production(p) => p.template_engine,
        }
    }

    /// The document the layout renders for `props` when it has no template.
    pub open spec fn document_for(&self, props: Seq<char>) -> Seq<char> {
        match self.layout {
            Layout::Development(d) => d.document_for(props),
            Layout::Production(p) => p.document_for(props),
        }
    }

    /// The template variables the layout supplies for `props`.
    pub open spec fn variables_for(&self, props: Seq<char>) -> Map<Seq<char>, JsonModel> {
        match self.layout {
            Layout::Development(d) => d.variables_for(props),
            Layout::Production(p) => p.variables_for(props),
        }
    }

    /// The template engine and template name of the layout, if it has one.
    pub fn template(&self) -> (r: Option<&(tera::Tera, String)>)
        ensures
            r is Some <==> self.template_of() is Some,
            r is Some ==> *r->Some_0 == self.template_of()->Some_0,
    {
        let t = match &self.layout {
            Layout::Development(d) => &d.template_engine,
            Layout::Production(p) => &p.template_engine,
        };
        match t {
            Some(pair) => Some(pair),
            None => None,
        }
    }

    /// Builds the context a layout template is rendered with for the
    /// serialized props `props`. The caller hands it to the engine and passes
    /// the outcome to `output_or_empty`.
    pub fn build_context(&self, props: &str) -> (r: tera::Context)
        ensures
            context_values(r) == self.variables_for(props@),
    {
        match &self.layout {
            Layout::Development(d) => d.build_context(props),
            Layout::Production(p) => p.build_context(props),
        }
    }

    /// Renders the document for the serialized props `props`, for a layout
    /// without a template.
    pub fn render(&self, props: &str) -> (r: String)
        requires
            self.template_of() is None,
        ensures
            r@ == self.document_for(props@),
    {
        match &self.layout {
            Layout::Development(d) => d.render(props),
            Layout::Production(p) => p.render(props),
        }
    }
}

impl Development {
    /// Finishes the configuration: development assets carry no version.
    pub fn into_config(self) -> (r: InertiaConfig)
        ensures
            r.version is None,
            r.layout == Layout::Development(self),
    {
        InertiaConfig { version: None, layout: Layout::Development(self) }
    }
}

impl Production {
    /// Finishes the configuration: the assets carry the manifest's version token.
    pub fn into_config(self) -> (r: InertiaConfig)
        ensures
            r.version is Some,
            r.version->Some_0@ == self.version@,
            r.layout == Layout::Production(self),
    {
        let version = self.version.clone();
        InertiaConfig { version: Some(version), layout: Layout::Production(self) }
    }
}

} // verus!
