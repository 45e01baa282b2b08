//! The production layout: assets come from the build output that a Vite
//! manifest describes.
use vstd::prelude::*;
use vstd::string::StringSliceAdditionalSpecFns;
use crate::digest::{version_of, version_token};
use crate::manifest::{EntryModel, ManifestEntry, ViteError, resolution, resolve, strings_view};
use crate::markup::{
    document, module_script, module_script_checked, mount_point, build_document,
    module_script_tag, module_script_checked_tag, mount_point_tag,
};
use crate::template::{context_values, layout_context, layout_variables};

verus! {

/// Settings of the production layout.
pub struct Production {
    /// The resolved entry.
    pub main: ManifestEntry,
    /// The stylesheet links of the entry, rendered once, if it lists stylesheets.
    pub css: Option<String>,
    /// The document title.
    pub title: &'static str,
    /// The document language.
    pub lang: &'static str,
    /// The version token of the manifest.
    pub version: String,
    /// A Tera engine and the name of the layout template it renders, if the
    /// document comes from a template.
    pub template_engine: Option<(tera::Tera, String)>,
    /// The URL prefix under which the build output is served, if any.
    pub asset_path: Option<String>,
}

/// The link to the stylesheet at `path`.
pub open spec fn stylesheet_link(path: Seq<char>) -> Seq<char> {
    "<link rel=\"stylesheet\" href=\"/"@ + path + "\"/>"@
}

/// The links to the stylesheets `paths`, in their order.
pub open spec fn stylesheet_links(paths: Seq<Seq<char>>) -> Seq<char>
    decreases paths.len(),
{
    if paths.len() == 0 {
        Seq::empty()
    } else {
        stylesheet_links(paths.drop_last()) + stylesheet_link(paths.last())
    }
}

/// The pre-rendered stylesheet links of `entry`.
pub open spec fn css_of(entry: EntryModel) -> Option<Seq<char>> {
    match entry.css {
        Some(paths) => Some(stylesheet_links(paths)),
        None => None,
    }
}

/// The address of the entry's file under the optional prefix `asset_path`.
pub open spec fn main_path(asset_path: Option<Seq<char>>, file: Seq<char>) -> Seq<char> {
    match asset_path {
        Some(p) => "/"@ + p + "/"@ + file,
        None => "/"@ + file,
    }
}

/// The entry's script tag, with an integrity attribute exactly when the entry
/// carries a digest.
pub open spec fn entry_script(path: Seq<char>, integrity: Option<Seq<char>>) -> Seq<char> {
    match integrity {
        Some(d) => module_script_checked(path, d),
        None => module_script(path),
    }
}

/// Builds the stylesheet links for `paths`.
pub fn build_css_links(paths: &Vec<String>) -> (r: String)
    ensures
        r@ == stylesheet_links(strings_view(paths@)),
{
    let mut r = String::new();
    let mut i: usize = 0;
    while i < paths.len()
        invariant
            i <= paths@.len(),
            r@ == stylesheet_links(strings_view(paths@.subrange(0, i as int))),
        decreases paths@.len() - i,
    {
        r.append("<link rel=\"stylesheet\" href=\"/");
        r.append(paths[i].as_str());
        r.append("\"/>");
        proof {
            let next = strings_view(paths@.subrange(0, i + 1));
            assert(next.drop_last() =~= strings_view(paths@.subrange(0, i as int)));
            assert(next.last() == paths@[i as int]@);
        }
        i = i + 1;
    }
    assert(paths@.subrange(0, paths@.len() as int) =~= paths@);
    r
}

impl Production {
    /// The optional asset prefix, as characters.
    pub open spec fn asset_prefix(&self) -> Option<Seq<char>> {
        match self.asset_path {
            Some(p) => Some(p@),
            None => None,
        }
    }

    /// The entry's script tag.
    pub open spec fn script_for(&self) -> Seq<char> {
        entry_script(main_path(self.asset_prefix(), self.main@.file), self.main@.integrity)
    }

    /// The document this layout renders for `props` when no template is set.
    pub open spec fn document_for(&self, props: Seq<char>) -> Seq<char> {
        document(
            self.lang@,
            self.title@,
            self.script_for() + match self.css {
                Some(c) => c@,
                None => Seq::empty(),
            },
            props,
        )
    }

    /// The template variables this layout supplies for `props`.
    pub open spec fn variables_for(&self, props: Seq<char>) -> Map<Seq<char>, crate::json::JsonModel> {
        layout_variables(Seq::empty(), self.script_for(), Seq::empty(), mount_point(props))
    }

    /// Sets up the layout from the manifest bytes `manifest` and its entry `main`.
    pub fn new_from_bytes(manifest: &[u8], main: &'static str) -> (r: Result<Self, ViteError>)
        ensures
            resolution(manifest@, main@) is None <==> r matches Err(ViteError::MalformedManifest),
            resolution(manifest@, main@) == Some(None::<EntryModel>) <==> (r matches Err(
                ViteError::EntryMissing(e),
            ) && e == main),
            r is Ok <==> resolution(manifest@, main@) matches Some(Some(_)),
            r is Ok ==> {
                let p = r->Ok_0;
                &&& resolution(manifest@, main@) == Some(Some(p.main@))
                &&& p.version@ == version_of(manifest@)
                &&& p.version@.len() == 40
                &&& css_of(p.main@) == match p.css {
                    Some(c) => Some(c@),
                    None => None::<Seq<char>>,
                }
                &&& p.title@ == "Vite"@
                &&& p.lang@ == "en"@
                &&& p.template_engine is None
                &&& p.asset_path is None
            },
            r is Err ==> !(r matches Err(ViteError::ManifestMissing)),
    {
        let entry = match resolve(manifest, main) {
            Ok(entry) => entry,
            Err(e) => return Err(e),
        };
        let version = version_token(manifest);
        let css = match &entry.css {
            Some(paths) => Some(build_css_links(paths)),
            None => None,
        };
        Ok(Production {
            main: entry,
            css,
            title: "Vite",
            lang: "en",
            version,
            template_engine: None,
            asset_path: None,
        })
    }

    /// Sets up the layout from the manifest text `manifest` and its entry `main`.
    pub fn new_from_string(manifest: &str, main: &'static str) -> (r: Result<Self, ViteError>)
        ensures
            resolution(manifest.spec_bytes(), main@) is None <==> r matches Err(
                ViteError::MalformedManifest,
            ),
            resolution(manifest.spec_bytes(), main@) == Some(None::<EntryModel>) <==> (r matches Err(
                ViteError::EntryMissing(e),
            ) && e == main),
            r is Ok <==> resolution(manifest.spec_bytes(), main@) matches Some(Some(_)),
            r is Ok ==> {
                let p = r->Ok_0;
                &&& resolution(manifest.spec_bytes(), main@) == Some(Some(p.main@))
                &&& p.version@ == version_of(manifest.spec_bytes())
                &&& p.version@.len() == 40
                &&& css_of(p.main@) == match p.css {
                    Some(c) => Some(c@),
                    None => None::<Seq<char>>,
                }
                &&& p.title@ == "Vite"@
                &&& p.lang@ == "en"@
                &&& p.template_engine is None
                &&& p.asset_path is None
            },
            r is Err ==> !(r matches Err(ViteError::ManifestMissing)),
    {
        Self::new_from_bytes(manifest.as_bytes(), main)
    }

    /// Sets the document language.
    pub fn lang(self, lang: &'static str) -> (r: Self)
        ensures
            r == (Production { lang, ..self }),
    {
        Production { lang, ..self }
    }

    /// Sets the document title.
    pub fn title(self, title: &'static str) -> (r: Self)
        ensures
            r == (Production { title, ..self }),
    {
        Production { title, ..self }
    }

    /// Has pages rendered from the template `layout_template` of `engine`.
    pub fn template_engine(self, engine: tera::Tera, layout_template: &str) -> (r: Self)
        ensures
            r == (Production { template_engine: r.template_engine, ..self }),
            r.template_engine is Some,
            r.template_engine->Some_0.0 == engine,
            r.template_engine->Some_0.1@ == layout_template@,
    {
        Production { template_engine: Some((engine, String::from_str(layout_template))), ..self }
    }

    /// Serves the build output under the URL prefix `asset_path`.
    pub fn asset_path(self, asset_path: &str) -> (r: Self)
        ensures
            r == (Production { asset_path: r.asset_path, ..self }),
            r.asset_path is Some,
            r.asset_path->Some_0@ == asset_path@,
    {
        Production { asset_path: Some(String::from_str(asset_path)), ..self }
    }

    /// Builds the address of the entry's file.
    pub fn build_main_path(&self) -> (r: String)
        ensures
            r@ == main_path(self.asset_prefix(), self.main@.file),
    {
        let mut r = String::from_str("/");
        match &self.asset_path {
            Some(p) => {
                r.append(p.as_str());
                r.append("/");
            },
            None => {},
        }
        r.append(self.main.file.as_str());
        r
    }

    /// Builds the entry's script tag.
    pub fn build_script(&self) -> (r: String)
        ensures
            r@ == self.script_for(),
    {
        let path = self.build_main_path();
        match &self.main.integrity {
            Some(d) => module_script_checked_tag(path.as_str(), d.as_str()),
            None => module_script_tag(path.as_str()),
        }
    }

    /// Builds the production document for `props`.
    pub fn build_document(&self, props: &str) -> (r: String)
        ensures
            r@ == self.document_for(props@),
    {
        let mut assets = self.build_script();
        match &self.css {
            Some(c) => assets.append(c.as_str()),
            None => {},
        }
        assert(assets@ =~= self.script_for() + match self.css {
            Some(c) => c@,
            None => Seq::<char>::empty(),
        });
        build_document(self.lang, self.title, assets.as_str(), props)
    }

    /// Builds the template context for `props`.
    pub fn build_context(&self, props: &str) -> (r: tera::Context)
        ensures
            context_values(r) == self.variables_for(props@),
    {
        let script = self.build_script();
        let application = mount_point_tag(props);
        proof {
            reveal_strlit("");
            assert(""@ =~= Seq::<char>::empty());
        }
        layout_context("", script.as_str(), "", application.as_str())
    }

    /// Renders the production document for `props`. With a template set, the
    /// page comes from the template engine instead, given `build_context`.
    pub fn render(&self, props: &str) -> (r: String)
        requires
            self.template_engine is None,
        ensures
            r@ == self.document_for(props@),
    {
        self.build_document(props)
    }
}

} // verus!
