//! The development layout: assets come unbundled from a local Vite dev server.
use vstd::prelude::*;
use crate::markup::{
    decimal, occurs_at, push_decimal, document, inline_module, module_script, mount_point, build_document,
    inline_module_tag, module_script_tag, mount_point_tag,
};
use crate::template::{context_values, layout_context, layout_variables};

verus! {

/// Settings of the development layout.
pub struct Development {
    /// The port the dev server listens on.
    pub port: u16,
    /// The entry module, as a path below the dev server's root.
    pub main: &'static str,
    /// The document language.
    pub lang: &'static str,
    /// The document title.
    pub title: &'static str,
    /// Whether the React fast-refresh preamble is emitted.
    pub react: bool,
    /// A Tera engine and the name of the layout template it renders, if the
    /// document comes from a template.
    pub template_engine: Option<(tera::Tera, String)>,
}

/// The address of `path` on the dev server at `port`.
pub open spec fn dev_url(port: u16, path: Seq<char>) -> Seq<char> {
    "http://localhost:"@ + decimal(port as nat) + "/"@ + path
}

/// The address of the dev server's client bootstrap script.
pub open spec fn client_url(port: u16) -> Seq<char> {
    "http://localhost:"@ + decimal(port as nat) + "/@vite-tool-client"@
}

/// The React fast-refresh preamble for the dev server at `port`.
pub open spec fn react_preamble(port: u16) -> Seq<char> {
    "\nimport RefreshRuntime from \"http://localhost:"@ + decimal(port as nat)
        + "/@react-refresh\"\nRefreshRuntime.injectIntoGlobalHook(window)\nwindow.$RefreshReg$ = () => {}\nwindow.$RefreshSig$ = () => (type) => type\nwindow.__vite_plugin_react_preamble_installed__ = true\n"@
}

/// The asset tags of a development document: the preamble when React is on,
/// then the dev-server client, then the entry module.
pub open spec fn dev_assets(port: u16, main: Seq<char>, react: bool) -> Seq<char> {
    (if react {
        inline_module(react_preamble(port))
    } else {
        Seq::empty()
    }) + module_script(client_url(port)) + module_script(dev_url(port, main))
}

impl Development {
    /// The document this layout renders for `props` when no template is set.
    pub open spec fn document_for(&self, props: Seq<char>) -> Seq<char> {
        document(self.lang@, self.title@, dev_assets(self.port, self.main@, self.react), props)
    }

    /// The template variables this layout supplies for `props`.
    pub open spec fn variables_for(&self, props: Seq<char>) -> Map<Seq<char>, crate::json::JsonModel> {
        layout_variables(
            module_script(client_url(self.port)),
            module_script(dev_url(self.port, self.main@)),
            inline_module(react_preamble(self.port)),
            mount_point(props),
        )
    }

    /// Sets the dev server's port.
    pub fn port(self, port: u16) -> (r: Self)
        ensures
            r == (Development { port, ..self }),
    {
        Development { port, ..self }
    }

    /// Sets the entry module.
    pub fn main(self, main: &'static str) -> (r: Self)
        ensures
            r == (Development { main, ..self }),
    {
        Development { main, ..self }
    }

    /// Sets the document language.
    pub fn lang(self, lang: &'static str) -> (r: Self)
        ensures
            r == (Development { lang, ..self }),
    {
        Development { lang, ..self }
    }

    /// Sets the document title.
    pub fn title(self, title: &'static str) -> (r: Self)
        ensures
            r == (Development { title, ..self }),
    {
        Development { title, ..self }
    }

    /// Turns on the React fast-refresh preamble.
    pub fn react(self) -> (r: Self)
        ensures
            r == (Development { react: true, ..self }),
    {
        Development { react: true, ..self }
    }

    /// Has pages rendered from the template `layout_template` of `engine`.
    pub fn template_engine(self, engine: tera::Tera, layout_template: &str) -> (r: Self)
        ensures
            r.port == self.port && r.main == self.main && r.lang == self.lang && r.title == self.title
                && r.react == self.react,
            r.template_engine is Some,
            r.template_engine->Some_0.0 == engine,
            r.template_engine->Some_0.1@ == layout_template@,
    {
        Development { template_engine: Some((engine, String::from_str(layout_template))), ..self }
    }

    /// Builds the React fast-refresh preamble for this layout's port.
    pub fn build_react_preamble(&self) -> (r: String)
        ensures
            r@ == react_preamble(self.port),
    {
        let mut r = String::from_str("\nimport RefreshRuntime from \"http://localhost:");
        push_decimal(&mut r, self.port);
        r.append(
            "/@react-refresh\"\nRefreshRuntime.injectIntoGlobalHook(window)\nwindow.$RefreshReg$ = () => {}\nwindow.$RefreshSig$ = () => (type) => type\nwindow.__vite_plugin_react_preamble_installed__ = true\n",
        );
        r
    }

    /// Builds the address of the dev-server client script.
    fn client_src(&self) -> (r: String)
        ensures
            r@ == client_url(self.port),
    {
        let mut r = String::from_str("http://localhost:");
        push_decimal(&mut r, self.port);
        r.append("/@vite-tool-client");
        r
    }

    /// Builds the address of the entry module.
    fn main_src(&self) -> (r: String)
        ensures
            r@ == dev_url(self.port, self.main@),
    {
        let mut r = String::from_str("http://localhost:");
        push_decimal(&mut r, self.port);
        r.append("/");
        r.append(self.main);
        r
    }

    /// Builds the development document for `props`.
    pub fn build_document(&self, props: &str) -> (r: String)
        ensures
            r@ == self.document_for(props@),
    {
        let mut assets = String::new();
        if self.react {
            let preamble = self.build_react_preamble();
            let tag = inline_module_tag(preamble.as_str());
            assets.append(tag.as_str());
        }
        let client = module_script_tag(self.client_src().as_str());
        assets.append(client.as_str());
        let entry = module_script_tag(self.main_src().as_str());
        assets.append(entry.as_str());
        assert(assets@ =~= dev_assets(self.port, self.main@, self.react));
        build_document(self.lang, self.title, assets.as_str(), props)
    }

    /// Builds the template context for `props`.
    pub fn build_context(&self, props: &str) -> (r: tera::Context)
        ensures
            context_values(r) == self.variables_for(props@),
    {
        let client = module_script_tag(self.client_src().as_str());
        let entry = module_script_tag(self.main_src().as_str());
        let preamble = self.build_react_preamble();
        let refresh = inline_module_tag(preamble.as_str());
        let application = mount_point_tag(props);
        layout_context(client.as_str(), entry.as_str(), refresh.as_str(), application.as_str())
    }

    /// Renders the development document for `props`. With a template set, the
    /// page comes from the template engine instead, given `build_context`.
    pub fn render(&self, props: &str) -> (r: String)
        requires
            self.template_engine is None,
        ensures
            r@ == self.document_for(props@),
    {
        self.build_document(props)
    }
}

impl Default for Development {
    fn default() -> (r: Self)
        ensures
            r.port == 5173,
            r.main@ == "src/main.ts"@,
            r.lang@ == "en"@,
            r.title@ == "Vite"@,
            !r.react,
            r.template_engine is None,
    {
        Development {
            port: 5173,
            main: "src/main.ts",
            lang: "en",
            title: "Vite",
            react: false,
            template_engine: None,
        }
    }
}

/// With React on, the development document holds the fast-refresh preamble,
/// then the dev-server client script, then the entry script, each strictly
/// after the one before.
pub proof fn lemma_dev_script_order(d: Development, props: Seq<char>)
    requires
        d.react,
    ensures
        ({
            let doc = d.document_for(props);
            let pre = inline_module(react_preamble(d.port));
            let client = module_script(client_url(d.port));
            let entry = module_script(dev_url(d.port, d.main@));
            exists|i: int, j: int, k: int|
                #![trigger occurs_at(doc, pre, i), occurs_at(doc, client, j), occurs_at(doc, entry, k)]
                i < j < k && occurs_at(doc, pre, i) && occurs_at(doc, client, j) && occurs_at(
                    doc,
                    entry,
                    k,
                )
        }),
{
    let doc = d.document_for(props);
    let pre = inline_module(react_preamble(d.port));
    let client = module_script(client_url(d.port));
    let entry = module_script(dev_url(d.port, d.main@));
    let head = crate::markup::document_head(d.lang@, d.title@);
    let tail = "</head><body>"@ + mount_point(props) + "</body></html>"@;
    reveal_strlit("<script type=\"module\">");
    reveal_strlit("<script type=\"module\" src=\"");
    assert(doc =~= head + pre + client + entry + tail);
    let i = head.len() as int;
    let j = i + pre.len();
    let k = j + client.len();
    assert(doc.subrange(i, i + pre.len()) =~= pre);
    assert(doc.subrange(j, j + client.len()) =~= client);
    assert(doc.subrange(k, k + entry.len()) =~= entry);
    assert(occurs_at(doc, pre, i) && occurs_at(doc, client, j) && occurs_at(doc, entry, k));
}
} // verus!
