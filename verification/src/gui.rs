//! The GUI abstractions: a `Renderable` trait for UI elements, reusable
//! components with HTML, CSS and properties, containers grouping
//! components, and the scripting helpers that build JS text. Handing the
//! rendered HTML to a window is the host application's part.

use vstd::prelude::*;

use crate::template::{apply_vars, pairs_view};

verus! {

use vstd::string::StringExecFns;

/// Anything that can appear in the UI: it renders to HTML.
pub trait Renderable: Sized {
    /// The HTML this element renders to.
    spec fn spec_render(&self) -> Seq<char>;

    /// Renders the element to HTML.
    fn render(&self) -> (r: String)
        ensures
            r@ == self.spec_render(),
    ;
}

/// A reusable GUI component: an id, an HTML template, CSS, and properties
/// substituted into the template's `{{key}}` placeholders, in the order
/// they were set.
#[derive(Debug)]
pub struct GUIComponent {
    /// The component id.
    pub id: String,
    /// The HTML template.
    pub html: String,
    /// The CSS injected beside the HTML.
    pub css: String,
    /// The properties, applied in order.
    pub props: Vec<(String, String)>,
}

/// The component's HTML with its properties substituted.
pub open spec fn spec_props_applied(c: GUIComponent) -> Seq<char> {
    apply_vars(c.html@, pairs_view(c.props@))
}

/// Two components agree on every observable field; they then render alike.
pub open spec fn component_like(a: GUIComponent, b: GUIComponent) -> bool {
    &&& a.id == b.id
    &&& a.html == b.html
    &&& a.css == b.css
    &&& a.props@ == b.props@
}

/// Two containers hold observably equal components; they then render alike.
pub open spec fn container_like(a: GUIContainer, b: GUIContainer) -> bool {
    &&& a.children@.len() == b.children@.len()
    &&& forall|i: int|
        0 <= i < a.children@.len() ==> component_like(
            #[trigger] a.children@[i],
            b.children@[i],
        )
}

/// The component's full rendering: the property-substituted HTML, preceded
/// by a style block when the component carries CSS.
pub open spec fn spec_render_component(c: GUIComponent) -> Seq<char> {
    if c.css@.len() == 0 {
        spec_props_applied(c)
    } else {
        "<style id=\""@ + c.id@ + "_style\">"@ + c.css@ + "</style>\n"@ + spec_props_applied(c)
    }
}

impl GUIComponent {
    /// Creates an empty component with the given id.
    pub fn new(id: &str) -> (r: GUIComponent)
        ensures
            r.id@ == id@,
            r.html@ == Seq::<char>::empty(),
            r.css@ == Seq::<char>::empty(),
            r.props@ == Seq::<(String, String)>::empty(),
    {
        GUIComponent { id: id.to_owned(), html: String::new(), css: String::new(), props: Vec::new() }
    }

    /// Sets the HTML template.
    pub fn with_html(self, html: &str) -> (r: GUIComponent)
        ensures
            r.id == self.id,
            r.html@ == html@,
            r.css == self.css,
            r.props == self.props,
    {
        let GUIComponent { id, html: _, css, props } = self;
        GUIComponent { id, html: html.to_owned(), css, props }
    }

    /// Sets the CSS.
    pub fn with_css(self, css: &str) -> (r: GUIComponent)
        ensures
            r.id == self.id,
            r.html == self.html,
            r.css@ == css@,
            r.props == self.props,
    {
        let GUIComponent { id, html, css: _, props } = self;
        GUIComponent { id, html, css: css.to_owned(), props }
    }

    /// Adds a property; properties apply in the order they were added.
    pub fn with_prop(self, key: &str, value: &str) -> (r: GUIComponent)
        ensures
            r.id == self.id,
            r.html == self.html,
            r.css == self.css,
            r.props@.len() == self.props@.len() + 1,
            r.props@.last().0@ == key@,
            r.props@.last().1@ == value@,
            r.props@.take(self.props@.len() as int) == self.props@,
    {
        let GUIComponent { id, html, css, mut props } = self;
        let ghost p0 = props@;
        props.push((key.to_owned(), value.to_owned()));
        proof {
            assert(props@.take(p0.len() as int) =~= p0);
        }
        GUIComponent { id, html, css, props }
    }

    /// Renders the HTML with the properties substituted, without the style
    /// block.
    pub fn render_with_props(&self) -> (r: String)
        ensures
            r@ == spec_props_applied(*self),
    {
        crate::template::substitute_all(self.html.as_str(), &self.props)
    }

    /// A field-for-field copy; it renders exactly as the original does.
    pub fn duplicate(&self) -> (r: GUIComponent)
        ensures
            component_like(r, *self),
            r.spec_render() == self.spec_render(),
    {
        let mut props: Vec<(String, String)> = Vec::new();
        let n = self.props.len();
        let mut i: usize = 0;
        while i < n
            invariant
                n == self.props.len(),
                i <= n,
                props@ == self.props@.take(i as int),
            decreases n - i,
        {
            props.push((self.props[i].0.clone(), self.props[i].1.clone()));
            i = i + 1;
            proof {
                assert(props@ =~= self.props@.take(i as int));
            }
        }
        proof {
            assert(self.props@.take(n as int) =~= self.props@);
        }
        GUIComponent {
            id: self.id.clone(),
            html: self.html.clone(),
            css: self.css.clone(),
            props,
        }
    }
}

impl Renderable for GUIComponent {
    open spec fn spec_render(&self) -> Seq<char> {
        spec_render_component(*self)
    }

    fn render(&self) -> (r: String) {
        let rendered = self.render_with_props();
        if self.css.as_str().is_empty() {
            rendered
        } else {
            let mut out = "<style id=\"".to_owned();
            out.append(self.id.as_str());
            out.append("_style\">");
            out.append(self.css.as_str());
            out.append("</style>\n");
            out.append(rendered.as_str());
            out
        }
    }
}

/// A container for components: panels, dashboards, grouped UI.
#[derive(Debug)]
pub struct GUIContainer {
    /// The children, rendered in order.
    pub children: Vec<GUIComponent>,
}

/// The children's renderings joined with a newline.
pub open spec fn spec_render_children(cs: Seq<GUIComponent>) -> Seq<char>
    decreases cs.len(),
{
    if cs.len() == 0 {
        Seq::empty()
    } else if cs.len() == 1 {
        spec_render_component(cs[0])
    } else {
        spec_render_component(cs[0]) + "\n"@ + spec_render_children(cs.drop_first())
    }
}

/// Joining one more child appends a newline and its rendering, except to an
/// empty list.
pub proof fn lemma_render_children_snoc(cs: Seq<GUIComponent>, c: GUIComponent)
    ensures
        spec_render_children(cs.push(c)) == if cs.len() == 0 {
            spec_render_component(c)
        } else {
            spec_render_children(cs) + "\n"@ + spec_render_component(c)
        },
    decreases cs.len(),
{
    if cs.len() == 0 {
        assert(cs.push(c)[0] == c);
    } else {
        assert(cs.push(c)[0] == cs[0]);
        assert(cs.push(c).drop_first() =~= cs.drop_first().push(c));
        lemma_render_children_snoc(cs.drop_first(), c);
        if cs.len() == 1 {
            assert(cs.drop_first().len() == 0);
        }
    }
}

/// Observably equal children render to the same joined text.
pub proof fn lemma_render_children_like(a: Seq<GUIComponent>, b: Seq<GUIComponent>)
    requires
        a.len() == b.len(),
        forall|i: int| 0 <= i < a.len() ==> component_like(#[trigger] a[i], b[i]),
    ensures
        spec_render_children(a) == spec_render_children(b),
    decreases a.len(),
{
    if a.len() == 0 {
    } else {
        assert(component_like(a[0], b[0]));
        assert(spec_render_component(a[0]) == spec_render_component(b[0]));
        assert forall|i: int| 0 <= i < a.drop_first().len() implies component_like(
            #[trigger] a.drop_first()[i],
            b.drop_first()[i],
        ) by {
            assert(a.drop_first()[i] == a[i + 1]);
            assert(b.drop_first()[i] == b[i + 1]);
        }
        lemma_render_children_like(a.drop_first(), b.drop_first());
    }
}

impl GUIContainer {
    /// Creates an empty container.
    pub fn new() -> (r: GUIContainer)
        ensures
            r.children@ == Seq::<GUIComponent>::empty(),
    {
        GUIContainer { children: Vec::new() }
    }

    /// Appends a component.
    pub fn add(self, component: GUIComponent) -> (r: GUIContainer)
        ensures
            r.children@ == self.children@.push(component),
    {
        let mut children = self.children;
        children.push(component);
        GUIContainer { children }
    }

    /// A component-for-component copy; it renders exactly as the original
    /// does.
    pub fn duplicate(&self) -> (r: GUIContainer)
        ensures
            container_like(r, *self),
            r.spec_render() == self.spec_render(),
    {
        let mut children: Vec<GUIComponent> = Vec::new();
        let n = self.children.len();
        let mut i: usize = 0;
        while i < n
            invariant
                n == self.children.len(),
                i <= n,
                children@.len() == i,
                forall|k: int|
                    0 <= k < i ==> component_like(#[trigger] children@[k], self.children@[k]),
            decreases n - i,
        {
            children.push(self.children[i].duplicate());
            i = i + 1;
        }
        let r = GUIContainer { children };
        proof {
            lemma_render_children_like(r.children@, self.children@);
        }
        r
    }
}

impl Renderable for GUIContainer {
    open spec fn spec_render(&self) -> Seq<char> {
        spec_render_children(self.children@)
    }

    fn render(&self) -> (r: String) {
        let n = self.children.len();
        let mut out = String::new();
        let mut i: usize = 0;
        proof {
            assert(self.children@.take(0) =~= Seq::<GUIComponent>::empty());
        }
        while i < n
            invariant
                n == self.children.len(),
                i <= n,
                out@ == spec_render_children(self.children@.take(i as int)),
            decreases n - i,
        {
            let piece = self.children[i].render();
            if i > 0 {
                out.append("\n");
            }
            out.append(piece.as_str());
            i = i + 1;
            proof {
                lemma_render_children_snoc(self.children@.take(i - 1), self.children@[i - 1]);
                assert(self.children@.take(i as int) =~= self.children@.take(i - 1).push(
                    self.children@[i - 1],
                ));
            }
        }
        proof {
            assert(self.children@.take(n as int) =~= self.children@);
        }
        out
    }
}

/// A JavaScript script that can be injected into the UI.
#[derive(Debug)]
pub struct Script {
    /// The script's name, used for its element id.
    pub name: String,
    /// The JS code.
    pub code: String,
}

impl Script {
    /// Creates a script with a name and JS code.
    pub fn new(name: &str, code: &str) -> (r: Script)
        ensures
            r.name@ == name@,
            r.code@ == code@,
    {
        Script { name: name.to_owned(), code: code.to_owned() }
    }

    /// Wraps the script in a `<script>` tag for injection.
    pub fn as_html(&self) -> (r: String)
        ensures
            r@ == "<script id=\"script_"@ + self.name@ + "\">"@ + self.code@ + "</script>"@,
    {
        let mut out = "<script id=\"script_".to_owned();
        out.append(self.name.as_str());
        out.append("\">");
        out.append(self.code.as_str());
        out.append("</script>");
        out
    }
}

/// Builds the JS that binds a document event to a handler function.
pub fn bind_event(event: &str, handler: &str) -> (r: String)
    ensures
        r@ == "\n        document.addEventListener(\""@ + event@ + "\", (e) => {\n            if (typeof "@
            + handler@ + " === \"function\") {\n                "@ + handler@
            + "(e.detail);\n            }\n        });\n        "@,
{
    let mut out = "\n        document.addEventListener(\"".to_owned();
    out.append(event);
    out.append("\", (e) => {\n            if (typeof ");
    out.append(handler);
    out.append(" === \"function\") {\n                ");
    out.append(handler);
    out.append("(e.detail);\n            }\n        });\n        ");
    out
}

} // verus!
