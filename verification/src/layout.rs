//! Profile layouts: a limited description of a tree of HTML elements, and
//! its editor renderings.
use vstd::prelude::*;
use crate::kv::StringMap;
use crate::model::{opt_str_view, Profile};
use crate::text::{push_all, push_decimal, push_str, string_of, strings_view, utf8_len};

verus! {

/// The kind of a layout component.
#[derive(Clone, Copy, Debug, PartialEq, Eq, Structural)]
pub enum ComponentName {
    /// An empty element.
    Empty,
    /// A flex container.
    Flex,
    /// The profile's banner.
    Banner,
    /// A markdown block.
    Markdown,
    /// The profile's feed (responses, questions, etc.).
    Feed,
    /// The profile's tabs (social, feed/questions/mod, etc.).
    Tabs,
    /// The profile's ask box.
    Ask,
    /// The profile's name and avatar.
    Name,
    /// The profile's about section (about and biography).
    About,
    /// The profile's action buttons.
    Actions,
    /// A `<hr>` element.
    Divider,
    /// A `<style>` element.
    Style,
    /// The site footer.
    Footer,
}

/// The name of a component kind, as its debug form prints it.
pub open spec fn component_label(c: ComponentName) -> Seq<char> {
    match c {
        ComponentName::Empty => "Empty"@,
        ComponentName::Flex => "Flex"@,
        ComponentName::Banner => "Banner"@,
        ComponentName::Markdown => "Markdown"@,
        ComponentName::Feed => "Feed"@,
        ComponentName::Tabs => "Tabs"@,
        ComponentName::Ask => "Ask"@,
        ComponentName::Name => "Name"@,
        ComponentName::About => "About"@,
        ComponentName::Actions => "Actions"@,
        ComponentName::Divider => "Divider"@,
        ComponentName::Style => "Style"@,
        ComponentName::Footer => "Footer"@,
    }
}

impl ComponentName {
    /// The name of this component kind.
    pub fn label(&self) -> (r: &'static str)
        ensures
            r@ == component_label(*self),
    {
        match self {
            ComponentName::Empty => "Empty",
            ComponentName::Flex => "Flex",
            ComponentName::Banner => "Banner",
            ComponentName::Markdown => "Markdown",
            ComponentName::Feed => "Feed",
            ComponentName::Tabs => "Tabs",
            ComponentName::Ask => "Ask",
            ComponentName::Name => "Name",
            ComponentName::About => "About",
            ComponentName::Actions => "Actions",
            ComponentName::Divider => "Divider",
            ComponentName::Style => "Style",
            ComponentName::Footer => "Footer",
        }
    }
}

impl Default for ComponentName {
    fn default() -> (r: ComponentName)
        ensures
            r == ComponentName::Empty,
    {
        ComponentName::Empty
    }
}

/// A component of the layout. Essentially just a limited description of an
/// HTML element.
#[derive(Debug)]
pub struct LayoutComponent {
    /// The name of a layout file this component imports (empty: none).
    pub json: String,
    pub component: ComponentName,
    pub options: StringMap,
    pub children: Vec<LayoutComponent>,
}

/// What the free renderer's template is given: the profile whose layout is
/// rendered and the component to render. Profile-specific components are
/// rendered by their name only.
#[derive(Debug)]
pub struct FreeRendererTemplate<'a> {
    pub other: &'a Profile,
    pub component: &'a LayoutComponent,
}

/// The value of option `k` of `c`, or `d` (empty when `None`) when unset.
pub open spec fn option_value(c: LayoutComponent, k: Seq<char>, d: Option<Seq<char>>) -> Seq<char> {
    if c.options@.dom().contains(k) {
        c.options@[k]
    } else {
        match d {
            Some(v) => v,
            None => Seq::empty(),
        }
    }
}

/// `prefix + v` when `v` is not empty, else nothing.
pub open spec fn prefixed(prefix: Seq<char>, v: Seq<char>) -> Seq<char> {
    if v.len() > 0 { prefix + v } else { Seq::empty() }
}

/// The number of bytes in the keys and values of `s`.
pub open spec fn pairs_size(s: Seq<(Seq<char>, Seq<char>)>) -> nat
    decreases s.len(),
{
    if s.len() == 0 {
        0
    } else {
        pairs_size(s.drop_last()) + utf8_len(s.last().0) + utf8_len(s.last().1)
    }
}

/// The number of bytes in the option keys and values of `c`.
pub open spec fn options_size(c: LayoutComponent) -> nat {
    pairs_size(c.options.pairs())
}

/// Whether the option sizes of `c` and of all its descendants fit a `usize`.
pub open spec fn sizes_fit(c: LayoutComponent) -> bool
    decreases c, 1nat,
{
    options_size(c) <= usize::MAX && all_sizes_fit(c.children@)
}

/// Whether the option sizes of all components of `cs` (and descendants) fit.
pub open spec fn all_sizes_fit(cs: Seq<LayoutComponent>) -> bool
    decreases cs, 0nat,
{
    if cs.len() == 0 {
        true
    } else {
        sizes_fit(cs[0]) && all_sizes_fit(cs.subrange(1, cs.len() as int))
    }
}

/// The classes of a flex container shared by its renderings.
pub open spec fn flex_classes(c: LayoutComponent) -> Seq<char> {
    prefixed("flex-"@, option_value(c, "direction"@, None)) + " "@
        + prefixed("gap-"@, option_value(c, "gap"@, None)) + " "@
        + (if option_value(c, "collapse"@, None).len() > 0 { "flex-collapse"@ } else { Seq::empty() })
        + " "@ + prefixed("w-"@, option_value(c, "width"@, None))
}

/// The editor block rendering of `c`.
pub open spec fn block_html(c: LayoutComponent) -> Seq<char>
    decreases c, 1nat,
{
    if c.component == ComponentName::Flex {
        "<div data-component-name=\""@ + component_label(c.component)
            + "\" class=\"layout_editor_block flex "@ + flex_classes(c) + " "@
            + prefixed("sm:"@, option_value(c, "mobile"@, None)) + "\">"@
            + blocks_html(c.children@) + "</div>"@
    } else {
        "<div class=\"layout_editor_block "@
            + (if c.component == ComponentName::Markdown { "w-full"@ } else { Seq::empty() })
            + "\" data-component-name=\""@ + component_label(c.component) + "\">"@
            + component_label(c.component) + " ("@ + crate::text::decimal(options_size(c)) + "b)</div>"@
    }
}

/// The editor block renderings of `cs`, one after another.
pub open spec fn blocks_html(cs: Seq<LayoutComponent>) -> Seq<char>
    decreases cs, 0nat,
{
    if cs.len() == 0 {
        Seq::empty()
    } else {
        block_html(cs[0]) + blocks_html(cs.subrange(1, cs.len() as int))
    }
}

/// The editor tree rendering of `c`.
pub open spec fn tree_html(c: LayoutComponent) -> Seq<char>
    decreases c, 1nat,
{
    let tag = if c.children.len() == 0 { "div"@ } else { "details"@ };
    "<"@ + tag + " class=\"layout_editor_tree_block flex flex-col gap-2 w-full\" data-component-name=\""@
        + component_label(c.component) + "\">\n                <summary><b>"@
        + component_label(c.component) + " ("@ + crate::text::decimal(options_size(c))
        + "b)</b></summary>\n                "@ + trees_html(c.children@)
        + "\n            </"@ + tag + ">"@
}

/// The editor tree renderings of `cs`, one after another.
pub open spec fn trees_html(cs: Seq<LayoutComponent>) -> Seq<char>
    decreases cs, 0nat,
{
    if cs.len() == 0 {
        Seq::empty()
    } else {
        tree_html(cs[0]) + trees_html(cs.subrange(1, cs.len() as int))
    }
}

/// Whether the full renderer meets no import in `c`: its `json` is empty,
/// and for a flex container so is that of every child it renders.
pub open spec fn resolved(c: LayoutComponent) -> bool
    decreases c, 1nat,
{
    c.json@.len() == 0 && (c.component == ComponentName::Flex ==> all_resolved(c.children@))
}

/// Whether every component of `cs` is [`resolved`].
pub open spec fn all_resolved(cs: Seq<LayoutComponent>) -> bool
    decreases cs, 0nat,
{
    if cs.len() == 0 {
        true
    } else {
        resolved(cs[0]) && all_resolved(cs.subrange(1, cs.len() as int))
    }
}

/// The markdown texts that the full renderer meets in `c`, in the order it
/// meets them.
pub open spec fn md_texts(c: LayoutComponent) -> Seq<Seq<char>>
    decreases c, 1nat,
{
    if c.component == ComponentName::Markdown {
        seq![option_value(c, "text"@, None)]
    } else if c.component == ComponentName::Flex {
        md_texts_all(c.children@)
    } else {
        Seq::empty()
    }
}

/// The markdown texts of the components of `cs`, one after another.
pub open spec fn md_texts_all(cs: Seq<LayoutComponent>) -> Seq<Seq<char>>
    decreases cs, 0nat,
{
    if cs.len() == 0 {
        Seq::empty()
    } else {
        md_texts(cs[0]) + md_texts_all(cs.subrange(1, cs.len() as int))
    }
}

/// The opening tag of a flex container in the full rendering.
pub open spec fn flex_open(c: LayoutComponent) -> Seq<char> {
    "<div class=\"flex "@ + flex_classes(c) + " "@ + option_value(c, "class"@, None) + "\" style=\""@
        + option_value(c, "style"@, None) + "\" id=\""@ + option_value(c, "id"@, None) + "\">"@
}

/// The full rendering of a component that is not a flex container, where
/// `md_html` is the HTML of its markdown text (for a markdown block).
pub open spec fn leaf_html(c: LayoutComponent, md_html: Seq<char>) -> Seq<char> {
    if c.component == ComponentName::Divider {
        "<hr class=\""@ + option_value(c, "class"@, None) + "\" />"@
    } else if c.component == ComponentName::Markdown {
        "<div class=\""@ + option_value(c, "class"@, None) + "\">"@ + md_html + "</div>"@
    } else if c.component == ComponentName::Style {
        "<style>"@ + crate::text::replace_all(option_value(c, "data"@, None), "</"@, Seq::empty()) + "</style>"@
    } else if c.component == ComponentName::Empty {
        Seq::empty()
    } else {
        "ComponentName::"@ + component_label(c.component)
    }
}

/// The full rendering of `c`, where `md` holds the HTML of the markdown
/// texts it meets ([`md_texts`]), in order.
pub open spec fn render_html(c: LayoutComponent, md: Seq<Seq<char>>) -> Seq<char>
    decreases c, 1nat,
{
    if c.component == ComponentName::Flex {
        flex_open(c) + renders_html(c.children@, md) + "</div>"@
    } else {
        leaf_html(c, if c.component == ComponentName::Markdown { md[0] } else { Seq::empty() })
    }
}

/// The pieces of `s`, one after another.
pub open spec fn concat_all(s: Seq<Seq<char>>) -> Seq<char>
    decreases s.len(),
{
    if s.len() == 0 {
        Seq::empty()
    } else {
        concat_all(s.drop_last()) + s.last()
    }
}

/// The rendering of `c` by the renderer that hands a flex container's
/// children to the profile template: `children` are the template's
/// renderings of them, in order; `md_html` is the HTML of the component's
/// markdown text (for a markdown block).
pub open spec fn junk_html(c: LayoutComponent, children: Seq<Seq<char>>, md_html: Seq<char>) -> Seq<char> {
    if c.component == ComponentName::Flex {
        flex_open(c) + concat_all(children) + "</div>"@
    } else {
        leaf_html(c, md_html)
    }
}

/// The full renderings of `cs`, one after another; `md` holds the HTML of
/// their markdown texts in order.
pub open spec fn renders_html(cs: Seq<LayoutComponent>, md: Seq<Seq<char>>) -> Seq<char>
    decreases cs, 0nat,
{
    if cs.len() == 0 {
        Seq::empty()
    } else {
        let n = md_texts(cs[0]).len() as int;
        render_html(cs[0], md.subrange(0, n)) + renders_html(cs.subrange(1, cs.len() as int), md.subrange(
            n,
            md.len() as int,
        ))
    }
}

/// The file of the first import that the full renderer meets in `c`.
pub open spec fn first_import(c: LayoutComponent) -> Option<Seq<char>>
    decreases c, 1nat,
{
    if c.json@.len() > 0 {
        Some(c.json@)
    } else if c.component == ComponentName::Flex {
        first_import_all(c.children@)
    } else {
        None
    }
}

/// The file of the first import that the full renderer meets in `cs`.
pub open spec fn first_import_all(cs: Seq<LayoutComponent>) -> Option<Seq<char>>
    decreases cs, 0nat,
{
    if cs.len() == 0 {
        None
    } else {
        match first_import(cs[0]) {
            Some(f) => Some(f),
            None => first_import_all(cs.subrange(1, cs.len() as int)),
        }
    }
}

/// Whether `r` is what following an import yields: the component that the
/// file holds (`loaded`), or the empty component where it could not be read.
pub open spec fn filled_by(r: LayoutComponent, loaded: Option<LayoutComponent>) -> bool {
    match loaded {
        Some(l) => r == l,
        None => r.json@.len() == 0 && r.component == ComponentName::Empty
            && r.options@ == Map::<Seq<char>, Seq<char>>::empty() && r.children@.len() == 0,
    }
}

/// Whether `r` is `c` with the first import that the full renderer meets
/// followed (see [`filled_by`]), and nothing else changed.
pub open spec fn import_filled(c: LayoutComponent, r: LayoutComponent, loaded: Option<LayoutComponent>) -> bool
    decreases c, 1nat,
{
    if c.json@.len() > 0 {
        filled_by(r, loaded)
    } else if c.component == ComponentName::Flex {
        &&& r.json == c.json
        &&& r.component == c.component
        &&& r.options == c.options
        &&& imports_filled(c.children@, r.children@, loaded)
    } else {
        r == c
    }
}

/// Whether `rs` is `cs` with the first import that the full renderer meets
/// followed, and nothing else changed.
pub open spec fn imports_filled(cs: Seq<LayoutComponent>, rs: Seq<LayoutComponent>, loaded: Option<
    LayoutComponent,
>) -> bool
    decreases cs, 0nat,
{
    if cs.len() == 0 {
        rs.len() == 0
    } else if rs.len() == 0 {
        false
    } else if first_import(cs[0]) is Some {
        import_filled(cs[0], rs[0], loaded) && rs.subrange(1, rs.len() as int) == cs.subrange(1, cs.len() as int)
    } else {
        rs[0] == cs[0] && imports_filled(cs.subrange(1, cs.len() as int), rs.subrange(1, rs.len() as int), loaded)
    }
}

proof fn lemma_first_import_resolved(c: LayoutComponent)
    ensures
        first_import(c) is None <==> resolved(c),
    decreases c, 1nat,
{
    if c.json@.len() == 0 && c.component == ComponentName::Flex {
        lemma_first_import_all_resolved(c.children@);
    }
}

proof fn lemma_first_import_all_resolved(cs: Seq<LayoutComponent>)
    ensures
        first_import_all(cs) is None <==> all_resolved(cs),
    decreases cs, 0nat,
{
    if cs.len() > 0 {
        lemma_first_import_resolved(cs[0]);
        lemma_first_import_all_resolved(cs.subrange(1, cs.len() as int));
    }
}

proof fn lemma_imports_filled_at(cs: Seq<LayoutComponent>, k: int, rk: LayoutComponent, loaded: Option<
    LayoutComponent,
>)
    requires
        0 <= k < cs.len(),
        forall|j: int| 0 <= j < k ==> first_import(#[trigger] cs[j]) is None,
        first_import(cs[k]) is Some,
        import_filled(cs[k], rk, loaded),
    ensures
        imports_filled(cs, cs.update(k, rk), loaded),
    decreases k,
{
    let rs = cs.update(k, rk);
    if k == 0 {
        assert(rs.subrange(1, rs.len() as int) =~= cs.subrange(1, cs.len() as int));
    } else {
        let t = cs.subrange(1, cs.len() as int);
        assert forall|j: int| 0 <= j < k - 1 implies first_import(#[trigger] t[j]) is None by {
            assert(t[j] == cs[j + 1]);
        }
        assert(first_import(cs[0]) is None);
        lemma_imports_filled_at(t, k - 1, rk, loaded);
        assert(rs.subrange(1, rs.len() as int) =~= t.update(k - 1, rk));
    }
}

proof fn lemma_imports_unchanged(cs: Seq<LayoutComponent>, loaded: Option<LayoutComponent>)
    requires
        forall|j: int| 0 <= j < cs.len() ==> first_import(#[trigger] cs[j]) is None,
    ensures
        imports_filled(cs, cs, loaded),
    decreases cs.len(),
{
    if cs.len() > 0 {
        let t = cs.subrange(1, cs.len() as int);
        assert forall|j: int| 0 <= j < t.len() implies first_import(#[trigger] t[j]) is None by {
            assert(t[j] == cs[j + 1]);
        }
        assert(first_import(cs[0]) is None);
        lemma_imports_unchanged(t, loaded);
    }
}

proof fn lemma_no_import_keeps_all(cs: Seq<LayoutComponent>, rs: Seq<LayoutComponent>, loaded: Option<
    LayoutComponent,
>)
    requires
        first_import_all(cs) is None,
        imports_filled(cs, rs, loaded),
    ensures
        rs == cs,
    decreases cs.len(),
{
    if cs.len() > 0 {
        lemma_no_import_keeps_all(cs.subrange(1, cs.len() as int), rs.subrange(1, rs.len() as int), loaded);
        assert(rs =~= cs) by {
            assert forall|j: int| 0 <= j < rs.len() implies rs[j] == cs[j] by {
                if j > 0 {
                    assert(rs[j] == rs.subrange(1, rs.len() as int)[j - 1]);
                    assert(cs[j] == cs.subrange(1, cs.len() as int)[j - 1]);
                }
            }
        }
    }
}

/// Following an import where the renderer meets none changes nothing: a
/// resolved layout stays as it is, whatever file contents are offered.
pub proof fn law_resolved_layout_is_fixed(c: LayoutComponent, r: LayoutComponent, loaded: Option<LayoutComponent>)
    requires
        resolved(c),
        import_filled(c, r, loaded),
    ensures
        r.json == c.json,
        r.component == c.component,
        r.options == c.options,
        r.children@ == c.children@,
{
    lemma_first_import_resolved(c);
    if c.component == ComponentName::Flex {
        lemma_no_import_keeps_all(c.children@, r.children@, loaded);
    }
}

proof fn lemma_pairs_size_prefix(s: Seq<(Seq<char>, Seq<char>)>, i: int)
    requires
        0 <= i <= s.len(),
    ensures
        pairs_size(s.subrange(0, i)) <= pairs_size(s),
    decreases s.len() - i,
{
    if i < s.len() {
        lemma_pairs_size_prefix(s, i + 1);
        assert(s.subrange(0, i + 1).drop_last() =~= s.subrange(0, i));
    } else {
        assert(s.subrange(0, i) =~= s);
    }
}

impl LayoutComponent {
    /// A component that imports the layout file `file`; it is filled in
    /// from that file by [`LayoutComponent::fill_from`].
    pub fn import(file: &str) -> (r: LayoutComponent)
        ensures
            r.json@ == file@,
            r.component == ComponentName::Empty,
            r.options@ == Map::<Seq<char>, Seq<char>>::empty(),
            r.children@.len() == 0,
    {
        LayoutComponent {
            json: file.to_owned(),
            component: ComponentName::Empty,
            options: StringMap::new(),
            children: Vec::new(),
        }
    }

    /// The component that a layout file holds: `loaded` is what the file
    /// `file` parses to, or `None` where it could not be read.
    pub fn from_json_file(file: &str, loaded: Option<LayoutComponent>) -> (r: LayoutComponent)
        ensures
            file@.len() > 0 ==> match loaded {
                Some(l) => r == l,
                None => r.json@.len() == 0 && r.component == ComponentName::Empty
                    && r.options@ == Map::<Seq<char>, Seq<char>>::empty() && r.children@.len() == 0,
            },
            file@.len() == 0 ==> r.json@.len() == 0 && r.component == ComponentName::Empty
                && r.options@ == Map::<Seq<char>, Seq<char>>::empty() && r.children@.len() == 0,
    {
        LayoutComponent::import(file).fill_from(loaded)
    }

    /// This component with its import followed: where `json` names a layout
    /// file, the component that file holds (`loaded`, or the default
    /// component where the file could not be read); otherwise this component.
    pub fn fill_from(self, loaded: Option<LayoutComponent>) -> (r: LayoutComponent)
        ensures
            self.json@.len() == 0 ==> r == self,
            self.json@.len() > 0 ==> match loaded {
                Some(l) => r == l,
                None => r.json@.len() == 0 && r.component == ComponentName::Empty
                    && r.options@ == Map::<Seq<char>, Seq<char>>::empty() && r.children@.len() == 0,
            },
    {
        if self.json.as_str().is_empty() {
            return self;
        }
        match loaded {
            Some(l) => l,
            None => LayoutComponent::default(),
        }
    }

    /// Get the value of an option in the `options` map. Accepts a default
    /// substitute.
    pub fn option(&self, k: &str, d: Option<String>) -> (r: String)
        ensures
            r@ == option_value(*self, k@, match d { Some(v) => Some(v@), None => None }),
    {
        match self.options.get(k) {
            Some(v) => v.clone(),
            None => {
                if let Some(d) = d {
                    d
                } else {
                    String::new()
                }
            },
        }
    }

    /// The number of bytes in the option keys and values.
    fn options_byte_size(&self) -> (r: usize)
        requires
            options_size(*self) <= usize::MAX,
        ensures
            r == options_size(*self),
    {
        let entries = self.options.entries();
        let ghost s = self.options.pairs();
        let mut size: usize = 0;
        let mut i: usize = 0;
        while i < entries.len()
            invariant
                s == crate::kv::pairs_view(entries@),
                pairs_size(s) <= usize::MAX,
                i <= entries.len(),
                size == pairs_size(s.subrange(0, i as int)),
            decreases entries.len() - i,
        {
            proof {
                lemma_pairs_size_prefix(s, i + 1);
                assert(s.subrange(0, i + 1).drop_last() =~= s.subrange(0, i as int));
            }
            let kl = crate::text::byte_len(entries[i].0.as_str());
            let vl = crate::text::byte_len(entries[i].1.as_str());
            size = size + kl + vl;
            i = i + 1;
        }
        assert(s.subrange(0, i as int) =~= s);
        size
    }

    /// Appends the shared flex classes to `out`.
    #[verifier::spinoff_prover]
    fn push_flex_classes(&self, out: &mut Vec<char>)
        ensures
            final(out)@ == old(out)@ + flex_classes(*self),
    {
        let direction = self.option("direction", None);
        if !direction.as_str().is_empty() {
            push_str(out, "flex-");
            push_str(out, direction.as_str());
        }
        push_str(out, " ");
        let gap = self.option("gap", None);
        if !gap.as_str().is_empty() {
            push_str(out, "gap-");
            push_str(out, gap.as_str());
        }
        push_str(out, " ");
        let collapse = self.option("collapse", None);
        if !collapse.as_str().is_empty() {
            push_str(out, "flex-collapse");
        }
        push_str(out, " ");
        let width = self.option("width", None);
        if !width.as_str().is_empty() {
            push_str(out, "w-");
            push_str(out, width.as_str());
        }
        assert(final(out)@ =~= old(out)@ + flex_classes(*self));
    }

    fn push_block(&self, out: &mut Vec<char>)
        requires
            sizes_fit(*self),
        ensures
            final(out)@ == old(out)@ + block_html(*self),
        decreases self, 1nat,
    {
        let ghost start = out@;
        if self.component == ComponentName::Flex {
            push_str(out, "<div data-component-name=\"");
            push_str(out, self.component.label());
            push_str(out, "\" class=\"layout_editor_block flex ");
            self.push_flex_classes(out);
            push_str(out, " ");
            let mobile = self.option("mobile", None);
            if !mobile.as_str().is_empty() {
                push_str(out, "sm:");
                push_str(out, mobile.as_str());
            }
            push_str(out, "\">");
            let ghost mid = out@;
            Self::push_blocks(&self.children, out);
            push_str(out, "</div>");
            assert(out@ =~= start + block_html(*self));
        } else {
            push_str(out, "<div class=\"layout_editor_block ");
            if self.component == ComponentName::Markdown {
                push_str(out, "w-full");
            }
            push_str(out, "\" data-component-name=\"");
            push_str(out, self.component.label());
            push_str(out, "\">");
            push_str(out, self.component.label());
            push_str(out, " (");
            let size = self.options_byte_size();
            push_decimal(out, size as u64);
            push_str(out, "b)</div>");
            assert(out@ =~= start + block_html(*self));
        }
    }

    fn push_blocks(cs: &Vec<LayoutComponent>, out: &mut Vec<char>)
        requires
            all_sizes_fit(cs@),
        ensures
            final(out)@ == old(out)@ + blocks_html(cs@),
        decreases cs@, 2nat,
    {
        let mut i: usize = 0;
        assert(cs@.subrange(0, cs.len() as int) =~= cs@);
        while i < cs.len()
            invariant
                i <= cs.len(),
                all_sizes_fit(cs@.subrange(i as int, cs.len() as int)),
                out@ + blocks_html(cs@.subrange(i as int, cs.len() as int)) == old(out)@ + blocks_html(cs@),
            decreases cs.len() - i,
        {
            let ghost rest = cs@.subrange(i as int, cs.len() as int);
            assert(rest[0] == cs@[i as int]);
            assert(rest.subrange(1, rest.len() as int) =~= cs@.subrange(i + 1, cs.len() as int));
            let ghost before = out@;
            cs[i].push_block(out);
            assert(out@ + blocks_html(cs@.subrange(i + 1, cs.len() as int))
                =~= before + blocks_html(rest));
            i = i + 1;
        }
    }

    /// Render the component to block format. This format doesn't show the
    /// fully rendered form of the layout, but instead just blocks which
    /// represent the component.
    pub fn render_block(&self) -> (r: String)
        requires
            sizes_fit(*self),
        ensures
            r@ == block_html(*self),
    {
        let mut out: Vec<char> = Vec::new();
        self.push_block(&mut out);
        assert(out@ =~= block_html(*self));
        string_of(out.as_slice())
    }

    fn push_tree(&self, out: &mut Vec<char>)
        requires
            sizes_fit(*self),
        ensures
            final(out)@ == old(out)@ + tree_html(*self),
        decreases self, 1nat,
    {
        let ghost start = out@;
        let tag = if self.children.len() == 0 { "div" } else { "details" };
        push_str(out, "<");
        push_str(out, tag);
        push_str(out, " class=\"layout_editor_tree_block flex flex-col gap-2 w-full\" data-component-name=\"");
        push_str(out, self.component.label());
        push_str(out, "\">\n                <summary><b>");
        push_str(out, self.component.label());
        push_str(out, " (");
        let size = self.options_byte_size();
        push_decimal(out, size as u64);
        push_str(out, "b)</b></summary>\n                ");
        Self::push_trees(&self.children, out);
        push_str(out, "\n            </");
        push_str(out, tag);
        push_str(out, ">");
        assert(out@ =~= start + tree_html(*self));
    }

    fn push_trees(cs: &Vec<LayoutComponent>, out: &mut Vec<char>)
        requires
            all_sizes_fit(cs@),
        ensures
            final(out)@ == old(out)@ + trees_html(cs@),
        decreases cs@, 2nat,
    {
        let mut i: usize = 0;
        assert(cs@.subrange(0, cs.len() as int) =~= cs@);
        while i < cs.len()
            invariant
                i <= cs.len(),
                all_sizes_fit(cs@.subrange(i as int, cs.len() as int)),
                out@ + trees_html(cs@.subrange(i as int, cs.len() as int)) == old(out)@ + trees_html(cs@),
            decreases cs.len() - i,
        {
            let ghost rest = cs@.subrange(i as int, cs.len() as int);
            assert(rest[0] == cs@[i as int]);
            assert(rest.subrange(1, rest.len() as int) =~= cs@.subrange(i + 1, cs.len() as int));
            let ghost before = out@;
            cs[i].push_tree(out);
            assert(out@ + trees_html(cs@.subrange(i + 1, cs.len() as int))
                =~= before + trees_html(rest));
            i = i + 1;
        }
    }

    /// Render the component to tree format (using HTML `<details>`).
    pub fn render_tree(&self) -> (r: String)
        requires
            sizes_fit(*self),
        ensures
            r@ == tree_html(*self),
    {
        let mut out: Vec<char> = Vec::new();
        self.push_tree(&mut out);
        assert(out@ =~= tree_html(*self));
        string_of(out.as_slice())
    }
}

impl LayoutComponent {
    fn push_md_texts(&self, out: &mut Vec<String>)
        ensures
            strings_view(final(out)@) == strings_view(old(out)@) + md_texts(*self),
        decreases self, 1nat,
    {
        if self.component == ComponentName::Markdown {
            let ghost before = strings_view(out@);
            let t = self.option("text", None);
            out.push(t);
            assert(strings_view(out@) =~= before + md_texts(*self));
        } else if self.component == ComponentName::Flex {
            Self::push_md_texts_all(&self.children, out);
        } else {
            assert(strings_view(out@) =~= strings_view(out@) + md_texts(*self));
        }
    }

    fn push_md_texts_all(cs: &Vec<LayoutComponent>, out: &mut Vec<String>)
        ensures
            strings_view(final(out)@) == strings_view(old(out)@) + md_texts_all(cs@),
        decreases cs@, 2nat,
    {
        let mut i: usize = 0;
        assert(cs@.subrange(0, cs.len() as int) =~= cs@);
        while i < cs.len()
            invariant
                i <= cs.len(),
                strings_view(out@) + md_texts_all(cs@.subrange(i as int, cs.len() as int))
                    == strings_view(old(out)@) + md_texts_all(cs@),
            decreases cs.len() - i,
        {
            let ghost rest = cs@.subrange(i as int, cs.len() as int);
            assert(rest[0] == cs@[i as int]);
            assert(rest.subrange(1, rest.len() as int) =~= cs@.subrange(i + 1, cs.len() as int));
            let ghost before = strings_view(out@);
            cs[i].push_md_texts(out);
            assert(strings_view(out@) + md_texts_all(cs@.subrange(i + 1, cs.len() as int))
                =~= before + md_texts_all(rest));
            i = i + 1;
        }
        assert(cs@.subrange(cs.len() as int, cs.len() as int) =~= Seq::<LayoutComponent>::empty());
        assert(strings_view(out@) + Seq::<Seq<char>>::empty() =~= strings_view(out@));
    }

    fn push_flex_open(&self, out: &mut Vec<char>)
        ensures
            final(out)@ == old(out)@ + flex_open(*self),
    {
        let ghost start = out@;
        push_str(out, "<div class=\"flex ");
        self.push_flex_classes(out);
        push_str(out, " ");
        let class = self.option("class", None);
        push_str(out, class.as_str());
        push_str(out, "\" style=\"");
        let style = self.option("style", None);
        push_str(out, style.as_str());
        push_str(out, "\" id=\"");
        let id = self.option("id", None);
        push_str(out, id.as_str());
        push_str(out, "\">");
        assert(out@ =~= start + flex_open(*self));
    }

    fn push_leaf(&self, md_html: &str, out: &mut Vec<char>)
        requires
            self.component != ComponentName::Flex,
        ensures
            final(out)@ == old(out)@ + leaf_html(*self, md_html@),
    {
        let ghost start = out@;
        if self.component == ComponentName::Divider {
            push_str(out, "<hr class=\"");
            let class = self.option("class", None);
            push_str(out, class.as_str());
            push_str(out, "\" />");
        } else if self.component == ComponentName::Markdown {
            push_str(out, "<div class=\"");
            let class = self.option("class", None);
            push_str(out, class.as_str());
            push_str(out, "\">");
            push_str(out, md_html);
            push_str(out, "</div>");
        } else if self.component == ComponentName::Style {
            proof {
                reveal_strlit("</");
                reveal_strlit("");
            }
            push_str(out, "<style>");
            let data = self.option("data", None);
            let cleaned = crate::text::replace_str(data.as_str(), "</", "");
            assert(""@ =~= Seq::<char>::empty());
            push_str(out, cleaned.as_str());
            push_str(out, "</style>");
        } else if self.component == ComponentName::Empty {
        } else {
            push_str(out, "ComponentName::");
            push_str(out, self.component.label());
        }
        assert(out@ =~= start + leaf_html(*self, md_html@));
    }

    fn push_render(&self, md: &Vec<String>, pos: usize, out: &mut Vec<char>) -> (next: usize)
        requires
            resolved(*self),
            pos + md_texts(*self).len() <= md@.len(),
        ensures
            next == pos + md_texts(*self).len(),
            final(out)@ == old(out)@ + render_html(*self, strings_view(md@).subrange(pos as int, next as int)),
        decreases self, 1nat,
    {
        let ghost start = out@;
        let ghost mdv = strings_view(md@);
        if self.component == ComponentName::Flex {
            self.push_flex_open(out);
            let next = Self::push_render_all(&self.children, md, pos, out);
            push_str(out, "</div>");
            assert(out@ =~= start + render_html(*self, mdv.subrange(pos as int, next as int)));
            next
        } else if self.component == ComponentName::Markdown {
            assert(md_texts(*self).len() == 1);
            let n = md.len();
            assert(pos < n);
            self.push_leaf(md[pos].as_str(), out);
            assert(mdv.subrange(pos as int, pos + 1)[0] == md@[pos as int]@);
            assert(out@ =~= start + render_html(*self, mdv.subrange(pos as int, pos + 1)));
            pos + 1
        } else {
            self.push_leaf("", out);
            proof {
                reveal_strlit("");
            }
            assert(""@ =~= Seq::<char>::empty());
            assert(out@ =~= start + render_html(*self, mdv.subrange(pos as int, pos as int)));
            pos
        }
    }

    fn push_render_all(cs: &Vec<LayoutComponent>, md: &Vec<String>, pos: usize, out: &mut Vec<char>) -> (next:
        usize)
        requires
            all_resolved(cs@),
            pos + md_texts_all(cs@).len() <= md@.len(),
        ensures
            next == pos + md_texts_all(cs@).len(),
            final(out)@ == old(out)@ + renders_html(cs@, strings_view(md@).subrange(pos as int, next as int)),
        decreases cs@, 2nat,
    {
        let ghost mdv = strings_view(md@);
        let ghost end = pos + md_texts_all(cs@).len();
        let mut p: usize = pos;
        let mut i: usize = 0;
        assert(cs@.subrange(0, cs.len() as int) =~= cs@);
        while i < cs.len()
            invariant
                mdv == strings_view(md@),
                end <= md@.len(),
                i <= cs.len(),
                pos <= p <= end,
                p + md_texts_all(cs@.subrange(i as int, cs.len() as int)).len() == end,
                all_resolved(cs@.subrange(i as int, cs.len() as int)),
                out@ + renders_html(cs@.subrange(i as int, cs.len() as int), mdv.subrange(p as int, end))
                    == old(out)@ + renders_html(cs@, mdv.subrange(pos as int, end)),
            decreases cs.len() - i,
        {
            let ghost rest = cs@.subrange(i as int, cs.len() as int);
            assert(rest[0] == cs@[i as int]);
            assert(rest.subrange(1, rest.len() as int) =~= cs@.subrange(i + 1, cs.len() as int));
            let ghost n0 = md_texts(rest[0]).len() as int;
            let ghost m = mdv.subrange(p as int, end);
            assert(m.subrange(0, n0) =~= mdv.subrange(p as int, p + n0));
            assert(m.subrange(n0, m.len() as int) =~= mdv.subrange(p + n0, end));
            let ghost before = out@;
            let q = cs[i].push_render(md, p, out);
            assert(out@ + renders_html(cs@.subrange(i + 1, cs.len() as int), mdv.subrange(q as int, end))
                =~= before + renders_html(rest, m));
            p = q;
            i = i + 1;
        }
        assert(cs@.subrange(cs.len() as int, cs.len() as int) =~= Seq::<LayoutComponent>::empty());
        assert(out@ + Seq::<char>::empty() =~= out@);
        p
    }

    /// Render the component as HTML, its imports already followed (see
    /// [`LayoutComponent::next_import`]). `markdown` holds the HTML of the
    /// texts that [`LayoutComponent::markdown_texts`] lists, in that order;
    /// `user` is the profile the layout belongs to, which the markup does not
    /// depend on.
    pub fn render(&self, user: &Profile, markdown: &Vec<String>) -> (r: String)
        requires
            resolved(*self),
            markdown@.len() == md_texts(*self).len(),
        ensures
            r@ == render_html(*self, strings_view(markdown@)),
    {
        let mut out: Vec<char> = Vec::new();
        let next = self.push_render(markdown, 0, &mut out);
        assert(strings_view(markdown@).subrange(0, next as int) =~= strings_view(markdown@));
        assert(out@ =~= render_html(*self, strings_view(markdown@)));
        string_of(out.as_slice())
    }

    /// Render the component as the profile page does, its own import
    /// already followed: a flex container's children go through the profile
    /// template, whose renderings of them are `children`, in order;
    /// `markdown` is the HTML of the component's markdown text (for a
    /// markdown block).
    pub fn render_with_junk(&self, children: &Vec<String>, markdown: &str) -> (r: String)
        requires
            self.json@.len() == 0,
            self.component == ComponentName::Flex ==> children@.len() == self.children@.len(),
        ensures
            r@ == junk_html(*self, strings_view(children@), markdown@),
    {
        let mut out: Vec<char> = Vec::new();
        if self.component == ComponentName::Flex {
            self.push_flex_open(&mut out);
            let ghost open = out@;
            let ghost cv = strings_view(children@);
            let mut i: usize = 0;
            while i < children.len()
                invariant
                    cv == strings_view(children@),
                    i <= children.len(),
                    out@ == open + concat_all(cv.subrange(0, i as int)),
                decreases children.len() - i,
            {
                push_str(&mut out, children[i].as_str());
                assert(cv.subrange(0, i + 1).drop_last() =~= cv.subrange(0, i as int));
                i = i + 1;
            }
            assert(cv.subrange(0, i as int) =~= cv);
            push_str(&mut out, "</div>");
            assert(out@ =~= junk_html(*self, cv, markdown@));
        } else {
            self.push_leaf(markdown, &mut out);
            assert(out@ =~= junk_html(*self, strings_view(children@), markdown@));
        }
        string_of(out.as_slice())
    }

    /// The file of the first import that [`LayoutComponent::render`] would
    /// meet, if any; there is none exactly where the component is
    /// [`resolved`].
    pub fn next_import(&self) -> (r: Option<String>)
        ensures
            match r {
                Some(f) => first_import(*self) == Some(f@),
                None => first_import(*self) is None,
            },
            r is None <==> resolved(*self),
        decreases self, 1nat,
    {
        proof {
            lemma_first_import_resolved(*self);
        }
        if !self.json.as_str().is_empty() {
            return Some(self.json.clone());
        }
        if self.component == ComponentName::Flex {
            return Self::next_import_all(&self.children);
        }
        None
    }

    fn next_import_all(cs: &Vec<LayoutComponent>) -> (r: Option<String>)
        ensures
            match r {
                Some(f) => first_import_all(cs@) == Some(f@),
                None => first_import_all(cs@) is None,
            },
        decreases cs@, 2nat,
    {
        let mut i: usize = 0;
        assert(cs@.subrange(0, cs.len() as int) =~= cs@);
        while i < cs.len()
            invariant
                i <= cs.len(),
                first_import_all(cs@.subrange(i as int, cs.len() as int)) == first_import_all(cs@),
            decreases cs.len() - i,
        {
            let ghost rest = cs@.subrange(i as int, cs.len() as int);
            assert(rest[0] == cs@[i as int]);
            assert(rest.subrange(1, rest.len() as int) =~= cs@.subrange(i + 1, cs.len() as int));
            match cs[i].next_import() {
                Some(f) => {
                    return Some(f);
                },
                None => {},
            }
            i = i + 1;
        }
        None
    }

    /// This component with the first import that [`LayoutComponent::render`]
    /// would meet followed: replaced by the component that the imported file
    /// holds (`loaded`, or the empty component where it could not be read).
    /// Without an import, the component is returned as it is.
    pub fn resolve_next(self, loaded: Option<LayoutComponent>) -> (r: LayoutComponent)
        ensures
            import_filled(self, r, loaded),
        decreases self,
    {
        if !self.json.as_str().is_empty() {
            return self.fill_from(loaded);
        }
        if self.component != ComponentName::Flex {
            return self;
        }
        let ghost orig = self;
        let n = self.children.len();
        let mut k: usize = 0;
        while k < n
            invariant
                orig == self,
                n == self.children@.len(),
                k <= n,
                forall|j: int| 0 <= j < k ==> first_import(#[trigger] self.children@[j]) is None,
            ensures
                orig == self,
                k <= n,
                forall|j: int| 0 <= j < k ==> first_import(#[trigger] self.children@[j]) is None,
                k < n ==> first_import(self.children@[k as int]) is Some,
            decreases n - k,
        {
            if self.children[k].next_import().is_some() {
                break;
            }
            k = k + 1;
        }
        if k == n {
            proof {
                lemma_imports_unchanged(self.children@, loaded);
            }
            return self;
        }
        let LayoutComponent { json, component, options, children } = self;
        let mut children = children;
        let ghost before = children@;
        let child = children.remove(k);
        assert(child == orig.children@[k as int]);
        let new_child = child.resolve_next(loaded);
        let ghost nc = new_child;
        children.insert(k, new_child);
        assert(children@ =~= before.update(k as int, nc));
        proof {
            lemma_imports_filled_at(before, k as int, nc, loaded);
        }
        LayoutComponent { json, component, options, children }
    }

    /// The markdown texts that [`LayoutComponent::render`] meets, in the
    /// order it meets them: the `text` option of every markdown block.
    pub fn markdown_texts(&self) -> (r: Vec<String>)
        ensures
            strings_view(r@) == md_texts(*self),
    {
        let mut out: Vec<String> = Vec::new();
        assert(strings_view(out@) =~= Seq::<Seq<char>>::empty());
        self.push_md_texts(&mut out);
        assert(strings_view(out@) =~= md_texts(*self));
        out
    }
}

impl Default for LayoutComponent {
    fn default() -> (r: LayoutComponent)
        ensures
            r.json@.len() == 0,
            r.component == ComponentName::Empty,
            r.options@ == Map::<Seq<char>, Seq<char>>::empty(),
            r.children@.len() == 0,
    {
        LayoutComponent {
            json: String::new(),
            component: ComponentName::Empty,
            options: StringMap::new(),
            children: Vec::new(),
        }
    }
}

/// The layout files read so far: the text that each file held when it was
/// first read, by file name. A file that could not be read is not kept, so
/// it is tried again the next time.
pub struct LayoutCache {
    files: StringMap,
}

/// What a cache holding `files` gives for `file`.
pub open spec fn cached_text(files: Map<Seq<char>, Seq<char>>, file: Seq<char>) -> Option<Seq<char>> {
    if files.dom().contains(file) {
        Some(files[file])
    } else {
        None
    }
}

/// The files of a cache holding `files` once `file` was read, giving `read`
/// (`None` where it could not be read).
pub open spec fn after_read(files: Map<Seq<char>, Seq<char>>, file: Seq<char>, read: Option<Seq<char>>) -> Map<
    Seq<char>,
    Seq<char>,
> {
    match read {
        Some(text) => files.insert(file, text),
        None => files,
    }
}

impl View for LayoutCache {
    type V = Map<Seq<char>, Seq<char>>;

    closed spec fn view(&self) -> Map<Seq<char>, Seq<char>> {
        self.files@
    }
}

impl LayoutCache {
    /// A cache that holds no file.
    pub fn new() -> (r: LayoutCache)
        ensures
            r@ == Map::<Seq<char>, Seq<char>>::empty(),
    {
        LayoutCache { files: StringMap::new() }
    }

    /// The text kept for `file`, if it was read before.
    pub fn lookup(&self, file: &str) -> (r: Option<String>)
        ensures
            opt_str_view(r) == cached_text(self@, file@),
    {
        match self.files.get(file) {
            Some(text) => Some(text.clone()),
            None => None,
        }
    }

    /// Keep what reading `file` gave, and hand it back: the text where the
    /// file could be read (it is kept from now on), `None` where it could
    /// not (nothing is kept).
    pub fn remember(&mut self, file: &str, read: Option<String>) -> (r: Option<String>)
        ensures
            final(self)@ == after_read(old(self)@, file@, opt_str_view(read)),
            opt_str_view(r) == opt_str_view(read),
    {
        match read {
            Some(text) => {
                self.files.insert(file.to_owned(), text.clone());
                Some(text)
            },
            None => None,
        }
    }
}

/// A file that was read is found in the cache with the text it held, and
/// the other files are found as before; a file that could not be read
/// changes nothing.
pub proof fn law_cache_returns_what_was_read(
    files: Map<Seq<char>, Seq<char>>,
    file: Seq<char>,
    read: Option<Seq<char>>,
    other: Seq<char>,
)
    requires
        other != file,
    ensures
        read matches Some(text) ==> cached_text(after_read(files, file, read), file) == Some(text),
        read is None ==> after_read(files, file, read) == files,
        cached_text(after_read(files, file, read), other) == cached_text(files, other),
{
}

} // verus!
