use rainbeam_core::kv::StringMap;
use rainbeam_core::layout::{ComponentName, LayoutComponent};

fn component(kind: ComponentName, options: &[(&str, &str)], children: Vec<LayoutComponent>) -> LayoutComponent {
    let mut map = StringMap::new();
    for (k, v) in options {
        map.insert(k.to_string(), v.to_string());
    }
    LayoutComponent { json: String::new(), component: kind, options: map, children }
}

#[test]
fn component_labels() {
    assert_eq!(ComponentName::Flex.label(), "Flex");
    assert_eq!(ComponentName::Markdown.label(), "Markdown");
    assert_eq!(ComponentName::Footer.label(), "Footer");
    assert_eq!(ComponentName::default(), ComponentName::Empty);
}

#[test]
fn options_with_defaults() {
    let c = component(ComponentName::Divider, &[("class", "thin")], vec![]);
    assert_eq!(c.option("class", None), "thin");
    assert_eq!(c.option("class", Some("x".to_string())), "thin");
    assert_eq!(c.option("id", Some("fallback".to_string())), "fallback");
    assert_eq!(c.option("id", None), "");
}

#[test]
fn block_rendering_of_a_leaf_counts_option_bytes() {
    let md = component(ComponentName::Markdown, &[("text", "hi")], vec![]);
    assert_eq!(
        md.render_block(),
        "<div class=\"layout_editor_block w-full\" data-component-name=\"Markdown\">Markdown (6b)</div>"
    );
    let divider = component(ComponentName::Divider, &[], vec![]);
    assert_eq!(
        divider.render_block(),
        "<div class=\"layout_editor_block \" data-component-name=\"Divider\">Divider (0b)</div>"
    );
}

#[test]
fn block_rendering_of_a_flex_container() {
    let flex = component(
        ComponentName::Flex,
        &[("direction", "row"), ("gap", "2")],
        vec![component(ComponentName::Divider, &[], vec![])],
    );
    assert_eq!(
        flex.render_block(),
        "<div data-component-name=\"Flex\" class=\"layout_editor_block flex flex-row gap-2   \">\
<div class=\"layout_editor_block \" data-component-name=\"Divider\">Divider (0b)</div></div>"
    );
    let full = component(
        ComponentName::Flex,
        &[("direction", "col"), ("gap", "4"), ("collapse", "yes"), ("width", "full"), ("mobile", "flex-col")],
        vec![],
    );
    assert_eq!(
        full.render_block(),
        "<div data-component-name=\"Flex\" class=\"layout_editor_block flex flex-col gap-4 flex-collapse w-full sm:flex-col\"></div>"
    );
}

#[test]
fn tree_rendering() {
    let leaf = component(ComponentName::Divider, &[], vec![]);
    let leaf_html = "<div class=\"layout_editor_tree_block flex flex-col gap-2 w-full\" data-component-name=\"Divider\">\n                <summary><b>Divider (0b)</b></summary>\n                \n            </div>";
    assert_eq!(leaf.render_tree(), leaf_html);
    let parent = component(ComponentName::Flex, &[("gap", "2")], vec![component(ComponentName::Divider, &[], vec![])]);
    let expected = format!(
        "<details class=\"layout_editor_tree_block flex flex-col gap-2 w-full\" data-component-name=\"Flex\">\n                <summary><b>Flex (4b)</b></summary>\n                {leaf_html}\n            </details>"
    );
    assert_eq!(parent.render_tree(), expected);
}

#[test]
fn imports_are_followed() {
    let import = LayoutComponent::import("profile.json");
    assert_eq!(import.json, "profile.json");
    assert_eq!(import.component, ComponentName::Empty);
    let loaded = component(ComponentName::Banner, &[], vec![]);
    let filled = import.fill_from(Some(loaded));
    assert_eq!(filled.component, ComponentName::Banner);
    let missing = LayoutComponent::import("missing.json").fill_from(None);
    assert_eq!(missing.component, ComponentName::Empty);
    assert!(missing.json.is_empty());
    let own = component(ComponentName::Ask, &[], vec![]).fill_from(Some(component(ComponentName::Banner, &[], vec![])));
    assert_eq!(own.component, ComponentName::Ask);
    let from_file = LayoutComponent::from_json_file("default.json", Some(component(ComponentName::Feed, &[], vec![])));
    assert_eq!(from_file.component, ComponentName::Feed);
    let default = LayoutComponent::default();
    assert!(default.json.is_empty());
    assert!(default.children.is_empty());
}

#[test]
fn full_rendering_of_simple_components() {
    let user = rainbeam_core::model::Profile::system();
    let none: Vec<String> = Vec::new();
    assert_eq!(component(ComponentName::Divider, &[("class", "thin")], vec![]).render(&user, &none), "<hr class=\"thin\" />");
    assert_eq!(component(ComponentName::Style, &[("data", "a</b")], vec![]).render(&user, &none), "<style>ab</style>");
    assert_eq!(component(ComponentName::Empty, &[], vec![]).render(&user, &none), "");
    assert_eq!(component(ComponentName::Banner, &[], vec![]).render(&user, &none), "ComponentName::Banner");
    let md = component(ComponentName::Markdown, &[("class", "m"), ("text", "**x**")], vec![]);
    assert_eq!(md.markdown_texts(), vec!["**x**".to_string()]);
    let html = vec!["<p><strong>x</strong></p>".to_string()];
    assert_eq!(md.render(&user, &html), "<div class=\"m\"><p><strong>x</strong></p></div>");
}

#[test]
fn full_rendering_of_a_flex_container() {
    let user = rainbeam_core::model::Profile::system();
    let flex = component(
        ComponentName::Flex,
        &[("direction", "row"), ("class", "c"), ("style", "s"), ("id", "i")],
        vec![
            component(ComponentName::Markdown, &[("text", "a")], vec![]),
            component(ComponentName::Divider, &[], vec![]),
            component(ComponentName::Markdown, &[("text", "b")], vec![]),
        ],
    );
    assert_eq!(flex.markdown_texts(), vec!["a".to_string(), "b".to_string()]);
    let html = vec!["A".to_string(), "B".to_string()];
    assert_eq!(
        flex.render(&user, &html),
        "<div class=\"flex flex-row    c\" style=\"s\" id=\"i\"><div class=\"\">A</div><hr class=\"\" /><div class=\"\">B</div></div>"
    );
    // children of other components are not rendered
    let banner = component(ComponentName::Banner, &[], vec![component(ComponentName::Markdown, &[], vec![])]);
    assert!(banner.markdown_texts().is_empty());
}

#[test]
fn imports_are_followed_one_at_a_time() {
    let layout = component(
        ComponentName::Flex,
        &[],
        vec![component(ComponentName::Divider, &[], vec![]), LayoutComponent::import("x.json")],
    );
    assert_eq!(layout.next_import(), Some("x.json".to_string()));
    let filled = layout.resolve_next(Some(component(ComponentName::Banner, &[], vec![])));
    assert_eq!(filled.next_import(), None);
    assert_eq!(filled.children.len(), 2);
    assert_eq!(filled.children[0].component, ComponentName::Divider);
    assert_eq!(filled.children[1].component, ComponentName::Banner);
    let unreadable = LayoutComponent::import("gone.json").resolve_next(None);
    assert_eq!(unreadable.component, ComponentName::Empty);
    assert_eq!(unreadable.next_import(), None);
    let plain = component(ComponentName::Ask, &[], vec![]).resolve_next(None);
    assert_eq!(plain.component, ComponentName::Ask);
}

#[test]
fn profile_rendering_takes_template_output_for_children() {
    let flex = component(
        ComponentName::Flex,
        &[("gap", "2"), ("width", "full")],
        vec![component(ComponentName::Banner, &[], vec![]), component(ComponentName::Feed, &[], vec![])],
    );
    let children = vec!["<banner/>".to_string(), "<feed/>".to_string()];
    assert_eq!(
        flex.render_with_junk(&children, ""),
        "<div class=\"flex  gap-2  w-full \" style=\"\" id=\"\"><banner/><feed/></div>"
    );
    let md = component(ComponentName::Markdown, &[("class", "note")], vec![]);
    assert_eq!(md.render_with_junk(&Vec::new(), "<p>M</p>"), "<div class=\"note\"><p>M</p></div>");
    let ask = component(ComponentName::Ask, &[], vec![]);
    assert_eq!(ask.render_with_junk(&Vec::new(), ""), "ComponentName::Ask");
}
