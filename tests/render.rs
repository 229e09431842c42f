use std::rc::Rc;

use markup::{
    AttrValue, Body, Content, ContentPart, Item, TagError, Wrapper, format_attr, format_item,
};

fn create_item_1() -> Item {
    let mut item = Item::new("a").unwrap();
    item.set_attr("class", AttrValue::scalar("button"));
    item.set_attr("hreflang", AttrValue::scalar("en"));
    item.set_content(Content::text("Hello"));
    item
}

fn words(ws: &[&str]) -> Vec<String> {
    ws.iter().map(|w| w.to_string()).collect()
}

fn text_item(tag: &str, text: &str) -> Item {
    let mut item = Item::new(tag).unwrap();
    item.set_content(Content::text(text));
    item
}

#[test]
fn item_to_string() {
    let item_string = create_item_1().render();
    let result_1 = "<a class=\"button\" hreflang=\"en\">Hello</a>";
    let result_2 = "<a hreflang=\"en\" class=\"button\">Hello</a>";

    assert!(
        item_string == result_1 || item_string == result_2,
        "result is {item_string}, but should be {result_1} or {result_2}"
    )
}

#[test]
fn attributes_render_in_insertion_order() {
    assert_eq!(
        create_item_1().render(),
        "<a class=\"button\" hreflang=\"en\">Hello</a>"
    );
}

#[test]
fn empty_tag_is_invalid() {
    assert_eq!(Wrapper::new("").err(), Some(TagError::InvalidTag));
    assert_eq!(Item::new("").err(), Some(TagError::InvalidTag));
}

#[test]
fn whitespace_tag_is_invalid() {
    assert_eq!(Wrapper::new("  \t ").err(), Some(TagError::InvalidTag));
    assert_eq!(
        Wrapper::with_body(" ", Body::new()).err(),
        Some(TagError::InvalidTag)
    );
    assert_eq!(
        Wrapper::shared("\n", Rc::new(Body::new())).err(),
        Some(TagError::InvalidTag)
    );
}

#[test]
fn tag_is_trimmed_and_lowercased() {
    assert_eq!(Item::new("A").unwrap().render(), "<a></a>");
    assert_eq!(Wrapper::new("  DiV ").unwrap().tag(), "div");
    assert_eq!(Item::new(" Span\t").unwrap().tag(), "span");
}

#[test]
fn void_tag_ignores_content() {
    let mut item = Item::new("br").unwrap();
    item.set_content(Content::text("hello"));
    assert_eq!(item.render(), "<br>");
    let mut img = Item::new("IMG").unwrap();
    img.set_attr("src", AttrValue::scalar("x.png"));
    img.set_content(Content::text("caption"));
    let out = img.render();
    assert_eq!(out, "<img src=\"x.png\">");
    assert!(!out.contains("</"));
    assert!(!out.contains("caption"));
}

#[test]
fn every_void_tag_renders_start_tag_only() {
    for tag in [
        "area", "base", "br", "col", "embed", "hr", "img", "input", "link", "meta", "param",
        "source", "track", "wbr",
    ] {
        let out = text_item(tag, "inner").render();
        assert_eq!(out, format!("<{tag}>"));
    }
    assert_eq!(text_item("p", "inner").render(), "<p>inner</p>");
}

#[test]
fn void_template_seeds_empty_content() {
    let w = Wrapper::new("hr").unwrap();
    assert_eq!(w.default_body().content(), Some(&Content::text("")));
    let w = Wrapper::new("p").unwrap();
    assert_eq!(w.default_body().content(), None);
}

#[test]
fn equal_scalars_merge_to_same_scalar() {
    let a = AttrValue::scalar("x");
    assert_eq!(markup::merge_attr_value(&a, &a), AttrValue::scalar("x"));
}

#[test]
fn different_scalars_merge_to_set() {
    let r = markup::merge_attr_value(&AttrValue::scalar("x"), &AttrValue::scalar("y"));
    assert_eq!(r, AttrValue::Tokens(words(&["x", "y"])));
}

#[test]
fn scalar_and_set_merge_to_union() {
    let set = AttrValue::set(words(&["a", "b"]));
    let r = markup::merge_attr_value(&set, &AttrValue::scalar("c"));
    assert_eq!(r, AttrValue::Tokens(words(&["a", "b", "c"])));
    let r = markup::merge_attr_value(&AttrValue::scalar("b"), &set);
    assert_eq!(r, AttrValue::Tokens(words(&["b", "a"])));
    let r = markup::merge_attr_value(&set, &AttrValue::scalar("a"));
    assert_eq!(r, AttrValue::Tokens(words(&["a", "b"])));
}

#[test]
fn sets_merge_to_union_without_repeats() {
    let r = markup::merge_attr_value(
        &AttrValue::set(words(&["a", "b"])),
        &AttrValue::set(words(&["b", "c", "a", "d"])),
    );
    assert_eq!(r, AttrValue::Tokens(words(&["a", "b", "c", "d"])));
}

#[test]
fn set_constructor_drops_repeats() {
    assert_eq!(
        AttrValue::set(words(&["a", "b", "a", "c", "b"])),
        AttrValue::Tokens(words(&["a", "b", "c"]))
    );
}

#[test]
fn attrs_merge_by_name() {
    let base = vec![
        ("class".to_string(), AttrValue::scalar("button")),
        ("id".to_string(), AttrValue::scalar("x")),
    ];
    let overlay = vec![
        ("class".to_string(), AttrValue::scalar("pretty")),
        ("href".to_string(), AttrValue::scalar("/")),
    ];
    let r = markup::merge_attrs(&base, &overlay);
    assert_eq!(
        r,
        vec![
            (
                "class".to_string(),
                AttrValue::Tokens(words(&["button", "pretty"]))
            ),
            ("id".to_string(), AttrValue::scalar("x")),
            ("href".to_string(), AttrValue::scalar("/")),
        ]
    );
}

#[test]
fn text_merge_appends() {
    let ab = markup::merge_content(&Content::text("A"), &Content::text("B"));
    let abc = markup::merge_content(&ab, &Content::text("C"));
    assert_eq!(abc, Content::text("ABC"));
    let bc = markup::merge_content(&Content::text("B"), &Content::text("C"));
    assert_eq!(
        markup::merge_content(&Content::text("A"), &bc),
        Content::text("ABC")
    );
}

#[test]
fn text_over_slots_is_dropped() {
    let mut slots = Content::slots();
    slots.put("", ContentPart::Item(text_item("b", "x")));
    let r = markup::merge_content(&slots, &Content::text("ignored"));
    assert_eq!(r, slots);
}

#[test]
fn slots_over_text_replace_it() {
    let mut slots = Content::slots();
    slots.put("s", ContentPart::Item(text_item("b", "x")));
    let r = markup::merge_content(&Content::text("old"), &slots);
    assert_eq!(r, slots);
}

#[test]
fn slot_layout_orders_output() {
    let mut default_body = Body::new();
    let mut default_content = Content::with_layout(words(&["a", "b"]));
    default_content.put("a", ContentPart::Item(text_item("span", "first")));
    default_body.set_content(default_content);
    let wrapper = Wrapper::with_body("div", default_body).unwrap();

    let mut overlay = Body::new();
    let mut overlay_content = Content::slots();
    overlay_content.put("b", ContentPart::Item(text_item("em", "second")));
    overlay.set_content(overlay_content);

    let item = Item::bind(wrapper, overlay);
    assert_eq!(
        item.render(),
        "<div><span id=\"a\">first</span><em id=\"b\">second</em></div>"
    );
}

#[test]
fn slot_layout_ignores_insertion_order() {
    let mut content = Content::with_layout(words(&["a", "b"]));
    content.put("b", ContentPart::Item(text_item("em", "second")));
    content.put("a", ContentPart::Item(text_item("span", "first")));
    content.put("c", ContentPart::Item(text_item("i", "hidden")));
    let mut item = Item::new("div").unwrap();
    item.set_content(content);
    assert_eq!(
        item.render(),
        "<div><span id=\"a\">first</span><em id=\"b\">second</em></div>"
    );
}

#[test]
fn slots_without_layout_render_in_insertion_order() {
    let mut content = Content::slots();
    content.put("z", ContentPart::Item(text_item("i", "1")));
    content.put("y", ContentPart::Item(text_item("b", "2")));
    let mut item = Item::new("p").unwrap();
    item.set_content(content);
    assert_eq!(item.render(), "<p><i id=\"z\">1</i><b id=\"y\">2</b></p>");
}

#[test]
fn unbound_slot_parts_render_nothing() {
    let mut content = Content::slots();
    content.put("body", ContentPart::Body(Body::new()));
    content.put("tmpl", ContentPart::Template(Wrapper::new("b").unwrap()));
    content.put("item", ContentPart::Item(text_item("i", "yes")));
    let mut item = Item::new("p").unwrap();
    item.set_content(content);
    assert_eq!(item.render(), "<p><i id=\"item\">yes</i></p>");
}

#[test]
fn slot_id_merges_with_existing_id() {
    let mut inner = text_item("i", "x");
    inner.set_attr("id", AttrValue::scalar("own"));
    let mut content = Content::slots();
    content.put("s", ContentPart::Item(inner));
    let mut item = Item::new("p").unwrap();
    item.set_content(content);
    assert_eq!(item.render(), "<p><i id=\"own s\">x</i></p>");
}

#[test]
fn slot_parts_merge_recursively() {
    let mut base = Content::slots();
    base.put("s", ContentPart::Item(text_item("i", "one")));
    let mut over_body = Body::new();
    over_body.set_attr("title", AttrValue::scalar("t"));
    over_body.set_content(Content::text(" two"));
    let mut overlay = Content::slots();
    overlay.put("s", ContentPart::Body(over_body));
    let merged = markup::merge_content(&base, &overlay);
    let mut item = Item::new("p").unwrap();
    item.set_content(merged);
    assert_eq!(item.render(), "<p><i title=\"t\" id=\"s\">one two</i></p>");
}

#[test]
fn merge_part_template_precedence() {
    let base = ContentPart::Template(Wrapper::new("b").unwrap());
    let overlay = ContentPart::Item(text_item("i", "x"));
    match markup::merge_part(&base, &overlay) {
        ContentPart::Item(item) => {
            assert_eq!(item.tag(), "b");
            assert_eq!(item.render(), "<b>x</b>");
        }
        other => panic!("expected an instance, got {other:?}"),
    }
    let body_part = ContentPart::Body(Body::new());
    match markup::merge_part(&body_part, &ContentPart::Template(Wrapper::new("em").unwrap())) {
        ContentPart::Item(item) => assert_eq!(item.tag(), "em"),
        other => panic!("expected an instance, got {other:?}"),
    }
    let two = markup::merge_part(
        &ContentPart::Template(Wrapper::new("u").unwrap()),
        &ContentPart::Template(Wrapper::new("s").unwrap()),
    );
    assert_eq!(two, ContentPart::Template(Wrapper::new("u").unwrap()));
    let bodies = markup::merge_part(&body_part, &ContentPart::Body(Body::new()));
    assert_eq!(bodies, ContentPart::Body(Body::new()));
}

#[test]
fn end_to_end_overlay_applied_twice() {
    let mut default_body = Body::new();
    default_body.set_attr("class", AttrValue::set(words(&["button"])));
    default_body.set_attr("hreflang", AttrValue::scalar("en"));
    default_body.set_content(Content::text("Hello"));
    let wrapper = Wrapper::with_body("a", default_body).unwrap();
    let mut item = Item::bind(wrapper, Body::new());

    let mut overlay = Body::new();
    overlay.set_attr("class", AttrValue::scalar("pretty"));
    overlay.set_attr("href", AttrValue::scalar("/hello"));
    overlay.set_content(Content::text(" World!"));
    item.apply(&overlay);
    item.apply(&overlay);

    let eff = item.effective_body();
    assert_eq!(
        eff.attr("class"),
        Some(&AttrValue::Tokens(words(&["button", "pretty"])))
    );
    assert_eq!(eff.attr("hreflang"), Some(&AttrValue::scalar("en")));
    assert_eq!(eff.attr("href"), Some(&AttrValue::scalar("/hello")));
    assert_eq!(eff.content(), Some(&Content::text("Hello World! World!")));
    assert_eq!(
        item.render(),
        "<a class=\"button pretty\" hreflang=\"en\" href=\"/hello\">Hello World! World!</a>"
    );
}

#[test]
fn shared_template_serves_many_instances() {
    let mut default_body = Body::new();
    default_body.set_attr("class", AttrValue::scalar("card"));
    let shared = Rc::new(default_body);
    let w1 = Wrapper::shared("section", Rc::clone(&shared)).unwrap();
    let w2 = Wrapper::shared("section", Rc::clone(&shared)).unwrap();
    let mut o1 = Body::new();
    o1.set_content(Content::text("one"));
    let mut o2 = Body::new();
    o2.add_attr("class", AttrValue::scalar("wide"));
    let i1 = Item::bind(w1, o1);
    let i2 = Item::bind(w2, o2);
    assert_eq!(i1.render(), "<section class=\"card\">one</section>");
    assert_eq!(i2.render(), "<section class=\"card wide\"></section>");
    assert_eq!(shared.attr("class"), Some(&AttrValue::scalar("card")));
    assert_eq!(Rc::strong_count(&shared), 3);
}

#[test]
fn boolean_and_empty_attributes() {
    let mut item = Item::new("input").unwrap();
    item.set_attr("disabled", AttrValue::from_bool(true));
    item.set_attr("hidden", AttrValue::from_bool(false));
    item.set_attr("value", AttrValue::scalar(""));
    item.set_attr("name", AttrValue::scalar("q"));
    assert_eq!(item.render(), "<input disabled name=\"q\">");
}

#[test]
fn format_attr_forms() {
    let name = "k".to_string();
    assert_eq!(format_attr(&name, &AttrValue::scalar("v")), " k=\"v\"");
    assert_eq!(format_attr(&name, &AttrValue::scalar("true")), " k");
    assert_eq!(format_attr(&name, &AttrValue::scalar("false")), "");
    assert_eq!(format_attr(&name, &AttrValue::scalar("")), "");
    assert_eq!(
        format_attr(&name, &AttrValue::Tokens(words(&["a", "b", "c"]))),
        " k=\"a b c\""
    );
}

#[test]
fn format_item_forms() {
    let attrs = " x=\"1\"".to_string();
    let content = "c".to_string();
    assert_eq!(
        format_item(&"p".to_string(), &attrs, &content),
        "<p x=\"1\">c</p>"
    );
    assert_eq!(format_item(&"br".to_string(), &attrs, &content), "<br x=\"1\">");
}

#[test]
fn format_helpers() {
    assert_eq!(AttrValue::format_string("hi"), "\"hi\"");
    assert_eq!(AttrValue::format_bool(&true), "true");
    assert_eq!(AttrValue::format_bool(&false), "false");
}

#[test]
fn set_add_remove_attributes() {
    let mut body = Body::new();
    body.set_attr("a", AttrValue::scalar("1"));
    body.set_attr("a", AttrValue::scalar("2"));
    assert_eq!(body.attr("a"), Some(&AttrValue::scalar("2")));
    body.add_attr("a", AttrValue::scalar("3"));
    assert_eq!(body.attr("a"), Some(&AttrValue::Tokens(words(&["2", "3"]))));
    body.add_attr("b", AttrValue::scalar("x"));
    assert!(body.has_attr("b"));
    assert_eq!(body.attrs().len(), 2);
    assert_eq!(body.remove_attr("a"), Some(AttrValue::Tokens(words(&["2", "3"]))));
    assert_eq!(body.remove_attr("a"), None);
    assert!(!body.has_attr("a"));
    assert_eq!(body.attrs().len(), 1);
}

#[test]
fn merge_body_keeps_base_content_without_overlay_content() {
    let mut base = Body::new();
    base.set_content(Content::text("kept"));
    let mut overlay = Body::new();
    overlay.set_attr("x", AttrValue::scalar("1"));
    let r = markup::merge_body(&base, &overlay);
    assert_eq!(r.content(), Some(&Content::text("kept")));
    assert_eq!(r.attr("x"), Some(&AttrValue::scalar("1")));
    let r = markup::merge_body(&overlay, &base);
    assert_eq!(r.content(), Some(&Content::text("kept")));
}

#[test]
fn copies_are_equal() {
    let item = create_item_1();
    assert_eq!(item.copy(), item);
    assert_eq!(item.copy().render(), item.render());
}

#[test]
fn default_slot_is_the_empty_name() {
    let mut content = Content::text("gone");
    content.put_default(ContentPart::Item(text_item("b", "x")));
    let mut item = Item::new("p").unwrap();
    item.set_content(content);
    assert_eq!(item.render(), "<p><b>x</b></p>");
}
