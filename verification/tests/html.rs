use ahecha_macro::html::{
    format_value, format_value_from, parse_template, partial_id, Attribute, AttributeKeyValue, AttributeValue, HtmlBlock,
    HtmlCustomElement, Lit, Node, ParseErrorKind, StmtKind,
};
use ahecha_macro::html::{Attributes, Children, LiveView};
use ahecha_macro::tokens::{Delimiter, Group, TokenTree};

fn ident(s: &str) -> TokenTree {
    TokenTree::Ident(s.to_string())
}

fn punct(c: char) -> TokenTree {
    TokenTree::Punct(c)
}

fn lit(s: &str) -> TokenTree {
    TokenTree::Literal(s.to_string())
}

fn group(delimiter: Delimiter, stream: Vec<TokenTree>, text: &str) -> TokenTree {
    TokenTree::Group(Group { delimiter, stream, text: text.to_string() })
}

fn open(name: &str) -> Vec<TokenTree> {
    vec![punct('<'), ident(name)]
}

fn close(name: &str) -> Vec<TokenTree> {
    vec![punct('<'), punct('/'), ident(name), punct('>')]
}

#[test]
fn element_with_attribute_and_text() {
    // <div attr="value">Hello (world)</div>
    let mut t = open("div");
    t.extend(vec![ident("attr"), punct('='), lit("\"value\""), punct('>')]);
    t.extend(vec![ident("Hello"), group(Delimiter::Parenthesis, vec![ident("world")], "(world)")]);
    t.extend(close("div"));
    let node = parse_template(&t).ok().unwrap();
    match &node {
        Node::Element(e) => {
            assert_eq!(e.name.name, "div");
            assert_eq!(e.attributes.attrs.len(), 1);
            match &e.attributes.attrs[0] {
                Attribute::KeyValue(kv) => {
                    assert_eq!(kv.key, "attr");
                    assert!(kv.extended.is_empty());
                    assert_eq!(kv.value, AttributeValue::Lit(Lit::Token(4)));
                }
                _ => panic!("expected a key-value attribute"),
            }
            assert_eq!(e.children.nodes.len(), 1);
            match &e.children.nodes[0] {
                Node::Text(t) => assert_eq!(t.text, "Hello (world)"),
                _ => panic!("expected text"),
            }
        }
        _ => panic!("expected an element"),
    }
    assert_eq!(node.to_string(), "<div>...</div>");
}

#[test]
fn data_attribute_key_is_joined_with_dashes() {
    // <div data-tooltip="sum">Data attribute</div>
    let mut t = open("div");
    t.extend(vec![ident("data"), punct('-'), ident("tooltip"), punct('='), lit("\"sum\""), punct('>')]);
    t.extend(vec![ident("Data"), ident("attribute")]);
    t.extend(close("div"));
    let node = parse_template(&t).ok().unwrap();
    match &node {
        Node::Element(e) => match &e.attributes.attrs[0] {
            Attribute::KeyValue(kv) => {
                assert_eq!(kv.full_key(), "data-tooltip");
                assert!(e.attributes.attrs[0].key_exists("data"));
                assert!(!e.attributes.attrs[0].key_exists("tooltip"));
            }
            _ => panic!("expected a key-value attribute"),
        },
        _ => panic!("expected an element"),
    }
}

#[test]
fn bare_attribute_is_true_and_void_tags_need_no_closing_tag() {
    // <br> and <embed required attributes>
    let t = vec![punct('<'), ident("embed"), ident("required"), ident("attributes"), punct('>')];
    let node = parse_template(&t).ok().unwrap();
    match &node {
        Node::Element(e) => {
            assert_eq!(e.name.name, "embed");
            assert_eq!(e.attributes.attrs.len(), 2);
            match &e.attributes.attrs[0] {
                Attribute::KeyValue(kv) => assert_eq!(kv.value, AttributeValue::Lit(Lit::Bool(true))),
                _ => panic!("expected a key-value attribute"),
            }
            assert!(e.children.nodes.is_empty());
        }
        _ => panic!("expected an element"),
    }
}

#[test]
fn self_closing_element() {
    // <div class={"container"}/>
    let block = group(Delimiter::Brace, vec![lit("\"container\"")], "{ \"container\" }");
    let t = vec![punct('<'), ident("div"), ident("class"), punct('='), block, punct('/'), punct('>')];
    let node = parse_template(&t).ok().unwrap();
    match &node {
        Node::Element(e) => match &e.attributes.attrs[0] {
            Attribute::KeyValue(kv) => assert_eq!(kv.value, AttributeValue::Block(4)),
            _ => panic!("expected a key-value attribute"),
        },
        _ => panic!("expected an element"),
    }
}

#[test]
fn capitalised_names_are_custom_elements_or_partials() {
    let mut t = open("FnCustomElement");
    t.push(punct('>'));
    t.extend(close("FnCustomElement"));
    let node = parse_template(&t).ok().unwrap();
    match &node {
        Node::CustomElement(e) => {
            assert_eq!(e.name, "FnCustomElement");
            assert_eq!(e.tag_name(), "fn-custom-element");
        }
        _ => panic!("expected a custom element"),
    }
    let mut t = open("UserPartial");
    t.push(punct('>'));
    t.extend(close("UserPartial"));
    assert!(matches!(parse_template(&t).ok().unwrap(), Node::Partial(_)));
    let mut t = open("HomePage");
    t.push(punct('>'));
    t.extend(close("HomePage"));
    assert!(matches!(parse_template(&t).ok().unwrap(), Node::Partial(_)));
}

#[test]
fn comments_and_fragments() {
    // <div><!--{ 2 + 2u8 }--></div>
    let block = group(Delimiter::Brace, vec![lit("2"), punct('+'), lit("2u8")], "{ 2 + 2u8 }");
    let mut t = open("div");
    t.push(punct('>'));
    t.extend(vec![punct('<'), punct('!'), punct('-'), punct('-'), block, punct('-'), punct('-'), punct('>')]);
    t.extend(close("div"));
    let node = parse_template(&t).ok().unwrap();
    match &node {
        Node::Element(e) => {
            let c = &e.children.nodes[0];
            assert!(matches!(c, Node::Comment(_)));
            assert_eq!(c.to_string(), "<!-- { 2 + 2u8 } -->");
        }
        _ => panic!("expected an element"),
    }
    // <><b>x</b></>
    let mut t = vec![punct('<'), punct('>')];
    t.extend(open("b"));
    t.push(punct('>'));
    t.push(ident("x"));
    t.extend(close("b"));
    t.extend(vec![punct('<'), punct('/'), punct('>')]);
    let node = parse_template(&t).ok().unwrap();
    assert!(matches!(node, Node::Fragment(_)));
    assert_eq!(node.to_string(), "<>...</>");
}

#[test]
fn doctype_prefixes_its_document() {
    // <!doctype html><html></html>
    let mut t = vec![punct('<'), punct('!'), ident("doctype"), ident("html"), punct('>')];
    t.extend(open("html"));
    t.push(punct('>'));
    t.extend(close("html"));
    let node = parse_template(&t).ok().unwrap();
    assert!(matches!(node, Node::Doctype(_)));
    assert_eq!(node.to_string(), "<!doctype html><html>...</html>");
}

#[test]
fn mismatched_closing_tag_is_an_error() {
    let mut t = open("div");
    t.push(punct('>'));
    t.extend(close("span"));
    let e = parse_template(&t).err().unwrap();
    assert_eq!(e.kind, ParseErrorKind::ClosingTagMismatch);
}

#[test]
fn tokens_after_the_template_are_an_error() {
    let mut t = open("br");
    t.push(punct('>'));
    t.push(lit("1"));
    t.push(punct('<'));
    let e = parse_template(&t).err().unwrap();
    assert_eq!(e.kind, ParseErrorKind::UnexpectedToken);
}

#[test]
fn block_emission() {
    let b = HtmlBlock { token_index: 0, text: "{ (2 + 2u8) }".to_string() };
    let em = b.emission();
    assert_eq!(em.code, " (2 + 2u8) ");
    assert!(!em.dynamic);
    let b = HtmlBlock { token_index: 0, text: "{ let a = 1 ; a }".to_string() };
    let em = b.emission();
    assert_eq!(em.code, "{ let a = 1 ; a }");
    let b = HtmlBlock { token_index: 0, text: "{ data . iter () . map (| i | html ! (< li >)) }".to_string() };
    assert!(!b.emission().dynamic);
    let b = HtmlBlock { token_index: 0, text: "{ html!(<li>) }".to_string() };
    assert!(b.emission().dynamic);
    let b = HtmlBlock { token_index: 0, text: "{ ahecha::t(x) }".to_string() };
    assert!(b.emission().dynamic);
}

#[test]
fn format_values_of_block_attributes() {
    assert_eq!(format_value("{ \"a {b}\" }"), Some("\"a {b}\"".to_string()));
    assert_eq!(format_value("{ \"container\" }"), None);
    assert_eq!(format_value("{ let x = 1; \"a {x}\" }"), None);
    assert_eq!(format_value("{ x }"), None);
}

#[test]
fn partial_id_is_the_struct_name() {
    assert_eq!(partial_id("TestPartial"), "TestPartial");
    assert_eq!(partial_id("UserPartial"), "UserPartial");
}

fn custom_element(name: &str) -> HtmlCustomElement {
    HtmlCustomElement {
        attributes: Attributes { attrs: vec![] },
        children: Children { nodes: vec![], render_fragment: false },
        name: name.to_string(),
    }
}

#[test]
fn custom_element_tag_names_are_kebab_case() {
    assert_eq!(custom_element("WordCount").tag_name(), "word-count");
    assert_eq!(custom_element("WordCount").checked_tag_name(), Some("word-count".to_string()));
    assert_eq!(custom_element("FnCustomElement").checked_tag_name(), Some("fn-custom-element".to_string()));
    assert_eq!(custom_element("\u{e4}Bc").checked_tag_name(), None);
}

#[test]
fn format_value_from_statements() {
    let one = |k: StmtKind, t: &str| vec![(k, t.to_string())];
    assert_eq!(format_value_from(&one(StmtKind::Expr, "\"a {b}\"")), Some("\"a {b}\"".to_string()));
    assert_eq!(format_value_from(&one(StmtKind::Expr, "\"container\"")), None);
    assert_eq!(format_value_from(&one(StmtKind::Semi, "\"a {b}\"")), None);
    assert_eq!(format_value_from(&one(StmtKind::Expr, "x")), None);
    let two = vec![(StmtKind::Local, String::new()), (StmtKind::Expr, "\"a {x}\"".to_string())];
    assert_eq!(format_value_from(&two), None);
    assert_eq!(format_value_from(&vec![]), None);
}

#[test]
fn live_view_text() {
    let v = LiveView {
        attributes: Attributes { attrs: vec![] },
        children: Children { nodes: vec![], render_fragment: false },
        id: AttributeValue::Lit(Lit::Bool(true)),
    };
    assert_eq!(v.to_string(), "<live-view >...</live-view>");
}

#[test]
fn key_value_full_key() {
    let kv = AttributeKeyValue {
        extended: vec!["label".to_string(), "x".to_string()],
        key: "aria".to_string(),
        value: AttributeValue::Lit(Lit::Bool(true)),
    };
    assert_eq!(kv.full_key(), "aria-label-x");
}

#[test]
fn a_brace_group_that_is_no_block_is_skipped() {
    // <div>{ let }</div>: the group is consumed, no node is read from it.
    let block = group(Delimiter::Brace, vec![ident("let")], "{ let }");
    let mut t = open("div");
    t.push(punct('>'));
    t.push(block);
    t.extend(close("div"));
    match parse_template(&t).ok().unwrap() {
        Node::Element(e) => assert!(e.children.nodes.is_empty()),
        _ => panic!("expected an element"),
    }
    // Alone, the group is consumed and the empty rest reads as empty text.
    let t = vec![group(Delimiter::Brace, vec![ident("let")], "{ let }")];
    match parse_template(&t).ok().unwrap() {
        Node::Text(x) => assert_eq!(x.text, ""),
        _ => panic!("expected text"),
    }
    let t = vec![group(Delimiter::Brace, vec![lit("1")], "{ 1 }")];
    match parse_template(&t).ok().unwrap() {
        Node::Block(b) => assert_eq!(b.text, "{ 1 }"),
        _ => panic!("expected a block"),
    }
}

#[test]
fn parse_error_messages() {
    assert_eq!(ParseErrorKind::ExpectedPunct('>').message(), "expected `>`");
    assert_eq!(ParseErrorKind::ClosingTagMismatch.message(), "closing tag does not match opening tag");
    assert_eq!(ParseErrorKind::ExpectedHtmlNode.message(), "expected html node");
}

fn element(node: &Node) -> &ahecha_macro::html::HtmlElement {
    match node {
        Node::Element(e) => e,
        _ => panic!("expected an element"),
    }
}

fn text_of(node: &Node) -> &str {
    match node {
        Node::Text(t) => &t.text,
        _ => panic!("expected text"),
    }
}

fn key_value(t: &mut Vec<TokenTree>, key: &str, value: &str) {
    t.extend(vec![ident(key), punct('='), lit(value)]);
}

#[test]
fn nested_tags_parse() {
    // <div class="main"><h1 class="heading">I am a test</h1>
    // <p class="paragraph">Lorem ipsum dolor sit amet.</p></div>
    let mut t = open("div");
    key_value(&mut t, "class", "\"main\"");
    t.push(punct('>'));
    t.extend(open("h1"));
    key_value(&mut t, "class", "\"heading\"");
    t.push(punct('>'));
    t.extend(vec![ident("I"), ident("am"), ident("a"), ident("test")]);
    t.extend(close("h1"));
    t.extend(open("p"));
    key_value(&mut t, "class", "\"paragraph\"");
    t.push(punct('>'));
    t.extend(vec![ident("Lorem"), ident("ipsum"), ident("dolor"), ident("sit"), ident("amet"), punct('.')]);
    t.extend(close("p"));
    t.extend(close("div"));
    let node = parse_template(&t).ok().unwrap();
    let div = element(&node);
    assert_eq!(div.name.name, "div");
    assert_eq!(div.children.nodes.len(), 2);
    let h1 = element(&div.children.nodes[0]);
    assert_eq!(h1.name.name, "h1");
    assert_eq!(text_of(&h1.children.nodes[0]), "I am a test");
    let p = element(&div.children.nodes[1]);
    assert_eq!(p.name.name, "p");
    assert_eq!(text_of(&p.children.nodes[0]), "Lorem ipsum dolor sit amet .");
    match &p.attributes.attrs[0] {
        Attribute::KeyValue(kv) => assert_eq!(kv.key, "class"),
        _ => panic!("expected a key-value attribute"),
    }
}

#[test]
fn void_tags_parse_without_closing_tags() {
    // <html><area alt="text" class="" coords="" shape=""><br>
    // <img src="images/stickman.gif" width="24"><input type="text" name="text" value=""><wbr></html>
    let mut t = open("html");
    t.push(punct('>'));
    t.extend(open("area"));
    for k in ["alt", "class", "coords", "shape"] {
        key_value(&mut t, k, "\"\"");
    }
    t.push(punct('>'));
    t.extend(open("br"));
    t.push(punct('>'));
    t.extend(open("img"));
    key_value(&mut t, "src", "\"images/stickman.gif\"");
    key_value(&mut t, "width", "\"24\"");
    t.push(punct('>'));
    t.extend(vec![punct('<'), ident("input")]);
    key_value(&mut t, "type", "\"text\"");
    key_value(&mut t, "name", "\"text\"");
    key_value(&mut t, "value", "\"\"");
    t.push(punct('>'));
    t.extend(open("wbr"));
    t.push(punct('>'));
    t.extend(close("html"));
    let node = parse_template(&t).ok().unwrap();
    let html = element(&node);
    let names: Vec<&str> = html.children.nodes.iter().map(|n| element(n).name.name.as_str()).collect();
    assert_eq!(names, vec!["area", "br", "img", "input", "wbr"]);
    let counts: Vec<usize> = html.children.nodes.iter().map(|n| element(n).attributes.attrs.len()).collect();
    assert_eq!(counts, vec![4, 0, 2, 3, 0]);
    assert!(html.children.nodes.iter().all(|n| element(n).children.nodes.is_empty()));
}

#[test]
fn dashed_tag_names_parse() {
    // <word-count>Aria attribute</word-count>
    let mut t = vec![punct('<'), ident("word"), punct('-'), ident("count"), punct('>')];
    t.extend(vec![ident("Aria"), ident("attribute")]);
    t.extend(vec![punct('<'), punct('/'), ident("word"), punct('-'), ident("count"), punct('>')]);
    let node = parse_template(&t).ok().unwrap();
    let e = element(&node);
    assert_eq!(e.name.name, "word-count");
    assert_eq!(text_of(&e.children.nodes[0]), "Aria attribute");
}

#[test]
fn templates_read_with_given_block_verdicts() {
    // <div>{ x }</div>, with the group read as a block or not.
    let block = group(Delimiter::Brace, vec![ident("x")], "{ x }");
    let mut t = open("div");
    t.push(punct('>'));
    t.push(block);
    t.extend(close("div"));
    let yes = vec![false, false, false, true, false, false, false, false];
    match ahecha_macro::html::parse_template_with(&t, &yes).ok().unwrap() {
        Node::Element(e) => assert!(matches!(&e.children.nodes[0], Node::Block(b) if b.token_index == 3)),
        _ => panic!("expected an element"),
    }
    let no = vec![false; 8];
    match ahecha_macro::html::parse_template_with(&t, &no).ok().unwrap() {
        Node::Element(e) => assert!(e.children.nodes.is_empty()),
        _ => panic!("expected an element"),
    }
    assert_eq!(ahecha_macro::html::block_verdicts(&t), yes);
}

#[test]
fn small_letter_names_are_their_own_tag_names() {
    assert_eq!(custom_element("button").tag_name(), "button");
    let t = custom_element("HTMLParserV2").tag_name();
    assert!(t.chars().all(|c| !c.is_ascii_uppercase() && c != '_' && c != ' '));
}
