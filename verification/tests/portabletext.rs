use sanity_rs::portabletext::blocks::{Block, Children, Node, Render, Style, TextNode};
use sanity_rs::portabletext::renderer::{default_callback, FixedCallback, HtmlCallback, Renderer};

fn text_node(text: &str) -> TextNode {
    TextNode {
        _key: "key".to_string(),
        _type: "text".to_string(),
        marks: vec![],
        text: text.to_string(),
    }
}

#[test]
fn render_headings() {
    let text = TextNode {
        _key: "key".to_string(),
        _type: "text".to_string(),
        marks: vec![],
        text: "well".to_string(),
    };
    let text2 = TextNode {
        _key: "key".to_string(),
        _type: "text".to_string(),
        marks: vec![],
        text: "Hello World".to_string(),
    };

    let h2 = Node {
        _key: "key".to_string(),
        style: Style::H2,
        _type: Block::Block,
        children: vec![Children::Text(text)],
        markDefs: vec![],
    };
    let h1 = Node {
        _key: "key".to_string(),
        style: Style::H1,
        _type: Block::Block,
        children: vec![Children::Text(text2), Children::Node(h2)],
        markDefs: vec![],
    };

    let body = vec![h1];
    let result = Renderer::new(body)
        .add(Style::H1, HtmlCallback)
        .add(Style::Normal, HtmlCallback)
        .render();
    assert_eq!("<h1>Hello World</h1><h2>well</h2>", result);
}

#[test]
fn default_renderer() {
    let text = TextNode {
        _key: "key".to_string(),
        _type: "text".to_string(),
        marks: vec![],
        text: "lorem is cool and i love it".to_string(),
    };

    let text2 = TextNode {
        _key: "key".to_string(),
        _type: "text".to_string(),
        marks: vec![],
        text: "this is a quote".to_string(),
    };

    let blockquote = Node {
        _key: "key".to_string(),
        style: Style::Blockquote,
        _type: Block::Block,
        children: vec![Children::Text(text2)],
        markDefs: vec![],
    };

    let paragraph = Node {
        _key: "key".to_string(),
        style: Style::Normal,
        _type: Block::Block,
        children: vec![Children::Text(text)],
        markDefs: vec![],
    };

    let body = vec![paragraph, blockquote];
    let result = Renderer::new(body).render();
    assert_eq!(
        "<p>lorem is cool and i love it</p><blockquote>this is a quote</blockquote>",
        result
    );
}

#[test]
fn render_a_span() {
    let text = TextNode {
        _key: "key".to_string(),
        _type: "text".to_string(),
        marks: vec![],
        text: "lorem is cool and i love it".to_string(),
    };

    let text2 = TextNode {
        _key: "key".to_string(),
        _type: "text".to_string(),
        marks: vec![],
        text: "this is a quote".to_string(),
    };

    let blockquote = Node {
        _key: "key".to_string(),
        style: Style::Blockquote,
        _type: Block::Block,
        children: vec![Children::Text(text2)],
        markDefs: vec![],
    };

    let paragraph = Node {
        _key: "key".to_string(),
        style: Style::Normal,
        _type: Block::Block,
        children: vec![Children::Text(text)],
        markDefs: vec![],
    };

    let body = vec![paragraph, blockquote];
    let result = Renderer::new(body)
        .add(Style::H1, HtmlCallback)
        .add(Style::Normal, HtmlCallback)
        .add(Style::Blockquote, HtmlCallback)
        .render();
    assert_eq!(
        "<p>lorem is cool and i love it</p><blockquote>this is a quote</blockquote>",
        result
    );
}

#[test]
fn render_is_deterministic() {
    let make_body = || {
        vec![Node {
            _key: "key".to_string(),
            style: Style::H3,
            _type: Block::Block,
            children: vec![Children::Text(text_node("same again"))],
            markDefs: vec![],
        }]
    };
    let first = Renderer::new(make_body()).render();
    let mut renderer = Renderer::new(make_body());
    let second = renderer.render();
    let third = renderer.render();
    assert_eq!(first, second);
    assert_eq!(second, third);
}

#[test]
fn empty_document_renders_empty() {
    let result = Renderer::new(vec![]).render();
    assert_eq!("", result);
}

#[test]
fn every_style_has_a_default_tag() {
    let styles = [
        (Style::H1, "<h1>x</h1>"),
        (Style::H2, "<h2>x</h2>"),
        (Style::H3, "<h3>x</h3>"),
        (Style::H4, "<h4>x</h4>"),
        (Style::H5, "<h5>x</h5>"),
        (Style::H6, "<h6>x</h6>"),
        (Style::Normal, "<p>x</p>"),
        (Style::Blockquote, "<blockquote>x</blockquote>"),
    ];
    for (style, expected) in styles {
        let node = Node {
            _key: "key".to_string(),
            style,
            _type: Block::Block,
            children: vec![Children::Text(text_node("x"))],
            markDefs: vec![],
        };
        assert_eq!(expected, Renderer::new(vec![node]).render());
    }
}

#[test]
fn block_wraps_children_between_one_tag_pair() {
    let node = Node {
        _key: "key".to_string(),
        style: Style::Normal,
        _type: Block::Block,
        children: vec![
            Children::Text(text_node("one")),
            Children::Text(text_node("two")),
            Children::Text(text_node("three")),
        ],
        markDefs: vec![],
    };
    assert_eq!("<p>onetwothree</p>", Renderer::new(vec![node]).render());
}

#[test]
fn siblings_concatenate_without_nesting() {
    let a = Node {
        _key: "key".to_string(),
        style: Style::H1,
        _type: Block::Block,
        children: vec![Children::Text(text_node("left"))],
        markDefs: vec![],
    };
    let b = Node {
        _key: "key".to_string(),
        style: Style::H2,
        _type: Block::Block,
        children: vec![Children::Text(text_node("right"))],
        markDefs: vec![],
    };
    assert_eq!(
        "<h1>left</h1><h2>right</h2>",
        Renderer::new(vec![a, b]).render()
    );
}

#[test]
fn emoji_leaves_share_one_wrapping_block() {
    let node = Node {
        _key: "key".to_string(),
        style: Style::H1,
        _type: Block::Block,
        children: vec![
            Children::Text(text_node("Emoji")),
            Children::Text(text_node("\u{1F680}")),
        ],
        markDefs: vec![],
    };
    assert_eq!("<h1>Emoji\u{1F680}</h1>", Renderer::new(vec![node]).render());
}

#[test]
fn emoji_leaves_wrapped_each_by_html() {
    let node = Node {
        _key: "key".to_string(),
        style: Style::H1,
        _type: Block::Block,
        children: vec![
            Children::Text(text_node("Emoji")),
            Children::Text(text_node("\u{1F680}")),
        ],
        markDefs: vec![],
    };
    assert_eq!("<h1>Emoji</h1><h1>\u{1F680}</h1>", node.html());
}

#[test]
fn fixed_callback_replaces_every_subtree_of_its_style() {
    let deep_child = Node {
        _key: "key".to_string(),
        style: Style::H2,
        _type: Block::Block,
        children: vec![Children::Text(text_node("inner"))],
        markDefs: vec![],
    };
    let first = Node {
        _key: "key".to_string(),
        style: Style::H1,
        _type: Block::Block,
        children: vec![Children::Text(text_node("alpha")), Children::Node(deep_child)],
        markDefs: vec![],
    };
    let second = Node {
        _key: "key".to_string(),
        style: Style::H1,
        _type: Block::Block,
        children: vec![Children::Text(text_node("beta"))],
        markDefs: vec![],
    };
    let result = Renderer::<FixedCallback>::with_input(vec![first, second])
        .add(
            Style::H1,
            FixedCallback { text: "FIXED".to_string() },
        )
        .render();
    assert_eq!("FIXEDFIXED", result);
}

#[test]
fn re_registering_uses_only_the_second_callback() {
    let node = Node {
        _key: "key".to_string(),
        style: Style::H1,
        _type: Block::Block,
        children: vec![Children::Text(text_node("whatever"))],
        markDefs: vec![],
    };
    let result = Renderer::<FixedCallback>::with_input(vec![node])
        .add(Style::H1, FixedCallback { text: "first".to_string() })
        .add(Style::H1, FixedCallback { text: "second".to_string() })
        .render();
    assert_eq!("second", result);
}

#[test]
fn nested_blocks_use_registered_callbacks_too() {
    let inner = Node {
        _key: "key".to_string(),
        style: Style::H2,
        _type: Block::Block,
        children: vec![Children::Text(text_node("inner"))],
        markDefs: vec![],
    };
    let outer = Node {
        _key: "key".to_string(),
        style: Style::Normal,
        _type: Block::Block,
        children: vec![Children::Text(text_node("head ")), Children::Node(inner)],
        markDefs: vec![],
    };
    let result = Renderer::<FixedCallback>::with_input(vec![outer])
        .add(Style::H2, FixedCallback { text: "[h2 here]".to_string() })
        .render();
    assert_eq!("<p>head [h2 here]</p>", result);
}

#[test]
fn default_callback_renders_whole_subtree() {
    let inner = Node {
        _key: "key".to_string(),
        style: Style::Blockquote,
        _type: Block::Block,
        children: vec![Children::Text(text_node("quoted"))],
        markDefs: vec![],
    };
    let outer = Node {
        _key: "key".to_string(),
        style: Style::Normal,
        _type: Block::Block,
        children: vec![Children::Text(text_node("intro ")), Children::Node(inner)],
        markDefs: vec![],
    };
    assert_eq!(
        "<p>intro <blockquote>quoted</blockquote></p>",
        default_callback(&outer)
    );
}

#[test]
fn deep_nesting_renders_without_overflow() {
    let depth = 10_000;
    let mut node = Node {
        _key: "key".to_string(),
        style: Style::Blockquote,
        _type: Block::Block,
        children: vec![Children::Text(text_node("deep"))],
        markDefs: vec![],
    };
    for _ in 1..depth {
        node = Node {
            _key: "key".to_string(),
            style: Style::Blockquote,
            _type: Block::Block,
            children: vec![Children::Node(node)],
            markDefs: vec![],
        };
    }
    let mut expected = String::new();
    for _ in 0..depth {
        expected.push_str("<blockquote>");
    }
    expected.push_str("deep");
    for _ in 0..depth {
        expected.push_str("</blockquote>");
    }
    let mut renderer = Renderer::new(vec![node]);
    let result = renderer.render();
    assert_eq!(expected, result);
    // Dropping a tree this deep would recurse in the destructor; the
    // traversal itself is what this test checks, so leak the tree.
    std::mem::forget(renderer);
}

#[test]
fn empty_block_fails_at_construction() {
    let r = Node::new(
        "key".to_string(),
        Block::Block,
        Style::Normal,
        vec![],
        vec![],
    );
    assert!(matches!(
        r,
        Err(sanity_rs::error::StructuralError::EmptyBlock)
    ));
}

#[test]
fn valid_block_constructs_and_renders() {
    let node = Node::new(
        "key".to_string(),
        Block::Block,
        Style::H4,
        vec![Children::Text(text_node("built"))],
        vec![],
    )
    .unwrap();
    assert_eq!("<h4>built</h4>", Renderer::new(vec![node]).render());
}
