use bot_commands::help::{HelpMessage, HelpMessageOption};

fn node(name: &str, description: &str) -> HelpMessage {
    let mut n = HelpMessage::new();
    n.name(name).description(description);
    n
}

fn option(name: &str, kind: &str, description: &str, required: bool) -> HelpMessageOption {
    let mut o = HelpMessageOption::new();
    o.name(name).kind(kind).description(description).required(required);
    o
}

fn sp(n: usize) -> String {
    " ".repeat(n)
}

#[test]
fn leaf_renders_header_only() {
    let n = node("ping", "Ping the bot");
    assert_eq!(n.render(), "ping -- Ping the bot");
}

#[test]
fn empty_node_renders_separator() {
    assert_eq!(HelpMessage::new().render(), " -- ");
}

#[test]
fn options_render_in_insertion_order() {
    let mut n = node("cmd", "d");
    n.add_option(option("c", "string", "third", false))
        .add_option(option("a", "integer", "first", true))
        .add_option(option("b", "string", "second", false));
    assert_eq!(
        n.render(),
        "cmd -- d\n    Options:\n        c: string\tthird (Optional)\n        a: integer\tfirst (Required)\n        b: string\tsecond (Optional)"
    );
}

#[test]
fn duplicate_options_are_kept() {
    let mut n = node("cmd", "d");
    n.add_option(option("a", "string", "x", true)).add_option(option("a", "string", "x", true));
    let text = n.render();
    assert_eq!(text.matches("a: string\tx (Required)").count(), 2);
}

#[test]
fn required_and_optional_labels() {
    let mut n = node("cmd", "d");
    n.add_option(option("r", "string", "req", true));
    assert!(n.render().ends_with("(Required)"));
    let mut m = node("cmd", "d");
    m.add_option(option("o", "string", "opt", false));
    assert!(m.render().ends_with("(Optional)"));
}

#[test]
fn rendering_twice_is_identical() {
    let mut child = node("sub", "s");
    child.add_option(option("x", "integer", "n", false));
    let mut root = node("root", "r");
    root.add_option(option("y", "string", "t", true)).add_subcommand(child);
    let first = root.render();
    let second = root.render();
    assert_eq!(first, second);
}

#[test]
fn nested_chain_indents_by_eight_per_level() {
    let g = node("g", "G");
    let mut c = node("c", "C");
    c.add_subcommand(g);
    let mut r = node("r", "R");
    r.add_subcommand(c);
    let c_text = format!("c -- C\n{}Subcommands:\n{}g -- G\n", sp(12), sp(24));
    let expected = format!("r -- R\n{}Subcommands:\n{}{}\n", sp(4), sp(8), c_text);
    assert_eq!(r.render(), expected);
}

#[test]
fn render_at_uses_depth_indentation() {
    let mut n = node("n", "N");
    n.add_option(option("o", "bool", "flag", false));
    assert_eq!(n.render_at(2), format!("n -- N\n{}Options:\n{}o: bool\tflag (Optional)", sp(20), sp(24)));
    assert_eq!(n.render_at(0), n.render());
}

#[test]
fn siblings_render_independently() {
    let mut first = node("a", "A");
    first.add_subcommand(node("deep", "D"));
    let second = node("b", "B");
    let mut root = node("root", "R");
    root.add_subcommand(first).add_subcommand(second);
    let a_text = format!("a -- A\n{}Subcommands:\n{}deep -- D\n", sp(12), sp(24));
    let expected = format!("root -- R\n{}Subcommands:\n{}{}\n{}b -- B\n", sp(4), sp(8), a_text, sp(8));
    assert_eq!(root.render(), expected);
}

#[test]
fn leaf_subcommands_listed_under_one_header() {
    let mut root = node("image", "Request images from the internet");
    root.add_subcommand(node("random_dog", "Request a random dog image"))
        .add_subcommand(node("random_cat", "Request a random cat image"));
    let text = root.render();
    assert_eq!(
        text,
        "image -- Request images from the internet\n    Subcommands:\n        random_dog -- Request a random dog image\n        random_cat -- Request a random cat image\n"
    );
    assert_eq!(text.matches("Subcommands:").count(), 1);
}

#[test]
fn defaults_are_empty() {
    assert_eq!(HelpMessage::default().render(), " -- ");
    let o = HelpMessageOption::default();
    assert_eq!(o.name, "");
    assert!(!o.required);
}
