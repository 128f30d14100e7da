//! A tree of commands, subcommands and options that renders itself as an
//! indented, multi-line help text.
use vstd::prelude::*;

verus! {

/// One parameter accepted by a command.
#[derive(Debug, Clone)]
pub struct HelpMessageOption {
    pub name: String,
    pub kind: String,
    pub description: String,
    pub required: bool,
}

/// One command or subcommand, with its options and subcommands in insertion order.
#[derive(Debug)]
pub struct HelpMessage {
    pub name: String,
    pub description: String,
    pub options: Vec<HelpMessageOption>,
    pub subcommands: Vec<HelpMessage>,
}

/// `n` space characters.
pub open spec fn spaces(n: nat) -> Seq<char> {
    Seq::new(n, |i: int| ' ')
}

/// The indentation of a node at nesting level `depth`: four spaces, and eight
/// more for every level below the root.
pub open spec fn indentation(depth: nat) -> Seq<char> {
    spaces(4 + 8 * depth)
}

/// The trailing label of an option line.
pub open spec fn required_label(required: bool) -> Seq<char> {
    if required {
        "Required"@
    } else {
        "Optional"@
    }
}

/// The line of one option, preceded by its line break.
pub open spec fn option_line(opt: HelpMessageOption, indent: Seq<char>) -> Seq<char> {
    "\n"@ + indent + "    "@ + opt.name@ + ": "@ + opt.kind@ + "\t"@ + opt.description@ + " ("@
        + required_label(opt.required) + ")"@
}

/// The lines of all options, in order.
pub open spec fn option_lines(opts: Seq<HelpMessageOption>, indent: Seq<char>) -> Seq<char>
    decreases opts.len(),
{
    if opts.len() == 0 {
        Seq::empty()
    } else {
        option_lines(opts.drop_last(), indent) + option_line(opts.last(), indent)
    }
}

/// The options section: nothing when there are no options.
pub open spec fn options_section(opts: Seq<HelpMessageOption>, indent: Seq<char>) -> Seq<char> {
    if opts.len() == 0 {
        Seq::empty()
    } else {
        "\n"@ + indent + "Options:"@ + option_lines(opts, indent)
    }
}

/// The first line of a node.
pub open spec fn header(node: HelpMessage) -> Seq<char> {
    node.name@ + " -- "@ + node.description@
}

/// The block that one subcommand of a node at `depth` contributes.
pub open spec fn child_entry(child: HelpMessage, depth: nat) -> Seq<char>
    decreases child, 2int,
{
    indentation(depth) + indentation(depth) + rendered_at(child, depth + 1) + "\n"@
}

/// The blocks of the given subcommands of a node at `depth`, in order.
pub open spec fn child_entries(children: Seq<HelpMessage>, depth: nat) -> Seq<char>
    decreases children, 0int,
{
    if children.len() == 0 {
        Seq::empty()
    } else {
        child_entries(children.drop_last(), depth) + child_entry(children.last(), depth)
    }
}

/// The subcommands section: nothing when there are no subcommands.
pub open spec fn subcommands_section(node: HelpMessage, depth: nat) -> Seq<char>
    decreases node, 0int,
{
    if node.subcommands@.len() == 0 {
        Seq::empty()
    } else {
        "\n"@ + indentation(depth) + "Subcommands:\n"@ + child_entries(node.subcommands@, depth)
    }
}

/// The text of `node` rendered at nesting level `depth`.
pub open spec fn rendered_at(node: HelpMessage, depth: nat) -> Seq<char>
    decreases node, 1int,
{
    header(node) + options_section(node.options@, indentation(depth)) + subcommands_section(node, depth)
}

impl HelpMessageOption {
    /// An option with empty name, kind and description, not required.
    pub fn new() -> (r: Self)
        ensures
            r.name@ == Seq::<char>::empty(),
            r.kind@ == Seq::<char>::empty(),
            r.description@ == Seq::<char>::empty(),
            !r.required,
    {
        HelpMessageOption {
            name: String::new(),
            kind: String::new(),
            description: String::new(),
            required: false,
        }
    }

    /// Sets the name; the result refers to the option itself, for chaining.
    pub fn name(&mut self, name: &str) -> (r: &mut Self)
        ensures
            r.name@ == name@,
            r.kind == old(self).kind,
            r.description == old(self).description,
            r.required == old(self).required,
            *final(self) == *final(r),
    {
        self.name = name.to_owned();
        self
    }

    /// Sets the type label; the result refers to the option itself, for chaining.
    pub fn kind(&mut self, kind: &str) -> (r: &mut Self)
        ensures
            r.kind@ == kind@,
            r.name == old(self).name,
            r.description == old(self).description,
            r.required == old(self).required,
            *final(self) == *final(r),
    {
        self.kind = kind.to_owned();
        self
    }

    /// Sets the description; the result refers to the option itself, for chaining.
    pub fn description(&mut self, description: &str) -> (r: &mut Self)
        ensures
            r.description@ == description@,
            r.name == old(self).name,
            r.kind == old(self).kind,
            r.required == old(self).required,
            *final(self) == *final(r),
    {
        self.description = description.to_owned();
        self
    }

    /// Sets whether the option must be given; the result refers to the option
    /// itself, for chaining.
    pub fn required(&mut self, required: bool) -> (r: &mut Self)
        ensures
            r.required == required,
            r.name == old(self).name,
            r.kind == old(self).kind,
            r.description == old(self).description,
            *final(self) == *final(r),
    {
        self.required = required;
        self
    }
}

impl Default for HelpMessageOption {
    fn default() -> (r: Self)
        ensures
            r.name@ == Seq::<char>::empty(),
            r.kind@ == Seq::<char>::empty(),
            r.description@ == Seq::<char>::empty(),
            !r.required,
    {
        HelpMessageOption::new()
    }
}

impl Default for HelpMessage {
    fn default() -> (r: Self)
        ensures
            r.name@ == Seq::<char>::empty(),
            r.description@ == Seq::<char>::empty(),
            r.options@ == Seq::<HelpMessageOption>::empty(),
            r.subcommands@ == Seq::<HelpMessage>::empty(),
    {
        HelpMessage::new()
    }
}

impl HelpMessage {
    /// A node with empty name and description, no options and no subcommands.
    pub fn new() -> (r: Self)
        ensures
            r.name@ == Seq::<char>::empty(),
            r.description@ == Seq::<char>::empty(),
            r.options@ == Seq::<HelpMessageOption>::empty(),
            r.subcommands@ == Seq::<HelpMessage>::empty(),
    {
        HelpMessage {
            name: String::new(),
            description: String::new(),
            options: Vec::new(),
            subcommands: Vec::new(),
        }
    }

    /// Sets the name; the result refers to the node itself, for chaining.
    pub fn name(&mut self, name: &str) -> (r: &mut Self)
        ensures
            r.name@ == name@,
            r.description == old(self).description,
            r.options == old(self).options,
            r.subcommands == old(self).subcommands,
            *final(self) == *final(r),
    {
        self.name = name.to_owned();
        self
    }

    /// Sets the description; the result refers to the node itself, for chaining.
    pub fn description(&mut self, description: &str) -> (r: &mut Self)
        ensures
            r.description@ == description@,
            r.name == old(self).name,
            r.options == old(self).options,
            r.subcommands == old(self).subcommands,
            *final(self) == *final(r),
    {
        self.description = description.to_owned();
        self
    }

    /// Appends an option after the ones already there; the result refers to the
    /// node itself, for chaining.
    pub fn add_option(&mut self, opt: HelpMessageOption) -> (r: &mut Self)
        ensures
            r.options@ == old(self).options@.push(opt),
            r.name == old(self).name,
            r.description == old(self).description,
            r.subcommands == old(self).subcommands,
            *final(self) == *final(r),
    {
        self.options.push(opt);
        self
    }

    /// Appends a subcommand after the ones already there; the result refers to
    /// the node itself, for chaining.
    pub fn add_subcommand(&mut self, cmd: HelpMessage) -> (r: &mut Self)
        ensures
            r.subcommands@ == old(self).subcommands@.push(cmd),
            r.name == old(self).name,
            r.description == old(self).description,
            r.options == old(self).options,
            *final(self) == *final(r),
    {
        self.subcommands.push(cmd);
        self
    }
}

/// The line of `opt`, preceded by its line break, at indentation `indent`.
fn option_text(opt: &HelpMessageOption, indent: &String) -> (r: String)
    ensures
        r@ == option_line(*opt, indent@),
{
    let mut line = String::from_str("\n");
    line.append(indent.as_str());
    line.append("    ");
    line.append(opt.name.as_str());
    line.append(": ");
    line.append(opt.kind.as_str());
    line.append("\t");
    line.append(opt.description.as_str());
    line.append(" (");
    if opt.required {
        line.append("Required");
    } else {
        line.append("Optional");
    }
    line.append(")");
    line
}

impl HelpMessage {
    /// Renders this node with its options and, recursively, its subcommands,
    /// at the nesting level whose indentation `indent` holds.
    fn render_indented(&self, Ghost(depth): Ghost<nat>, indent: &String) -> (r: String)
        requires
            indent@ == indentation(depth),
        ensures
            r@ == rendered_at(*self, depth),
        decreases self,
    {
        let mut m = self.name.clone();
        m.append(" -- ");
        m.append(self.description.as_str());
        if self.options.len() > 0 {
            m.append("\n");
            m.append(indent.as_str());
            m.append("Options:");
        }
        let ghost opts_prefix = m@;
        let mut i: usize = 0;
        while i < self.options.len()
            invariant
                i <= self.options.len(),
                m@ == opts_prefix + option_lines(self.options@.take(i as int), indent@),
            decreases self.options.len() - i,
        {
            let ghost before = m@;
            let line = option_text(&self.options[i], indent);
            m.append(line.as_str());
            proof {
                let taken = self.options@.take(i + 1);
                assert(taken.drop_last() =~= self.options@.take(i as int));
            }
            i += 1;
        }
        proof {
            assert(self.options@.take(i as int) =~= self.options@);
            assert(m@ =~= header(*self) + options_section(self.options@, indent@));
        }
        let ghost head = m@;
        if self.subcommands.len() > 0 {
            m.append("\n");
            m.append(indent.as_str());
            m.append("Subcommands:\n");
        }
        let mut next = indent.clone();
        next.append("        ");
        proof {
            reveal_strlit("        ");
            assert(next@ =~= indentation(depth + 1));
        }
        let ghost subs_prefix = m@;
        let mut k: usize = 0;
        while k < self.subcommands.len()
            invariant
                k <= self.subcommands.len(),
                indent@ == indentation(depth),
                next@ == indentation(depth + 1),
                m@ == subs_prefix + child_entries(self.subcommands@.take(k as int), depth),
            decreases self.subcommands.len() - k,
        {
            let ghost before = m@;
            let child = &self.subcommands[k];
            let text = child.render_indented(Ghost(depth + 1), &next);
            m.append(indent.as_str());
            m.append(indent.as_str());
            m.append(text.as_str());
            m.append("\n");
            proof {
                let taken = self.subcommands@.take(k + 1);
                assert(taken.drop_last() =~= self.subcommands@.take(k as int));
                assert(m@ =~= before + child_entry(taken.last(), depth));
            }
            k += 1;
        }
        proof {
            assert(self.subcommands@.take(k as int) =~= self.subcommands@);
            assert(m@ =~= head + subcommands_section(*self, depth));
        }
        m
    }
}

impl HelpMessage {
    /// The help text of this node as a root: its header line, its options and
    /// its subcommands, each subcommand rendered one level deeper.
    pub fn render(&self) -> (r: String)
        ensures
            r@ == rendered_at(*self, 0),
    {
        let indent = String::from_str("    ");
        proof {
            reveal_strlit("    ");
            assert(indent@ =~= indentation(0));
        }
        self.render_indented(Ghost(0), &indent)
    }

    /// The help text of this node at nesting level `depth`.
    pub fn render_at(&self, depth: usize) -> (r: String)
        ensures
            r@ == rendered_at(*self, depth as nat),
    {
        let mut indent = String::from_str("    ");
        proof {
            reveal_strlit("    ");
        }
        let mut j: usize = 0;
        while j < depth
            invariant
                j <= depth,
                indent@ =~= indentation(j as nat),
            decreases depth - j,
        {
            indent.append("        ");
            proof {
                reveal_strlit("        ");
                assert(indent@ =~= indentation((j + 1) as nat));
            }
            j += 1;
        }
        self.render_indented(Ghost(depth as nat), &indent)
    }
}

/// `s` ends with `suffix`.
pub open spec fn ends_with(s: Seq<char>, suffix: Seq<char>) -> bool {
    s.len() >= suffix.len() && s.subrange(s.len() - suffix.len(), s.len() as int) == suffix
}

/// A node without options and subcommands renders as its header line alone,
/// at every depth.
pub proof fn lemma_leaf_renders_header(node: HelpMessage, depth: nat)
    requires
        node.options@.len() == 0,
        node.subcommands@.len() == 0,
    ensures
        rendered_at(node, depth) == header(node),
{
    assert(rendered_at(node, depth) =~= header(node));
}

/// The option lines of two runs of options, one after the other, are the lines
/// of the first run followed by those of the second: options keep their order
/// and none is dropped or merged.
pub proof fn lemma_option_lines_concat(
    first: Seq<HelpMessageOption>,
    second: Seq<HelpMessageOption>,
    indent: Seq<char>,
)
    ensures
        option_lines(first + second, indent) == option_lines(first, indent) + option_lines(
            second,
            indent,
        ),
    decreases second.len(),
{
    if second.len() == 0 {
        assert(first + second =~= first);
        assert(option_lines(first, indent) + option_lines(second, indent) =~= option_lines(
            first,
            indent,
        ));
    } else {
        let all = first + second;
        assert(all.drop_last() =~= first + second.drop_last());
        assert(all.last() == second.last());
        lemma_option_lines_concat(first, second.drop_last(), indent);
        assert(option_lines(all, indent) =~= option_lines(first, indent) + option_lines(
            second,
            indent,
        ));
    }
}

/// Adding an option to a node that has options puts its line after the lines of
/// all the options it had.
pub proof fn lemma_added_option_rendered_last(
    opts: Seq<HelpMessageOption>,
    opt: HelpMessageOption,
    indent: Seq<char>,
)
    requires
        opts.len() > 0,
    ensures
        options_section(opts.push(opt), indent) == options_section(opts, indent) + option_line(
            opt,
            indent,
        ),
{
    assert(opts.push(opt).drop_last() =~= opts);
    assert(options_section(opts.push(opt), indent) =~= options_section(opts, indent)
        + option_line(opt, indent));
}

/// The line of a required option ends with `(Required)`, that of any other
/// option with `(Optional)`.
pub proof fn lemma_required_label(opt: HelpMessageOption, indent: Seq<char>)
    ensures
        opt.required ==> ends_with(option_line(opt, indent), "(Required)"@),
        !opt.required ==> ends_with(option_line(opt, indent), "(Optional)"@),
{
    reveal_strlit("(Required)");
    reveal_strlit("(Optional)");
    reveal_strlit("Required");
    reveal_strlit("Optional");
    reveal_strlit(" (");
    reveal_strlit(")");
    let line = option_line(opt, indent);
    let n = line.len();
    if opt.required {
        assert(line.subrange(n - 10, n as int) =~= "(Required)"@);
    } else {
        assert(line.subrange(n - 10, n as int) =~= "(Optional)"@);
    }
}

/// Rendering is a function of the tree alone: two equal trees, or one tree
/// rendered twice, give the same text.
pub proof fn lemma_render_deterministic(a: HelpMessage, b: HelpMessage, depth: nat)
    requires
        a == b,
    ensures
        rendered_at(a, depth) == rendered_at(b, depth),
{
}

/// Each level of nesting adds exactly eight spaces to the four of the root; a
/// node with one subcommand and no options renders that subcommand one level
/// deeper.
pub proof fn lemma_nested_depth(node: HelpMessage, depth: nat)
    requires
        node.options@.len() == 0,
        node.subcommands@.len() == 1,
    ensures
        indentation(0) == spaces(4),
        indentation(depth + 1) == indentation(depth) + spaces(8),
        rendered_at(node, depth) == header(node) + "\n"@ + indentation(depth) + "Subcommands:\n"@
            + indentation(depth) + indentation(depth) + rendered_at(node.subcommands@[0], depth + 1)
            + "\n"@,
{
    assert(indentation(depth + 1) =~= indentation(depth) + spaces(8));
    let subs = node.subcommands@;
    assert(subs.drop_last() =~= Seq::<HelpMessage>::empty());
    assert(child_entries(subs.drop_last(), depth) == Seq::<char>::empty());
    assert(child_entries(subs, depth) == child_entries(subs.drop_last(), depth) + child_entry(
        subs.last(),
        depth,
    ));
    assert(child_entries(subs, depth) =~= child_entry(subs[0], depth));
    assert(rendered_at(node, depth) =~= header(node) + "\n"@ + indentation(depth)
        + "Subcommands:\n"@ + indentation(depth) + indentation(depth) + rendered_at(
        subs[0],
        depth + 1,
    ) + "\n"@);
}

/// Of two subcommands, each contributes the block that it alone determines: the
/// first does not change the indentation or the text of the second.
pub proof fn lemma_siblings_independent(node: HelpMessage, depth: nat)
    requires
        node.subcommands@.len() == 2,
    ensures
        subcommands_section(node, depth) == "\n"@ + indentation(depth) + "Subcommands:\n"@
            + child_entry(node.subcommands@[0], depth) + child_entry(node.subcommands@[1], depth),
{
    let subs = node.subcommands@;
    let first = subs.drop_last();
    assert(first.drop_last() =~= Seq::<HelpMessage>::empty());
    assert(child_entries(first.drop_last(), depth) == Seq::<char>::empty());
    assert(child_entries(first, depth) == child_entries(first.drop_last(), depth) + child_entry(
        first.last(),
        depth,
    ));
    assert(child_entries(first, depth) =~= child_entry(subs[0], depth));
    assert(subcommands_section(node, depth) =~= "\n"@ + indentation(depth) + "Subcommands:\n"@
        + child_entry(subs[0], depth) + child_entry(subs[1], depth));
}

/// The header lines of the given subcommands of a node at `depth`, each
/// indented and ended by a line break, in order.
pub open spec fn header_lines(children: Seq<HelpMessage>, depth: nat) -> Seq<char>
    decreases children.len(),
{
    if children.len() == 0 {
        Seq::empty()
    } else {
        header_lines(children.drop_last(), depth) + indentation(depth) + indentation(depth)
            + header(children.last()) + "\n"@
    }
}

proof fn lemma_leaf_entries(children: Seq<HelpMessage>, depth: nat)
    requires
        forall|i: int|
            0 <= i < children.len() ==> (#[trigger] children[i]).options@.len() == 0
                && children[i].subcommands@.len() == 0,
    ensures
        child_entries(children, depth) == header_lines(children, depth),
    decreases children.len(),
{
    if children.len() > 0 {
        let rest = children.drop_last();
        assert forall|i: int| 0 <= i < rest.len() implies (#[trigger] rest[i]).options@.len() == 0
            && rest[i].subcommands@.len() == 0 by {
            assert(rest[i] == children[i]);
        }
        lemma_leaf_entries(rest, depth);
        let last = children[children.len() - 1];
        lemma_leaf_renders_header(last, depth + 1);
        assert(child_entry(last, depth) == indentation(depth) + indentation(depth) + header(last)
            + "\n"@);
        assert(child_entries(children, depth) == child_entries(rest, depth) + child_entry(
            last,
            depth,
        ));
        assert(child_entries(children, depth) =~= header_lines(children, depth));
    }
}

/// A node without options whose subcommands are all leaves renders its header,
/// one `Subcommands:` line, and then the header line of each subcommand in
/// order.
pub proof fn lemma_leaf_subcommands(node: HelpMessage, depth: nat)
    requires
        node.options@.len() == 0,
        node.subcommands@.len() > 0,
        forall|i: int|
            0 <= i < node.subcommands@.len() ==> (#[trigger] node.subcommands@[i]).options@.len()
                == 0 && node.subcommands@[i].subcommands@.len() == 0,
    ensures
        rendered_at(node, depth) == header(node) + "\n"@ + indentation(depth) + "Subcommands:\n"@
            + header_lines(node.subcommands@, depth),
{
    lemma_leaf_entries(node.subcommands@, depth);
    assert(rendered_at(node, depth) =~= header(node) + "\n"@ + indentation(depth)
        + "Subcommands:\n"@ + header_lines(node.subcommands@, depth));
}

} // verus!
