//! Markdown for a [`Readme`]: a title, then the description, the image, the
//! development commands and the usage example, each only when it is given.

use vstd::prelude::*;

use crate::document::{Commands, CommandsView, LinkView, Readme, ReadmeView};

verus! {

/// `v` in an unlabeled fenced code block.
pub open spec fn fenced(v: Seq<char>) -> Seq<char> {
    "```\n"@ + v + "\n```\n"@
}

/// The title line.
pub open spec fn heading(name: Seq<char>) -> Seq<char> {
    "# "@ + name + "\n"@
}

/// The description and a line break, or nothing when it is empty.
pub open spec fn description_section(description: Seq<char>) -> Seq<char> {
    if description.len() == 0 {
        Seq::empty()
    } else {
        description + "\n"@
    }
}

/// The image after a blank line, or nothing when its URL is empty.
pub open spec fn image_section(image: LinkView) -> Seq<char> {
    if image.url.len() == 0 {
        Seq::empty()
    } else {
        "\n!["@ + image.text + "]("@ + image.url + ")\n"@
    }
}

/// A subsection of the development section: its header and the command
/// fenced, or nothing when the command is empty.
pub open spec fn command_block(header: Seq<char>, command: Seq<char>) -> Seq<char> {
    if command.len() == 0 {
        Seq::empty()
    } else {
        header + fenced(command) + "\n"@
    }
}

/// The subsections for deps, build, test and install, in that order.
pub open spec fn command_blocks(c: CommandsView) -> Seq<char> {
    command_block("## Dependencies\n"@, c.deps) + command_block("## Building\n"@, c.build)
        + command_block("## Testing\n"@, c.test) + command_block("## Installing\n"@, c.install)
}

/// The development section, or nothing when no command is given.
pub open spec fn commands_section(c: CommandsView) -> Seq<char> {
    if c.is_empty() {
        Seq::empty()
    } else {
        "\n# Development\n\n"@ + command_blocks(c)
    }
}

/// The usage section, or nothing when the usage example is empty.
pub open spec fn usage_section(usage: Seq<char>) -> Seq<char> {
    if usage.len() == 0 {
        Seq::empty()
    } else {
        "# Usage\n"@ + fenced(usage)
    }
}

impl ReadmeView {
    /// The whole markdown document.
    pub open spec fn markdown(self) -> Seq<char> {
        heading(self.name) + description_section(self.description) + image_section(self.image)
            + commands_section(self.commands) + usage_section(self.usage)
    }
}

/// Append `v` to `out` as a fenced code block.
fn push_fenced(out: &mut String, v: &String)
    ensures
        final(out)@ == old(out)@ + fenced(v@),
{
    out.append("```\n");
    out.append(v.as_str());
    out.append("\n```\n");
}

/// Append the subsection for `command` under `header`, if the command is
/// given.
fn push_command_block(out: &mut String, header: &str, command: &String)
    ensures
        final(out)@ == old(out)@ + command_block(header@, command@),
{
    if !command.as_str().is_empty() {
        out.append(header);
        push_fenced(out, command);
        out.append("\n");
    }
}

/// Append the development section, if any command is given.
fn push_commands_section(out: &mut String, c: &Commands)
    ensures
        final(out)@ == old(out)@ + commands_section(c@),
{
    if !c.is_empty() {
        out.append("\n# Development\n\n");
        push_command_block(out, "## Dependencies\n", &c.deps);
        push_command_block(out, "## Building\n", &c.build);
        push_command_block(out, "## Testing\n", &c.test);
        push_command_block(out, "## Installing\n", &c.install);
    }
}

impl Readme {
    /// The markdown for this document.
    pub fn render(&self) -> (r: String)
        ensures
            r@ == self@.markdown(),
    {
        let mut out = String::new();
        out.append("# ");
        out.append(self.name.as_str());
        out.append("\n");
        if !self.description.as_str().is_empty() {
            out.append(self.description.as_str());
            out.append("\n");
        }
        if !self.image.url.as_str().is_empty() {
            out.append("\n![");
            out.append(self.image.text.as_str());
            out.append("](");
            out.append(self.image.url.as_str());
            out.append(")\n");
        }
        push_commands_section(&mut out, &self.commands);
        if !self.usage.as_str().is_empty() {
            out.append("# Usage\n");
            push_fenced(&mut out, &self.usage);
        }
        out
    }
}

/// Every document's markdown begins with `# `, the project's name and a
/// line break.
pub proof fn markdown_starts_with_title(d: ReadmeView)
    ensures
        d.markdown().len() >= heading(d.name).len(),
        d.markdown().subrange(0, heading(d.name).len() as int) == "# "@ + d.name + "\n"@,
{
    let rest = description_section(d.description) + image_section(d.image) + commands_section(
        d.commands,
    ) + usage_section(d.usage);
    assert(d.markdown() =~= heading(d.name) + rest);
    assert(d.markdown().subrange(0, heading(d.name).len() as int) =~= heading(d.name));
}

/// The markdown is the title followed by the description, image,
/// development and usage sections, in that order, and each section is there
/// exactly when its field is given: a non-empty description, a non-empty
/// image URL, at least one command, a non-empty usage example.
pub proof fn markdown_sections_in_order(d: ReadmeView)
    ensures
        d.markdown() == heading(d.name) + description_section(d.description) + image_section(
            d.image,
        ) + commands_section(d.commands) + usage_section(d.usage),
        description_section(d.description).len() > 0 <==> d.description.len() > 0,
        image_section(d.image).len() > 0 <==> d.image.url.len() > 0,
        commands_section(d.commands).len() > 0 <==> !d.commands.is_empty(),
        usage_section(d.usage).len() > 0 <==> d.usage.len() > 0,
{
    development_section_layout(d.commands);
}

/// The development section is there exactly when some command is given. It
/// is then the `# Development` header followed by the subsections for deps,
/// build, test and install, in that order, each there exactly when its
/// command is not empty.
pub proof fn development_section_layout(c: CommandsView)
    ensures
        commands_section(c).len() > 0 <==> !c.is_empty(),
        !c.is_empty() ==> commands_section(c) == "\n# Development\n\n"@ + command_block(
            "## Dependencies\n"@,
            c.deps,
        ) + command_block("## Building\n"@, c.build) + command_block("## Testing\n"@, c.test)
            + command_block("## Installing\n"@, c.install),
        command_block("## Dependencies\n"@, c.deps).len() > 0 <==> c.deps.len() > 0,
        command_block("## Building\n"@, c.build).len() > 0 <==> c.build.len() > 0,
        command_block("## Testing\n"@, c.test).len() > 0 <==> c.test.len() > 0,
        command_block("## Installing\n"@, c.install).len() > 0 <==> c.install.len() > 0,
{
}

/// Rendering depends on the document's fields alone: two documents with the
/// same fields, or two renderings of one document, give the same markdown.
pub proof fn render_is_deterministic(a: &Readme, b: &Readme)
    requires
        a@ == b@,
    ensures
        a@.markdown() == b@.markdown(),
{
}

} // verus!
