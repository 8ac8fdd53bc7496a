//! The README's fields: a name, a description, an image, four developer
//! commands and a usage example. An empty string stands for an absent
//! section.

use vstd::prelude::*;

verus! {

/// The value of a [`Link`] as two character sequences.
pub struct LinkView {
    pub text: Seq<char>,
    pub url: Seq<char>,
}

/// An image: its alt text and its URL. It is set when the URL is not empty.
pub struct Link {
    pub text: String,
    pub url: String,
}

impl View for Link {
    type V = LinkView;

    open spec fn view(&self) -> LinkView {
        LinkView { text: self.text@, url: self.url@ }
    }
}

/// The value of [`Commands`] as character sequences.
pub struct CommandsView {
    pub deps: Seq<char>,
    pub build: Seq<char>,
    pub test: Seq<char>,
    pub install: Seq<char>,
}

/// The number of commands in [`Commands`].
pub const COMMAND_COUNT: usize = 4;

impl CommandsView {
    /// The command at position `k`, in the order deps, build, test, install.
    pub open spec fn get(self, k: int) -> Seq<char> {
        if k == 0 {
            self.deps
        } else if k == 1 {
            self.build
        } else if k == 2 {
            self.test
        } else {
            self.install
        }
    }

    /// The same commands, but the one at position `k` is `v`.
    pub open spec fn with(self, k: int, v: Seq<char>) -> CommandsView {
        if k == 0 {
            CommandsView { deps: v, ..self }
        } else if k == 1 {
            CommandsView { build: v, ..self }
        } else if k == 2 {
            CommandsView { test: v, ..self }
        } else {
            CommandsView { install: v, ..self }
        }
    }

    /// No command is given.
    pub open spec fn is_empty(self) -> bool {
        &&& self.deps.len() == 0
        &&& self.build.len() == 0
        &&& self.test.len() == 0
        &&& self.install.len() == 0
    }
}

/// The shell commands that install the dependencies, build, test and
/// install the project.
pub struct Commands {
    pub deps: String,
    pub build: String,
    pub test: String,
    pub install: String,
}

impl View for Commands {
    type V = CommandsView;

    open spec fn view(&self) -> CommandsView {
        CommandsView {
            deps: self.deps@,
            build: self.build@,
            test: self.test@,
            install: self.install@,
        }
    }
}

impl Commands {
    /// True when none of the four commands is given.
    pub fn is_empty(&self) -> (r: bool)
        ensures
            r == self@.is_empty(),
    {
        self.deps.as_str().is_empty() && self.build.as_str().is_empty()
            && self.test.as_str().is_empty() && self.install.as_str().is_empty()
    }

    /// The command at position `k`, in the order deps, build, test, install.
    pub fn get(&self, k: usize) -> (r: &String)
        requires
            k < COMMAND_COUNT,
        ensures
            r@ == self@.get(k as int),
    {
        match k {
            0 => &self.deps,
            1 => &self.build,
            2 => &self.test,
            _ => &self.install,
        }
    }

    /// Replace the command at position `k` with `v`.
    pub fn set(&mut self, k: usize, v: String)
        requires
            k < COMMAND_COUNT,
        ensures
            final(self)@ == old(self)@.with(k as int, v@),
    {
        match k {
            0 => self.deps = v,
            1 => self.build = v,
            2 => self.test = v,
            _ => self.install = v,
        }
    }
}

/// The value of a [`Readme`] as character sequences.
pub struct ReadmeView {
    pub name: Seq<char>,
    pub description: Seq<char>,
    pub image: LinkView,
    pub commands: CommandsView,
    pub usage: Seq<char>,
}

/// The alt text that an image has until one is given.
pub open spec fn default_alt_text() -> Seq<char> {
    "screenshot"@
}

impl ReadmeView {
    /// A fresh document: the given name, the default alt text, and every
    /// other field empty.
    pub open spec fn fresh(name: Seq<char>) -> ReadmeView {
        ReadmeView {
            name,
            description: Seq::empty(),
            image: LinkView { text: default_alt_text(), url: Seq::empty() },
            commands: CommandsView {
                deps: Seq::empty(),
                build: Seq::empty(),
                test: Seq::empty(),
                install: Seq::empty(),
            },
            usage: Seq::empty(),
        }
    }
}

/// Everything a README holds.
pub struct Readme {
    pub name: String,
    pub description: String,
    pub image: Link,
    pub commands: Commands,
    pub usage: String,
}

impl View for Readme {
    type V = ReadmeView;

    open spec fn view(&self) -> ReadmeView {
        ReadmeView {
            name: self.name@,
            description: self.description@,
            image: self.image@,
            commands: self.commands@,
            usage: self.usage@,
        }
    }
}

impl Readme {
    /// A document for the project `name` (by default, the leaf of the
    /// working directory): no description, no image URL, no commands and no
    /// usage, and the image's alt text at its default.
    pub fn new(name: String) -> (r: Readme)
        ensures
            r@ == ReadmeView::fresh(name@),
    {
        Readme {
            name,
            description: String::new(),
            image: Link { text: "screenshot".to_owned(), url: String::new() },
            commands: Commands {
                deps: String::new(),
                build: String::new(),
                test: String::new(),
                install: String::new(),
            },
            usage: String::new(),
        }
    }
}

} // verus!
