//! Constructing external-command invocations.
//!
//! A command is assembled with a builder, validated at a finalize boundary
//! (missing required fields become a construction error, never a partially
//! built value in flight), and expanded against the run's elevation strategy
//! when it must run with escalated privilege.

use vstd::prelude::*;

use crate::elevation::ElevationStrategy;
use crate::text::{clone_strings, lemma_str_views_add, str_views};

verus! {

/// A command was finalized without its required fields.
#[derive(Clone, Copy, PartialEq, Eq, Structural, Debug)]
pub struct ValidationError;

/// One external invocation: program and arguments in order, whether it runs
/// elevated, and an optional user-visible status line.
#[derive(Debug)]
pub struct ElevatedCommand {
    pub root: bool,
    pub args: Vec<String>,
    pub message: Option<String>,
}

/// Builder for an [`ElevatedCommand`].  `args` is required; `root` defaults
/// to off and `message` to none.
#[derive(Debug)]
pub struct CommandBuilder {
    pub root: bool,
    pub args: Vec<String>,
    pub message: Option<String>,
}

impl Default for CommandBuilder {
    fn default() -> (r: Self)
        ensures
            !r.root,
            r.args@ == Seq::<String>::empty(),
            r.message is None,
    {
        CommandBuilder { root: false, args: Vec::new(), message: None }
    }
}

impl CommandBuilder {
    /// An empty builder: not elevated, no arguments, no message.
    pub fn new() -> (r: Self)
        ensures
            !r.root,
            r.args@ == Seq::<String>::empty(),
            r.message is None,
    {
        CommandBuilder { root: false, args: Vec::new(), message: None }
    }

    /// Sets whether the command runs elevated.
    pub fn root(self, root: bool) -> (r: Self)
        ensures
            r.root == root,
            r.args == self.args,
            r.message == self.message,
    {
        CommandBuilder { root, ..self }
    }

    /// Appends arguments.
    pub fn args(self, more: Vec<String>) -> (r: Self)
        ensures
            r.root == self.root,
            r.args@ == self.args@ + more@,
            r.message == self.message,
    {
        let CommandBuilder { root, mut args, message } = self;
        let mut more = more;
        args.append(&mut more);
        CommandBuilder { root, args, message }
    }

    /// Sets the user-visible status line.
    pub fn message(self, message: String) -> (r: Self)
        ensures
            r.root == self.root,
            r.args == self.args,
            r.message == Some(message),
    {
        CommandBuilder { message: Some(message), ..self }
    }

    /// Finalizes the command.  Fails exactly when no argument was given.
    pub fn build(self) -> (r: Result<ElevatedCommand, ValidationError>)
        ensures
            match r {
                Ok(c) => self.args@.len() > 0 && c.root == self.root && c.args == self.args
                    && c.message == self.message,
                Err(_) => self.args@.len() == 0,
            },
    {
        if self.args.len() == 0 {
            return Err(ValidationError);
        }
        Ok(ElevatedCommand { root: self.root, args: self.args, message: self.message })
    }
}

/// The argument vector a command runs with, given the run's elevation
/// strategy: the strategy's program and prefix arguments go first when the
/// command is elevated.
pub open spec fn command_argv(c: ElevatedCommand, strategy: Option<ElevationStrategy>) -> Seq<
    Seq<char>,
> {
    if c.root {
        match strategy {
            Some(st) => seq![st.program@] + str_views(st.prefix_args@) + str_views(c.args@),
            None => str_views(c.args@),
        }
    } else {
        str_views(c.args@)
    }
}

impl ElevatedCommand {
    /// The fully expanded argument vector: for an elevated command, the
    /// elevation program, its prefix arguments, then the command's own.
    pub fn expanded_argv(&self, strategy: &ElevationStrategy) -> (v: Vec<String>)
        requires
            self.root,
        ensures
            str_views(v@) == command_argv(*self, Some(*strategy)),
    {
        let mut v: Vec<String> = Vec::new();
        v.push(strategy.program.clone());
        let mut prefix = clone_strings(&strategy.prefix_args);
        v.append(&mut prefix);
        let mut own = clone_strings(&self.args);
        v.append(&mut own);
        proof {
            assert(v@ =~= seq![strategy.program] + strategy.prefix_args@ + self.args@);
            lemma_str_views_add(seq![strategy.program] + strategy.prefix_args@, self.args@);
            lemma_str_views_add(seq![strategy.program], strategy.prefix_args@);
            assert(str_views(seq![strategy.program]) =~= seq![strategy.program@]);
        }
        v
    }
}

/// One invocation of the external build tool: the full argument vector, an
/// optional status line, and whether its output is piped through the nicer
/// build-progress renderer.  Never elevated.
#[derive(Debug)]
pub struct BuildCommand {
    pub args: Vec<String>,
    pub message: Option<String>,
    pub nom: bool,
}

/// Builder for a [`BuildCommand`].  The flake output attribute is required;
/// extra arguments are appended verbatim.
#[derive(Debug)]
pub struct BuildCommandBuilder {
    pub flakeref: Option<String>,
    pub message: Option<String>,
    pub extra_args: Vec<String>,
    pub nom: bool,
}

/// The argument vector of a build invocation for attribute `flakeref`:
/// the build tool's build subcommand, the attribute, then the extra
/// arguments verbatim.
pub open spec fn build_argv(flakeref: Seq<char>, extra: Seq<Seq<char>>) -> Seq<Seq<char>> {
    seq!["nix"@, "build"@, flakeref] + extra
}

impl Default for BuildCommandBuilder {
    fn default() -> (r: Self)
        ensures
            r.flakeref is None,
            r.message is None,
            r.extra_args@ == Seq::<String>::empty(),
            !r.nom,
    {
        BuildCommandBuilder { flakeref: None, message: None, extra_args: Vec::new(), nom: false }
    }
}

impl BuildCommandBuilder {
    /// An empty builder.
    pub fn new() -> (r: Self)
        ensures
            r.flakeref is None,
            r.message is None,
            r.extra_args@ == Seq::<String>::empty(),
            !r.nom,
    {
        BuildCommandBuilder { flakeref: None, message: None, extra_args: Vec::new(), nom: false }
    }

    /// Sets the flake output attribute to build.
    pub fn flakeref(self, flakeref: String) -> (r: Self)
        ensures
            r.flakeref == Some(flakeref),
            r.message == self.message,
            r.extra_args == self.extra_args,
            r.nom == self.nom,
    {
        BuildCommandBuilder { flakeref: Some(flakeref), ..self }
    }

    /// Sets the user-visible status line.
    pub fn message(self, message: String) -> (r: Self)
        ensures
            r.flakeref == self.flakeref,
            r.message == Some(message),
            r.extra_args == self.extra_args,
            r.nom == self.nom,
    {
        BuildCommandBuilder { message: Some(message), ..self }
    }

    /// Appends extra arguments, passed to the build tool verbatim.
    pub fn extra_args(self, more: Vec<String>) -> (r: Self)
        ensures
            r.flakeref == self.flakeref,
            r.message == self.message,
            r.extra_args@ == self.extra_args@ + more@,
            r.nom == self.nom,
    {
        let BuildCommandBuilder { flakeref, message, mut extra_args, nom } = self;
        let mut more = more;
        extra_args.append(&mut more);
        BuildCommandBuilder { flakeref, message, extra_args, nom }
    }

    /// Sets whether the build output is piped through the nicer renderer.
    pub fn nom(self, nom: bool) -> (r: Self)
        ensures
            r.flakeref == self.flakeref,
            r.message == self.message,
            r.extra_args == self.extra_args,
            r.nom == nom,
    {
        BuildCommandBuilder { nom, ..self }
    }

    /// Finalizes the build invocation.  Fails exactly when no flake output
    /// attribute was given.
    pub fn build(self) -> (r: Result<BuildCommand, ValidationError>)
        ensures
            match r {
                Ok(c) => {
                    &&& self.flakeref matches Some(f) && str_views(c.args@) == build_argv(
                        f@,
                        str_views(self.extra_args@),
                    )
                    &&& c.message == self.message
                    &&& c.nom == self.nom
                },
                Err(_) => self.flakeref is None,
            },
    {
        let f = match self.flakeref {
            Some(f) => f,
            None => {
                return Err(ValidationError);
            },
        };
        let mut args: Vec<String> = Vec::new();
        args.push("nix".to_owned());
        args.push("build".to_owned());
        let ghost f_view = f@;
        args.push(f);
        let mut extra = self.extra_args;
        proof {
            assert(str_views(args@) =~= seq!["nix"@, "build"@, f_view]);
            lemma_str_views_add(args@, extra@);
        }
        args.append(&mut extra);
        Ok(BuildCommand { args, message: self.message, nom: self.nom })
    }
}

} // verus!
