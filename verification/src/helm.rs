//! Builders for Helm command lines. A command is assembled as a list of
//! parts and rendered by joining the parts with single spaces; every method's
//! contract states exactly which parts it appends.
use crate::text::{join_with, spec_join};
use vstd::prelude::*;

verus! {

/// Common front of every Helm command: the binary, optionally under `sudo`.
#[derive(Debug)]
pub struct CommandBuilder {
    prog: String,
    sudo: bool,
}

/// An `install` or `upgrade --install` command under construction.
#[derive(Debug)]
pub struct InstallCommand {
    parts: Vec<String>,
}

/// An `uninstall` command under construction.
#[derive(Debug)]
pub struct UninstallCommand {
    parts: Vec<String>,
}

/// A `list` command under construction.
#[derive(Debug)]
pub struct ListCommand {
    parts: Vec<String>,
}

/// A `repo` command under construction.
#[derive(Debug)]
pub struct RepoCommand {
    parts: Vec<String>,
}

impl CommandBuilder {
    /// The leading parts every command derived from this builder starts with.
    pub closed spec fn prefix(&self) -> Seq<Seq<char>> {
        if self.sudo {
            seq!["sudo"@, self.prog@]
        } else {
            seq![self.prog@]
        }
    }

    /// The binary this builder invokes.
    pub closed spec fn prog_name(&self) -> Seq<char> {
        self.prog@
    }

    /// A builder for the given Helm binary, without `sudo`.
    pub fn new(binary: &str) -> (r: Self)
        ensures
            r.prefix() =~= seq![binary@],
            r.prog_name() == binary@,
    {
        CommandBuilder { prog: binary.to_owned(), sudo: false }
    }

    fn build(&self) -> (r: Vec<String>)
        ensures
            r.deep_view() =~= self.prefix(),
    {
        let mut parts: Vec<String> = Vec::new();
        if self.sudo {
            parts.push(String::from_str("sudo"));
        }
        parts.push(self.prog.clone());
        parts
    }

    /// Runs the command under `sudo`.
    pub fn sudo(self) -> (r: Self)
        ensures
            r.prefix() =~= seq!["sudo"@, self.prog_name()],
            r.prog_name() == self.prog_name(),
    {
        CommandBuilder { prog: self.prog, sudo: true }
    }

    /// Starts an `install` command.
    pub fn install(&self) -> (r: InstallCommand)
        ensures
            r@ =~= self.prefix().push("install"@),
    {
        let mut parts = self.build();
        parts.push(String::from_str("install"));
        InstallCommand { parts }
    }

    /// Starts an `upgrade --install` command.
    pub fn upgrade_or_install(&self) -> (r: InstallCommand)
        ensures
            r@ =~= self.prefix().push("upgrade"@).push("--install"@),
    {
        let mut parts = self.build();
        parts.push(String::from_str("upgrade"));
        parts.push(String::from_str("--install"));
        InstallCommand { parts }
    }

    /// Starts an `uninstall` command for the named release.
    pub fn uninstall(&self, name: &str) -> (r: UninstallCommand)
        ensures
            r@ =~= self.prefix().push("uninstall"@).push(name@),
    {
        let mut parts = self.build();
        parts.push(String::from_str("uninstall"));
        parts.push(name.to_owned());
        UninstallCommand { parts }
    }

    /// Starts a `list` command.
    pub fn list(&self) -> (r: ListCommand)
        ensures
            r@ =~= self.prefix().push("list"@),
    {
        let mut parts = self.build();
        parts.push(String::from_str("list"));
        ListCommand { parts }
    }

    /// Starts a `repo` command.
    pub fn repo(&self) -> (r: RepoCommand)
        ensures
            r@ =~= self.prefix().push("repo"@),
    {
        let mut parts = self.build();
        parts.push(String::from_str("repo"));
        RepoCommand { parts }
    }
}

impl Default for CommandBuilder {
    /// A builder for the plain `helm` binary.
    fn default() -> (r: Self)
        ensures
            r.prefix() =~= seq!["helm"@],
            r.prog_name() == "helm"@,
    {
        CommandBuilder::new("helm")
    }
}

impl View for InstallCommand {
    type V = Seq<Seq<char>>;

    closed spec fn view(&self) -> Seq<Seq<char>> {
        self.parts.deep_view()
    }
}

impl InstallCommand {
    /// Appends the release name.
    pub fn name(self, name: &str) -> (r: Self)
        ensures
            r@ =~= self@.push(name@),
    {
        let mut res = self;
        res.parts.push(name.to_owned());
        res
    }

    /// Appends the chart coordinate `repo/name`.
    pub fn chart(self, repo: &str, name: &str) -> (r: Self)
        ensures
            r@ =~= self@.push(repo@ + "/"@ + name@),
    {
        let mut res = self;
        res.parts.push(crate::text::concat3(repo, "/", name));
        res
    }

    /// Appends `--namespace <namespace>`.
    pub fn namespace(self, namespace: &str) -> (r: Self)
        ensures
            r@ =~= self@.push("--namespace"@).push(namespace@),
    {
        let mut res = self;
        res.parts.push(String::from_str("--namespace"));
        res.parts.push(namespace.to_owned());
        res
    }

    /// Appends `-f <path>`.
    pub fn with_values_file(self, path: &str) -> (r: Self)
        ensures
            r@ =~= self@.push("-f"@).push(path@),
    {
        let mut res = self;
        res.parts.push(String::from_str("-f"));
        res.parts.push(path.to_owned());
        res
    }

    /// Appends `--create-namespace`.
    pub fn create_namespace(self) -> (r: Self)
        ensures
            r@ =~= self@.push("--create-namespace"@),
    {
        let mut res = self;
        res.parts.push(String::from_str("--create-namespace"));
        res
    }

    /// Appends `--wait`.
    pub fn wait(self) -> (r: Self)
        ensures
            r@ =~= self@.push("--wait"@),
    {
        let mut res = self;
        res.parts.push(String::from_str("--wait"));
        res
    }

    /// Appends `--version <version>`.
    pub fn version(self, version: &str) -> (r: Self)
        ensures
            r@ =~= self@.push("--version"@).push(version@),
    {
        let mut res = self;
        res.parts.push(String::from_str("--version"));
        res.parts.push(version.to_owned());
        res
    }

    /// Renders the command, parts joined by single spaces.
    pub fn build(&self) -> (r: String)
        ensures
            r@ == spec_join(self@, " "@),
    {
        join_with(&self.parts, " ")
    }
}

impl View for ListCommand {
    type V = Seq<Seq<char>>;

    closed spec fn view(&self) -> Seq<Seq<char>> {
        self.parts.deep_view()
    }
}

impl ListCommand {
    /// Appends `-A` (all namespaces).
    pub fn all(self) -> (r: Self)
        ensures
            r@ =~= self@.push("-A"@),
    {
        let mut res = self;
        res.parts.push(String::from_str("-A"));
        res
    }

    /// Appends `-o json`.
    pub fn json(self) -> (r: Self)
        ensures
            r@ =~= self@.push("-o json"@),
    {
        let mut res = self;
        res.parts.push(String::from_str("-o json"));
        res
    }

    /// Renders the command, parts joined by single spaces.
    pub fn build(&self) -> (r: String)
        ensures
            r@ == spec_join(self@, " "@),
    {
        join_with(&self.parts, " ")
    }
}

impl View for UninstallCommand {
    type V = Seq<Seq<char>>;

    closed spec fn view(&self) -> Seq<Seq<char>> {
        self.parts.deep_view()
    }
}

impl UninstallCommand {
    /// Appends `--namespace <ns>`.
    pub fn namespace(self, ns: &str) -> (r: Self)
        ensures
            r@ =~= self@.push("--namespace"@).push(ns@),
    {
        let mut res = self;
        res.parts.push(String::from_str("--namespace"));
        res.parts.push(ns.to_owned());
        res
    }

    /// Renders the command, parts joined by single spaces.
    pub fn build(&self) -> (r: String)
        ensures
            r@ == spec_join(self@, " "@),
    {
        join_with(&self.parts, " ")
    }
}

impl View for RepoCommand {
    type V = Seq<Seq<char>>;

    closed spec fn view(&self) -> Seq<Seq<char>> {
        self.parts.deep_view()
    }
}

impl RepoCommand {
    /// Appends `add <name> <url>`.
    pub fn add(self, name: &str, url: &str) -> (r: Self)
        ensures
            r@ =~= self@.push("add"@).push(name@).push(url@),
    {
        let mut res = self;
        res.parts.push(String::from_str("add"));
        res.parts.push(name.to_owned());
        res.parts.push(url.to_owned());
        res
    }

    /// Appends `update`.
    pub fn update(self) -> (r: Self)
        ensures
            r@ =~= self@.push("update"@),
    {
        let mut res = self;
        res.parts.push(String::from_str("update"));
        res
    }

    /// Renders the command, parts joined by single spaces.
    pub fn build(&self) -> (r: String)
        ensures
            r@ == spec_join(self@, " "@),
    {
        join_with(&self.parts, " ")
    }
}

} // verus!
