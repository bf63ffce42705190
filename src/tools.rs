use vstd::prelude::*;

verus! {

/// The program that builds and installs a package.
pub const BUILD_PROGRAM: &'static str = "cargo";

/// The environment variable that the build command is given, and its value:
/// code generated for the machine it runs on.
pub const BUILD_ENV_KEY: &'static str = "RUSTFLAGS";
pub const BUILD_ENV_VALUE: &'static str = "-Ctarget-cpu=native";

/// A managed tool: its human label, its package on the registry, and the
/// command users type to run it.
#[derive(Clone, Copy, Debug)]
pub struct Tool {
    pub name: &'static str,
    pub package: &'static str,
    pub cli: &'static str,
}

/// A selector picks a tool when it equals one of its three names exactly.
pub open spec fn tool_matches(tool: Tool, selector: Seq<char>) -> bool {
    tool.name@ == selector || tool.package@ == selector || tool.cli@ == selector
}

/// The tools a command acts on: every tool without a selector, else those the
/// selector picks.
pub open spec fn selected(tool: Tool, selector: Option<Seq<char>>) -> bool {
    match selector {
        None => true,
        Some(s) => tool_matches(tool, s),
    }
}

/// Whether two texts hold the same characters.
fn same_text(a: &str, b: &str) -> (r: bool)
    ensures
        r == (a@ == b@),
{
    let n = a.unicode_len();
    if n != b.unicode_len() {
        return false;
    }
    let mut i: usize = 0;
    while i < n
        invariant
            n == a@.len() == b@.len(),
            i <= n,
            forall|j: int| 0 <= j < i ==> a@[j] == b@[j],
        decreases n - i,
    {
        if a.get_char(i) != b.get_char(i) {
            return false;
        }
        i = i + 1;
    }
    assert(a@ =~= b@);
    true
}

impl Tool {
    /// Whether `other` names this tool: its label, package or command.
    pub fn equals(&self, other: &str) -> (r: bool)
        ensures
            r == tool_matches(*self, other@),
    {
        same_text(self.name, other) || same_text(self.package, other) || same_text(self.cli, other)
    }
}

/// The triples (label, package, command) of a list of tools.
pub open spec fn tool_names(tools: Seq<Tool>) -> Seq<(Seq<char>, Seq<char>, Seq<char>)> {
    tools.map_values(|t: Tool| (t.name@, t.package@, t.cli@))
}

/// The managed tools, in the order commands go through them.
pub fn roster() -> (r: Vec<Tool>)
    ensures
        tool_names(r@) == seq![
            ("ripgrep"@, "ripgrep"@, "rg"@),
            ("exa"@, "exa"@, "exa"@),
            ("bat"@, "bat"@, "bat"@),
            ("fd"@, "fd-find"@, "fd"@),
        ],
{
    let mut r: Vec<Tool> = Vec::new();
    r.push(Tool { name: "ripgrep", package: "ripgrep", cli: "rg" });
    r.push(Tool { name: "exa", package: "exa", cli: "exa" });
    r.push(Tool { name: "bat", package: "bat", cli: "bat" });
    r.push(Tool { name: "fd", package: "fd-find", cli: "fd" });
    assert(tool_names(r@) =~= seq![
        ("ripgrep"@, "ripgrep"@, "rg"@),
        ("exa"@, "exa"@, "exa"@),
        ("bat"@, "bat"@, "bat"@),
        ("fd"@, "fd-find"@, "fd"@),
    ]);
    r
}

/// The characters of a selector, where there is one.
pub open spec fn selector_view(selector: Option<&str>) -> Option<Seq<char>> {
    match selector {
        None => None,
        Some(s) => Some(s@),
    }
}

/// The tools of `roster` that a command acts on, in roster order: all of them
/// without a selector, else each one that the selector names.
pub fn for_each_tool(roster: &[Tool], selector: Option<&str>) -> (r: Vec<Tool>)
    ensures
        r@ == roster@.filter(|t: Tool| selected(t, selector_view(selector))),
{
    let ghost sel = selector_view(selector);
    let ghost pick = |t: Tool| selected(t, sel);
    let mut r: Vec<Tool> = Vec::new();
    let mut i: usize = 0;
    while i < roster.len()
        invariant
            i <= roster@.len(),
            sel == selector_view(selector),
            pick == (|t: Tool| selected(t, sel)),
            r@ == roster@.subrange(0, i as int).filter(pick),
        decreases roster@.len() - i,
    {
        let t = roster[i];
        let keep = match selector {
            None => true,
            Some(s) => t.equals(s),
        };
        proof {
            let next = roster@.subrange(0, i + 1);
            assert(next.drop_last() =~= roster@.subrange(0, i as int));
            assert(next.last() == t);
            assert(keep == selected(t, sel));
            reveal(Seq::filter);
            assert(next.filter(pick) == if pick(t) {
                roster@.subrange(0, i as int).filter(pick).push(t)
            } else {
                roster@.subrange(0, i as int).filter(pick)
            });
        }
        if keep {
            r.push(t);
        }
        i = i + 1;
    }
    assert(roster@.subrange(0, roster@.len() as int) =~= roster@);
    assert(pick == (|t: Tool| selected(t, selector_view(selector))));
    r
}

/// A command to run: program, arguments, and one environment variable.
#[derive(Clone, Debug)]
pub struct BuildCommand {
    pub program: String,
    pub args: Vec<String>,
    pub env_key: String,
    pub env_value: String,
}

/// The characters of each of a list of texts.
pub open spec fn texts(v: Seq<String>) -> Seq<Seq<char>> {
    v.map_values(|s: String| s@)
}

/// The arguments of the build command for a package: `install <package>`, or
/// `install -f <package>` where an installed copy is to be replaced.
pub open spec fn build_args(package: Seq<char>, force: bool) -> Seq<Seq<char>> {
    if force {
        seq!["install"@, "-f"@, package]
    } else {
        seq!["install"@, package]
    }
}

/// The build command that installs `pkg`, replacing an installed copy where
/// `force` holds.
pub fn cargo_install(pkg: &str, force: bool) -> (r: BuildCommand)
    ensures
        r.program@ == BUILD_PROGRAM@,
        texts(r.args@) == build_args(pkg@, force),
        r.env_key@ == BUILD_ENV_KEY@,
        r.env_value@ == BUILD_ENV_VALUE@,
{
    let mut args: Vec<String> = Vec::new();
    args.push(String::from_str("install"));
    if force {
        args.push(String::from_str("-f"));
    }
    args.push(String::from_str(pkg));
    assert(texts(args@) =~= build_args(pkg@, force));
    BuildCommand {
        program: String::from_str(BUILD_PROGRAM),
        args,
        env_key: String::from_str(BUILD_ENV_KEY),
        env_value: String::from_str(BUILD_ENV_VALUE),
    }
}

/// What installing a tool takes: nothing where its command already resolves
/// on the search path, else the build command for its package, not forcing.
pub fn install_tool(tool: &Tool, cli_resolvable: bool) -> (r: Option<BuildCommand>)
    ensures
        cli_resolvable ==> r is None,
        !cli_resolvable ==> (r matches Some(c) && c.program@ == BUILD_PROGRAM@
            && texts(c.args@) == build_args(tool.package@, false) && c.env_key@ == BUILD_ENV_KEY@
            && c.env_value@ == BUILD_ENV_VALUE@),
{
    if cli_resolvable {
        None
    } else {
        Some(cargo_install(tool.package, false))
    }
}

/// Removing tools is not offered.
#[derive(Clone, Copy, Debug, PartialEq, Eq, Structural)]
pub struct Unimplemented;

/// Removing the managed tools: not implemented, and always says so.
pub fn uninstall() -> (r: Result<(), Unimplemented>)
    ensures
        r == Err::<(), Unimplemented>(Unimplemented),
{
    Err(Unimplemented)
}

} // verus!
