//! Ad-hoc commands and the argument vectors of the Ansible tools.
use vstd::prelude::*;

use crate::parameters::{
    encode_parameters, encoded, first_named, lemma_with_new_param, params_view, set_parameter, with_param,
    ParamView,
};
use crate::settings::{opt_view, ClusterSettings};

verus! {

/// Number of verbosity levels the tools distinguish; more collapse to the last.
pub const MAX_VERBOSITY: u64 = 4;

/// Name of the module that runs a free-form command line.
pub const RAW_COMMAND_MODULE: &'static str = "command";

/// Target used when no host pattern is given.
pub const ALL_HOSTS: &'static str = "all";

/// The flag for `count` occurrences of the verbosity option: none at zero,
/// else `-` followed by `min(count, 4)` letters `v`.
pub open spec fn verbosity_flag(count: u64) -> Option<Seq<char>> {
    if count == 0 {
        None
    } else {
        let n: nat = if count > MAX_VERBOSITY { MAX_VERBOSITY as nat } else { count as nat };
        Some(seq!['-'] + Seq::new(n, |i: int| 'v'))
    }
}

/// Every count of four or more gives the flag of four.
pub proof fn lemma_verbosity_saturates(count: u64)
    requires
        count >= MAX_VERBOSITY,
    ensures
        verbosity_flag(count) == verbosity_flag(MAX_VERBOSITY),
{
}

/// An optional argument as a sequence of zero or one arguments.
pub open spec fn optional_arg(a: Option<Seq<char>>) -> Seq<Seq<char>> {
    match a {
        Some(s) => seq![s],
        None => Seq::empty(),
    }
}

/// The verbosity flag, as zero or one arguments.
pub open spec fn verbosity_args(count: u64) -> Seq<Seq<char>> {
    optional_arg(verbosity_flag(count))
}

/// `--inventory <path>` when an inventory is given.
pub open spec fn inventory_args(inventory: Option<Seq<char>>) -> Seq<Seq<char>> {
    match inventory {
        Some(p) => seq!["--inventory"@, p],
        None => Seq::empty(),
    }
}

/// The module an ad-hoc command runs.
#[derive(Debug, Clone, PartialEq, Eq)]
pub enum Module {
    /// A module given by name (`ping`, `copy`, ...).
    Named(String),
    /// A free-form command line, run by the raw-command module.
    RawCommand(String),
}

/// A module as the contracts see it.
pub enum ModuleView {
    Named(Seq<char>),
    RawCommand(Seq<char>),
}

impl View for Module {
    type V = ModuleView;

    open spec fn view(&self) -> ModuleView {
        match self {
            Module::Named(m) => ModuleView::Named(m@),
            Module::RawCommand(c) => ModuleView::RawCommand(c@),
        }
    }
}

/// An ad-hoc command as the contracts see it.
pub struct AdhocView {
    pub module: ModuleView,
    pub needs_become: bool,
    pub host_pattern: Option<Seq<char>>,
    pub parameters: Seq<ParamView>,
}

/// The module name passed with `-m`.
pub open spec fn module_name(m: ModuleView) -> Seq<char> {
    match m {
        ModuleView::Named(name) => name,
        ModuleView::RawCommand(_) => RAW_COMMAND_MODULE@,
    }
}

/// Two non-empty fragments joined by a space; an empty one is left out.
pub open spec fn joined(a: Seq<char>, b: Seq<char>) -> Seq<char> {
    if a.len() == 0 {
        b
    } else if b.len() == 0 {
        a
    } else {
        a + seq![' '] + b
    }
}

/// What follows `-a`: the command line of a raw command, then the encoded
/// parameters.
pub open spec fn action_fragment(c: AdhocView) -> Seq<char> {
    match c.module {
        ModuleView::Named(_) => encoded(c.parameters),
        ModuleView::RawCommand(line) => joined(line, encoded(c.parameters)),
    }
}

/// The target pattern: the host pattern, else every host.
pub open spec fn target(host_pattern: Option<Seq<char>>) -> Seq<char> {
    match host_pattern {
        Some(p) => p,
        None => ALL_HOSTS@,
    }
}

/// The arguments of `ansible` for an ad-hoc command, in their fixed order:
/// verbosity flag, inventory, privilege flags, module, encoded parameters,
/// target.
pub open spec fn adhoc_arguments(verbose: u64, inventory: Option<Seq<char>>, c: AdhocView) -> Seq<
    Seq<char>,
> {
    let become_flags: Seq<Seq<char>> = if c.needs_become {
        seq!["-K"@, "-b"@]
    } else {
        Seq::empty()
    };
    let frag = action_fragment(c);
    let action: Seq<Seq<char>> = if frag.len() == 0 {
        Seq::empty()
    } else {
        seq!["-a"@, frag]
    };
    verbosity_args(verbose) + inventory_args(inventory) + become_flags + seq![
        "-m"@,
        module_name(c.module),
    ] + action + seq![target(c.host_pattern)]
}

/// The arguments of `ansible-inventory` that list the hosts and groups.
pub open spec fn inventory_list_arguments(inventory: Option<Seq<char>>) -> Seq<Seq<char>> {
    seq!["--graph"@, "--vars"@] + inventory_args(inventory)
}

/// Appends `s` to the argument vector `args`.
pub fn push_arg(args: &mut Vec<String>, s: String)
    ensures
        final(args).deep_view() == old(args).deep_view().push(s@),
{
    args.push(s);
    assert(args.deep_view() =~= old(args).deep_view().push(s@));
}

/// Appends the literal `s` to the argument vector `args`.
pub fn push_lit(args: &mut Vec<String>, s: &str)
    ensures
        final(args).deep_view() == old(args).deep_view().push(s@),
{
    push_arg(args, String::from_str(s));
}

/// The verbosity flag, if any, that `settings` asks the tools for.
pub fn get_verbose_arguments_from_settings(settings: &ClusterSettings) -> (r: Option<String>)
    ensures
        opt_view(r) == verbosity_flag(settings.verbose),
{
    let count = settings.verbose;
    if count == 0 {
        return None;
    }
    let n: u64 = if count > MAX_VERBOSITY { MAX_VERBOSITY } else { count };
    proof {
        reveal_strlit("-");
    }
    let mut flag = String::from_str("-");
    let mut i: u64 = 0;
    while i < n
        invariant
            i <= n <= MAX_VERBOSITY,
            flag@ == seq!['-'] + Seq::new(i as nat, |j: int| 'v'),
        decreases n - i,
    {
        proof {
            reveal_strlit("v");
        }
        flag.append("v");
        i = i + 1;
        assert(flag@ =~= seq!['-'] + Seq::new(i as nat, |j: int| 'v'));
    }
    Some(flag)
}

/// Appends the verbosity flag and the inventory option of `settings`.
fn push_common_arguments(args: &mut Vec<String>, settings: &ClusterSettings)
    ensures
        final(args).deep_view() == old(args).deep_view() + verbosity_args(settings.verbose)
            + inventory_args(opt_view(settings.inventory)),
{
    let ghost start = args.deep_view();
    if let Some(v) = get_verbose_arguments_from_settings(settings) {
        push_arg(args, v);
    }
    assert(args.deep_view() =~= start + verbosity_args(settings.verbose));
    push_inventory_arguments(args, settings);
    assert(args.deep_view() =~= start + verbosity_args(settings.verbose) + inventory_args(
        opt_view(settings.inventory),
    ));
}

/// Appends the verbosity flag, the request for elevated privileges and the
/// inventory option that every run of `ansible-playbook` starts with.
pub fn push_common_arguments_for_playbooks(args: &mut Vec<String>, settings: &ClusterSettings)
    ensures
        final(args).deep_view() == old(args).deep_view() + verbosity_args(settings.verbose) + seq![
            "-K"@,
        ] + inventory_args(opt_view(settings.inventory)),
{
    let ghost start = args.deep_view();
    if let Some(v) = get_verbose_arguments_from_settings(settings) {
        push_arg(args, v);
    }
    assert(args.deep_view() =~= start + verbosity_args(settings.verbose));
    push_lit(args, "-K");
    push_inventory_arguments(args, settings);
    assert(args.deep_view() =~= start + verbosity_args(settings.verbose) + seq!["-K"@]
        + inventory_args(opt_view(settings.inventory)));
}

/// Appends `--inventory <path>` when `settings` names an inventory.
fn push_inventory_arguments(args: &mut Vec<String>, settings: &ClusterSettings)
    ensures
        final(args).deep_view() == old(args).deep_view() + inventory_args(
            opt_view(settings.inventory),
        ),
{
    let ghost start = args.deep_view();
    if let Some(v) = &settings.inventory {
        push_lit(args, "--inventory");
        push_arg(args, v.clone());
    }
    assert(args.deep_view() =~= start + inventory_args(opt_view(settings.inventory)));
}

/// The arguments of `ansible-inventory` that list every configured host and
/// group, with their variables.
pub fn list_hosts_arguments(settings: &ClusterSettings) -> (r: Vec<String>)
    ensures
        r.deep_view() == inventory_list_arguments(opt_view(settings.inventory)),
{
    let mut args: Vec<String> = Vec::new();
    push_lit(&mut args, "--graph");
    push_lit(&mut args, "--vars");
    push_inventory_arguments(&mut args, settings);
    assert(args.deep_view() =~= inventory_list_arguments(opt_view(settings.inventory)));
    args
}

/// An ad-hoc command: one module run on the hosts of a pattern.
#[derive(Debug)]
pub struct AnsibleCommand {
    module: Module,
    needs_become: bool,
    host_pattern: Option<String>,
    parameters: Vec<(String, String)>,
}

impl View for AnsibleCommand {
    type V = AdhocView;

    closed spec fn view(&self) -> AdhocView {
        AdhocView {
            module: self.module@,
            needs_become: self.needs_become,
            host_pattern: opt_view(self.host_pattern),
            parameters: params_view(self.parameters@),
        }
    }
}

impl AnsibleCommand {
    /// A command that runs module `command`, without parameters.
    pub fn new(command: &str, needs_become: bool, host_pattern: Option<String>) -> (r: Self)
        ensures
            r@ == (AdhocView {
                module: ModuleView::Named(command@),
                needs_become,
                host_pattern: opt_view(host_pattern),
                parameters: Seq::empty(),
            }),
    {
        let r = AnsibleCommand {
            module: Module::Named(String::from_str(command)),
            needs_become,
            host_pattern,
            parameters: Vec::new(),
        };
        assert(r@.parameters =~= Seq::<ParamView>::empty());
        r
    }

    /// A command that copies `src` on this machine to `dest` on the hosts.
    pub fn new_copy_command(needs_become: bool, host_pattern: Option<String>, src: &str, dest: &str)
        -> (r: AnsibleCommand)
        ensures
            r@ == (AdhocView {
                module: ModuleView::Named("copy"@),
                needs_become,
                host_pattern: opt_view(host_pattern),
                parameters: seq![("src"@, src@), ("dest"@, dest@)],
            }),
    {
        let r = AnsibleCommand::new("copy", needs_become, host_pattern);
        Self::with_source_and_destination(r, src, dest)
    }

    /// A command that fetches `src` from the hosts to `dest` on this machine.
    pub fn new_fetch_command(needs_become: bool, host_pattern: Option<String>, src: &str, dest: &str)
        -> (r: AnsibleCommand)
        ensures
            r@ == (AdhocView {
                module: ModuleView::Named("fetch"@),
                needs_become,
                host_pattern: opt_view(host_pattern),
                parameters: seq![("src"@, src@), ("dest"@, dest@)],
            }),
    {
        let r = AnsibleCommand::new("fetch", needs_become, host_pattern);
        Self::with_source_and_destination(r, src, dest)
    }

    /// `c`, which has no parameters, with `src` and then `dest` set.
    fn with_source_and_destination(c: AnsibleCommand, src: &str, dest: &str) -> (r: AnsibleCommand)
        requires
            c@.parameters.len() == 0,
        ensures
            r@ == (AdhocView { parameters: seq![("src"@, src@), ("dest"@, dest@)], ..c@ }),
    {
        proof {
            reveal_strlit("src");
            reveal_strlit("dest");
            lemma_with_new_param(c@.parameters, "src"@, src@);
            assert(c@.parameters.push(("src"@, src@)) =~= seq![("src"@, src@)]);
            assert("src"@[0] != "dest"@[0]);
            lemma_with_new_param(seq![("src"@, src@)], "dest"@, dest@);
            assert(seq![("src"@, src@)].push(("dest"@, dest@)) =~= seq![
                ("src"@, src@),
                ("dest"@, dest@),
            ]);
        }
        c.with_parameter("src", src).with_parameter("dest", dest)
    }

    /// A command that runs the command line `command` on the hosts, from
    /// directory `chdir` when one is given.
    pub fn new_run_command(
        command: &str,
        needs_become: bool,
        host_pattern: Option<String>,
        chdir: Option<String>,
    ) -> (r: AnsibleCommand)
        ensures
            r@ == (AdhocView {
                module: ModuleView::RawCommand(command@),
                needs_become,
                host_pattern: opt_view(host_pattern),
                parameters: match chdir {
                    Some(d) => seq![("chdir"@, d@)],
                    None => Seq::empty(),
                },
            }),
    {
        let r = AnsibleCommand {
            module: Module::RawCommand(String::from_str(command)),
            needs_become,
            host_pattern,
            parameters: Vec::new(),
        };
        proof {
            assert(r@.parameters =~= Seq::<ParamView>::empty());
            if chdir is Some {
                let d = chdir->0@;
                lemma_with_new_param(r@.parameters, "chdir"@, d);
                assert(r@.parameters.push(("chdir"@, d)) =~= seq![("chdir"@, d)]);
            }
        }
        r.with_optional_parameter("chdir", &chdir)
    }

    /// A command that updates the package cache, upgrades every package and
    /// removes those no longer needed, with elevated privileges.
    pub fn new_update_command(host_pattern: Option<String>) -> (r: AnsibleCommand)
        ensures
            r@ == (AdhocView {
                module: ModuleView::Named("apt"@),
                needs_become: true,
                host_pattern: opt_view(host_pattern),
                parameters: seq![
                    ("update_cache"@, "yes"@),
                    ("autoremove"@, "yes"@),
                    ("force_apt_get"@, "yes"@),
                    ("upgrade"@, "yes"@),
                ],
            }),
    {
        let r = AnsibleCommand::new("apt", true, host_pattern);
        proof {
            reveal_strlit("update_cache");
            reveal_strlit("autoremove");
            reveal_strlit("force_apt_get");
            reveal_strlit("upgrade");
            let y = "yes"@;
            let first = seq![("update_cache"@, y)];
            let second = first.push(("autoremove"@, y));
            let third = second.push(("force_apt_get"@, y));
            let all_four = third.push(("upgrade"@, y));
            lemma_with_new_param(r@.parameters, "update_cache"@, y);
            assert(r@.parameters.push(("update_cache"@, y)) =~= first);
            assert("update_cache"@[0] != "autoremove"@[0]);
            lemma_with_new_param(first, "autoremove"@, y);
            assert("update_cache"@[0] != "force_apt_get"@[0]);
            assert("autoremove"@[0] != "force_apt_get"@[0]);
            lemma_with_new_param(second, "force_apt_get"@, y);
            assert("update_cache"@[2] != "upgrade"@[2]);
            assert("autoremove"@[0] != "upgrade"@[0]);
            assert("force_apt_get"@[0] != "upgrade"@[0]);
            lemma_with_new_param(third, "upgrade"@, y);
            assert(all_four =~= seq![
                ("update_cache"@, y),
                ("autoremove"@, y),
                ("force_apt_get"@, y),
                ("upgrade"@, y),
            ]);
        }
        r.with_parameter("update_cache", "yes").with_parameter("autoremove", "yes").with_parameter(
            "force_apt_get",
            "yes",
        ).with_parameter("upgrade", "yes")
    }

    /// The command with parameter `param_name` set to `param_value`; an empty
    /// value makes it a bare flag.
    pub fn with_parameter(self, param_name: &str, param_value: &str) -> (r: Self)
        ensures
            r@ == (AdhocView {
                parameters: with_param(self@.parameters, param_name@, param_value@),
                ..self@
            }),
    {
        let mut r = self;
        set_parameter(&mut r.parameters, param_name, param_value);
        r
    }

    /// The command with parameter `param_name` set when a value is given,
    /// else unchanged.
    pub fn with_optional_parameter(self, param_name: &str, param_value: &Option<String>) -> (r:
        Self)
        ensures
            r@ == (match param_value {
                Some(v) => AdhocView {
                    parameters: with_param(self@.parameters, param_name@, v@),
                    ..self@
                },
                None => self@,
            }),
    {
        match param_value {
            Some(v) => self.with_parameter(param_name, v.as_str()),
            None => self,
        }
    }

    /// The module the command runs.
    pub fn module(&self) -> (r: &Module)
        ensures
            r@ == self@.module,
    {
        &self.module
    }

    /// Whether the command runs with elevated privileges.
    pub fn needs_become(&self) -> (r: bool)
        ensures
            r == self@.needs_become,
    {
        self.needs_become
    }

    /// The host pattern of the command, if one was given.
    pub fn host_pattern(&self) -> (r: &Option<String>)
        ensures
            opt_view(*r) == self@.host_pattern,
    {
        &self.host_pattern
    }

    /// The parameters, in the order they were first set.
    pub fn parameters(&self) -> (r: &Vec<(String, String)>)
        ensures
            params_view(r@) == self@.parameters,
    {
        &self.parameters
    }

    /// The value of the first parameter named `name`, if there is one.
    pub fn parameter(&self, name: &str) -> (r: Option<String>)
        ensures
            match r {
                Some(v) => exists|i: int| first_named(self@.parameters, name@, i)
                    && self@.parameters[i].1 == v@,
                None => forall|i: int|
                    0 <= i < self@.parameters.len() ==> self@.parameters[i].0 != name@,
            },
    {
        let ghost ps = self@.parameters;
        let name_s = String::from_str(name);
        let mut i: usize = 0;
        while i < self.parameters.len()
            invariant
                ps == params_view(self.parameters@),
                name_s@ == name@,
                i <= ps.len(),
                forall|j: int| 0 <= j < i ==> ps[j].0 != name@,
            decreases ps.len() - i,
        {
            if self.parameters[i].0 == name_s {
                let v = self.parameters[i].1.clone();
                assert(first_named(self@.parameters, name@, i as int) && self@.parameters[i as int].1
                    == v@);
                return Some(v);
            }
            i = i + 1;
        }
        None
    }

    /// The arguments of `ansible` that run this command with `settings`.
    pub fn arguments(&self, settings: &ClusterSettings) -> (r: Vec<String>)
        ensures
            r.deep_view() == adhoc_arguments(settings.verbose, opt_view(settings.inventory), self@),
    {
        let mut args: Vec<String> = Vec::new();
        push_common_arguments(&mut args, settings);
        let ghost start = args.deep_view();
        if self.needs_become {
            push_lit(&mut args, "-K");
            push_lit(&mut args, "-b");
        }
        push_lit(&mut args, "-m");
        let encoded_params = encode_parameters(&self.parameters);
        let fragment = match &self.module {
            Module::Named(m) => {
                push_arg(&mut args, m.clone());
                encoded_params
            },
            Module::RawCommand(line) => {
                push_lit(&mut args, RAW_COMMAND_MODULE);
                join_fragments(line.as_str(), encoded_params.as_str())
            },
        };
        assert(fragment@ == action_fragment(self@));
        if !fragment.as_str().is_empty() {
            push_lit(&mut args, "-a");
            push_arg(&mut args, fragment);
        }
        match &self.host_pattern {
            Some(p) => push_arg(&mut args, p.clone()),
            None => push_lit(&mut args, ALL_HOSTS),
        }
        assert(args.deep_view() =~= adhoc_arguments(
            settings.verbose,
            opt_view(settings.inventory),
            self@,
        ));
        args
    }
}

/// `a` and `b` joined by a space; an empty one is left out.
fn join_fragments(a: &str, b: &str) -> (r: String)
    ensures
        r@ == joined(a@, b@),
{
    if a.is_empty() {
        String::from_str(b)
    } else if b.is_empty() {
        String::from_str(a)
    } else {
        proof {
            reveal_strlit(" ");
        }
        let mut r = String::from_str(a);
        r.append(" ");
        r.append(b);
        r
    }
}

} // verus!
