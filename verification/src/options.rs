//! The command-line options of `wat` and how they select the checks.

use vstd::prelude::*;

verus! {

/// A shell for which completions can be printed.
#[derive(Clone, Copy, Debug, PartialEq, Eq, Structural)]
pub enum CompletionShell {
    Bash,
    Elvish,
    Fish,
    PowerShell,
    Zsh,
}

/// wat — tell me what's up
#[derive(Clone, Copy, Debug, PartialEq, Eq, Structural)]
pub struct WatArgs {
    /// Include a default selection of checks.
    pub default: bool,
    pub system: bool,
    pub ping: bool,
    pub sshping: bool,
    pub network_quality: bool,
    pub network_quality_separately: bool,
    pub iperf3: bool,
    /// Not included by default.
    pub iperf3_tailscale: bool,
    /// Print completions for the given shell (instead of generating any icons).
    pub completions: Option<CompletionShell>,
}

impl WatArgs {
    /// Whether the checks that belong to no option of their own run.
    pub open spec fn spec_include_misc(&self) -> bool {
        self.default
    }

    pub open spec fn spec_include_ping(&self) -> bool {
        self.default || self.ping
    }

    pub open spec fn spec_include_system(&self) -> bool {
        self.default || self.system
    }

    pub open spec fn spec_include_sshping(&self) -> bool {
        self.default || self.sshping
    }

    pub open spec fn spec_include_network_quality(&self) -> bool {
        self.default || self.network_quality
    }

    pub open spec fn spec_include_iperf3(&self) -> bool {
        self.default || self.iperf3
    }

    pub open spec fn spec_include_iperf3_tailscale(&self) -> bool {
        self.iperf3_tailscale
    }

    /// Whether the options select any check at all.
    pub open spec fn spec_any_selected(&self) -> bool {
        ||| self.spec_include_misc()
        ||| self.spec_include_ping()
        ||| self.spec_include_system()
        ||| self.spec_include_sshping()
        ||| self.spec_include_network_quality()
        ||| self.spec_include_iperf3()
        ||| self.spec_include_iperf3_tailscale()
    }

    /// Whether the miscellaneous checks (screen locks) run: only by default.
    #[verifier::when_used_as_spec(spec_include_misc)]
    pub fn include_misc(&self) -> (b: bool)
        ensures
            b == self.spec_include_misc(),
    {
        self.default
    }

    /// Whether the ping checks run.
    #[verifier::when_used_as_spec(spec_include_ping)]
    pub fn include_ping(&self) -> (b: bool)
        ensures
            b == self.spec_include_ping(),
    {
        self.default || self.ping
    }

    /// Whether the system checks (power, thermal, disk, audio, addresses,
    /// tailscale) run.
    #[verifier::when_used_as_spec(spec_include_system)]
    pub fn include_system(&self) -> (b: bool)
        ensures
            b == self.spec_include_system(),
    {
        self.default || self.system
    }

    /// Whether the sshping checks run.
    #[verifier::when_used_as_spec(spec_include_sshping)]
    pub fn include_sshping(&self) -> (b: bool)
        ensures
            b == self.spec_include_sshping(),
    {
        self.default || self.sshping
    }

    /// Whether the network quality (speed test) check runs.
    #[verifier::when_used_as_spec(spec_include_network_quality)]
    pub fn include_network_quality(&self) -> (b: bool)
        ensures
            b == self.spec_include_network_quality(),
    {
        self.default || self.network_quality
    }

    /// Whether the iperf3 check over the local network runs.
    #[verifier::when_used_as_spec(spec_include_iperf3)]
    pub fn include_iperf3(&self) -> (b: bool)
        ensures
            b == self.spec_include_iperf3(),
    {
        self.default || self.iperf3
    }

    /// Whether the iperf3 check over tailscale runs: only when asked for.
    #[verifier::when_used_as_spec(spec_include_iperf3_tailscale)]
    pub fn include_iperf3_tailscale(&self) -> (b: bool)
        ensures
            b == self.spec_include_iperf3_tailscale(),
    {
        self.iperf3_tailscale
    }

    /// Whether the options select any check at all.
    #[verifier::when_used_as_spec(spec_any_selected)]
    pub fn was_any_non_default_specified(&self) -> (b: bool)
        ensures
            b == self.spec_any_selected(),
    {
        self.include_misc() || self.include_ping() || self.include_system()
            || self.include_sshping() || self.include_network_quality() || self.include_iperf3()
            || self.include_iperf3_tailscale()
    }
}

/// What the program does with the options it was given.
#[derive(Clone, Copy, Debug, PartialEq, Eq, Structural)]
pub enum OptionsOutcome {
    /// Print the completions for this shell, and stop.
    PrintCompletions(CompletionShell),
    /// Run the checks these options select; `defaulted` tells that no check
    /// was asked for, so the default selection was taken (and announced).
    Run { args: WatArgs, defaulted: bool },
}

/// The options as they are resolved: with the default selection where none
/// was asked for.
pub open spec fn resolved(args: WatArgs) -> WatArgs {
    if args.spec_any_selected() {
        args
    } else {
        WatArgs { default: true, ..args }
    }
}

/// What the parsed options ask the program to do: print completions if a
/// shell was given; otherwise run, with the default selection of checks when
/// the options select none.
pub fn resolve_options(args: WatArgs) -> (r: OptionsOutcome)
    ensures
        match args.completions {
            Some(shell) => r == OptionsOutcome::PrintCompletions(shell),
            None => r == OptionsOutcome::Run {
                args: resolved(args),
                defaulted: !args.spec_any_selected(),
            },
        },
{
    if let Some(shell) = args.completions {
        return OptionsOutcome::PrintCompletions(shell);
    }
    if !args.was_any_non_default_specified() {
        OptionsOutcome::Run { args: WatArgs { default: true, ..args }, defaulted: true }
    } else {
        OptionsOutcome::Run { args, defaulted: false }
    }
}

/// With the default selection, every check runs but the one over tailscale,
/// which runs only when asked for.
pub proof fn lemma_default_selection(args: WatArgs)
    requires
        args.default,
    ensures
        args.spec_include_misc(),
        args.spec_include_ping(),
        args.spec_include_system(),
        args.spec_include_sshping(),
        args.spec_include_network_quality(),
        args.spec_include_iperf3(),
        args.spec_include_iperf3_tailscale() == args.iperf3_tailscale,
{
}

/// Resolved options always select some check, and resolving them again
/// changes nothing.
pub proof fn lemma_resolved_selects(args: WatArgs)
    ensures
        resolved(args).spec_any_selected(),
        resolved(resolved(args)) == resolved(args),
{
}

/// Options that select some check are kept as they are.
pub proof fn lemma_selection_kept(args: WatArgs)
    requires
        args.spec_any_selected(),
    ensures
        resolved(args) == args,
{
}

/// The screen-lock checks run only under the default selection: no other
/// option (`--system` included) selects them.
pub proof fn lemma_misc_only_by_default(args: WatArgs)
    ensures
        args.spec_include_misc() == args.default,
        args.spec_include_system() == (args.default || args.system),
        args.spec_include_ping() == (args.default || args.ping),
        args.spec_include_sshping() == (args.default || args.sshping),
        args.spec_include_network_quality() == (args.default || args.network_quality),
        args.spec_include_iperf3() == (args.default || args.iperf3),
        args.spec_include_iperf3_tailscale() == args.iperf3_tailscale,
{
}

} // verus!
