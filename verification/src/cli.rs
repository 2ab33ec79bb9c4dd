//! The command line: which mode the arguments ask for.
use vstd::prelude::*;
use crate::text::{concat2, has_prefix, owned, starts_with, str_equal};

verus! {

/// What the command line asks for.
#[derive(Debug, Clone)]
pub enum CliCommand {
    /// The catalog of auto-defend scenarios.
    AutoDefendHelp,
    /// The short list of scenarios.
    ListChecks,
    /// Evaluate (and offer to remediate) the named scenario, or "all".
    AutoDefend { target: String, scenario: String },
    /// Run the OWASP Top 10 probes against the URL.
    OwaspAudit { url: String },
    /// The general usage text.
    Usage,
}

pub enum CliView {
    AutoDefendHelp,
    ListChecks,
    AutoDefend { target: Seq<char>, scenario: Seq<char> },
    OwaspAudit { url: Seq<char> },
    Usage,
}

impl View for CliCommand {
    type V = CliView;

    open spec fn view(&self) -> CliView {
        match self {
            CliCommand::AutoDefendHelp => CliView::AutoDefendHelp,
            CliCommand::ListChecks => CliView::ListChecks,
            CliCommand::AutoDefend { target, scenario } => CliView::AutoDefend {
                target: target@,
                scenario: scenario@,
            },
            CliCommand::OwaspAudit { url } => CliView::OwaspAudit { url: url@ },
            CliCommand::Usage => CliView::Usage,
        }
    }
}

/// A parsed command line.
pub struct CliRequest {
    /// Whether the reports are in French (`-fr` or `--fr` anywhere).
    pub french: bool,
    pub command: CliCommand,
}

pub open spec fn is_french_flag(a: Seq<char>) -> bool {
    a == "-fr"@ || a == "--fr"@
}

/// The arguments without the language flags.
pub open spec fn without_flags(args: Seq<Seq<char>>) -> Seq<Seq<char>> {
    args.filter(|a: Seq<char>| !is_french_flag(a))
}

/// The target URL with "http://" put in front when it names no scheme.
pub open spec fn normalized_url(url: Seq<char>) -> Seq<char> {
    if !has_prefix(url, "http://"@) && !has_prefix(url, "https://"@) {
        "http://"@ + url
    } else {
        url
    }
}

/// The mode that the arguments (program name first) ask for, tried in this
/// order: the auto-defend catalog, the list of checks, an auto-defend run, an
/// OWASP audit, and otherwise the usage text.
pub open spec fn cli_command(args: Seq<Seq<char>>) -> CliView {
    let a = without_flags(args);
    if a.len() >= 2 && a[1] == "--auto-defend"@ && (a.len() == 2 || (a.len() >= 3 && (a[2]
        == "help"@ || a[2] == "-h"@ || a[2] == "--help"@))) {
        CliView::AutoDefendHelp
    } else if a.len() >= 2 && (a[1] == "--list-checks"@ || a[1] == "-l"@) {
        CliView::ListChecks
    } else if a.len() >= 5 && a[1] == "--auto-defend"@ && (a[3] == "-check"@ || a[3]
        == "--check"@) {
        CliView::AutoDefend { target: a[2], scenario: a[4] }
    } else if a.len() >= 3 && (a[1] == "-owasp"@ || a[1] == "--owasp"@) {
        CliView::OwaspAudit { url: normalized_url(a[2]) }
    } else {
        CliView::Usage
    }
}

/// A target URL that has been normalized is left as it is by a second
/// normalization.
pub proof fn lemma_normalized_url_stable(url: Seq<char>)
    ensures
        normalized_url(normalized_url(url)) == normalized_url(url),
{
    if !has_prefix(url, "http://"@) && !has_prefix(url, "https://"@) {
        reveal_strlit("http://");
        let n = "http://"@ + url;
        assert(n.subrange(0, 7) =~= "http://"@);
    }
}

/// The language flag may stand anywhere on the command line: putting `-fr`
/// or `--fr` at any position asks for the same mode as the line without it.
pub proof fn lemma_language_flag_anywhere(args: Seq<Seq<char>>, k: int, flag: Seq<char>)
    requires
        0 <= k <= args.len(),
        is_french_flag(flag),
    ensures
        cli_command(args.insert(k, flag)) == cli_command(args),
{
    let pred = |a: Seq<char>| !is_french_flag(a);
    let left = args.take(k);
    let right = args.skip(k);
    assert(args =~= left + right);
    assert(args.insert(k, flag) =~= left + (seq![flag] + right));
    Seq::filter_distributes_over_add(left, right, pred);
    Seq::filter_distributes_over_add(left, seq![flag] + right, pred);
    Seq::filter_distributes_over_add(seq![flag], right, pred);
    reveal_with_fuel(Seq::filter, 2);
    assert(seq![flag].filter(pred) =~= Seq::<Seq<char>>::empty());
    assert(seq![flag].filter(pred) + right.filter(pred) =~= right.filter(pred));
    assert(without_flags(args.insert(k, flag)) =~= without_flags(args));
}

pub open spec fn arg_views(args: Seq<String>) -> Seq<Seq<char>> {
    args.map_values(|a: String| a@)
}

/// Puts "http://" in front of a target that names no scheme.
pub fn normalize_target_url(url: &str) -> (r: String)
    ensures
        r@ == normalized_url(url@),
{
    if !starts_with(url, "http://") && !starts_with(url, "https://") {
        concat2("http://", url)
    } else {
        owned(url)
    }
}

fn is_flag(a: &String) -> (r: bool)
    ensures
        r == is_french_flag(a@),
{
    str_equal(a.as_str(), "-fr") || str_equal(a.as_str(), "--fr")
}

/// Reads the command line (program name first).
pub fn parse_args(args: &Vec<String>) -> (r: CliRequest)
    ensures
        r.french == (exists|i: int| 0 <= i < args@.len() && #[trigger] is_french_flag(args@[i]@)),
        r.command@ == cli_command(arg_views(args@)),
{
    let mut french = false;
    let mut clean: Vec<String> = Vec::new();
    let mut i: usize = 0;
    while i < args.len()
        invariant
            i <= args.len(),
            french == (exists|k: int| 0 <= k < i && #[trigger] is_french_flag(args@[k]@)),
            arg_views(clean@) == without_flags(arg_views(args@).take(i as int)),
        decreases args.len() - i,
    {
        proof {
            reveal_with_fuel(Seq::filter, 1);
            let v = arg_views(args@);
            assert(v.take(i + 1).drop_last() =~= v.take(i as int));
            assert(v.take(i + 1).last() == args@[i as int]@);
        }
        if is_flag(&args[i]) {
            french = true;
        } else {
            let ghost before = clean@;
            clean.push(owned(args[i].as_str()));
            proof {
                assert(arg_views(clean@) =~= arg_views(before).push(args@[i as int]@));
            }
        }
        i = i + 1;
    }
    proof {
        assert(arg_views(args@).take(args.len() as int) =~= arg_views(args@));
    }
    let ghost a = arg_views(clean@);
    let n = clean.len();
    proof {
        assert(forall|k: int| 0 <= k < n ==> #[trigger] a[k] == clean@[k]@);
    }
    let command = if n >= 2 && str_equal(clean[1].as_str(), "--auto-defend") && (n == 2 || (n
        >= 3 && (str_equal(clean[2].as_str(), "help") || str_equal(clean[2].as_str(), "-h")
        || str_equal(clean[2].as_str(), "--help")))) {
        CliCommand::AutoDefendHelp
    } else if n >= 2 && (str_equal(clean[1].as_str(), "--list-checks") || str_equal(
        clean[1].as_str(),
        "-l",
    )) {
        CliCommand::ListChecks
    } else if n >= 5 && str_equal(clean[1].as_str(), "--auto-defend") && (str_equal(
        clean[3].as_str(),
        "-check",
    ) || str_equal(clean[3].as_str(), "--check")) {
        CliCommand::AutoDefend {
            target: owned(clean[2].as_str()),
            scenario: owned(clean[4].as_str()),
        }
    } else if n >= 3 && (str_equal(clean[1].as_str(), "-owasp") || str_equal(
        clean[1].as_str(),
        "--owasp",
    )) {
        CliCommand::OwaspAudit { url: normalize_target_url(clean[2].as_str()) }
    } else {
        CliCommand::Usage
    };
    CliRequest { french, command }
}

} // verus!

verus! {

/// Whether the arguments (language flags removed) ask for the catalog:
/// `--auto-defend` alone, or followed by `help`, `-h` or `--help`.
pub open spec fn catalog_asked(a: Seq<Seq<char>>) -> bool {
    a.len() >= 2 && a[1] == "--auto-defend"@ && (a.len() == 2 || a[2] == "help"@ || a[2] == "-h"@
        || a[2] == "--help"@)
}

/// The mode that a command line asks for, read without the language flags
/// (`-fr`, `--fr`), which may stand anywhere: `--auto-defend` alone or
/// followed by `help`, `-h` or `--help` shows the catalog; `--list-checks` or
/// `-l` lists the checks; `--auto-defend <target> -check|--check <scenario>`
/// runs scenarios; `-owasp|--owasp <url>` audits the URL, with "http://" put
/// in front when it names no scheme; and a line that starts with none of these
/// words gets the usage text.
pub proof fn lemma_cli_modes(args: Seq<Seq<char>>)
    ensures
        without_flags(args) == args.filter(|x: Seq<char>| x != "-fr"@ && x != "--fr"@),
        catalog_asked(without_flags(args)) ==> cli_command(args) == CliView::AutoDefendHelp,
        ({
            let a = without_flags(args);
            (a.len() >= 2 && (a[1] == "--list-checks"@ || a[1] == "-l"@)) ==> cli_command(args)
                == CliView::ListChecks
        }),
        ({
            let a = without_flags(args);
            (!catalog_asked(a) && a.len() >= 5 && a[1] == "--auto-defend"@ && (a[3] == "-check"@
                || a[3] == "--check"@)) ==> cli_command(args) == (CliView::AutoDefend {
                target: a[2],
                scenario: a[4],
            })
        }),
        ({
            let a = without_flags(args);
            (a.len() >= 3 && (a[1] == "-owasp"@ || a[1] == "--owasp"@)) ==> cli_command(args) == (
            CliView::OwaspAudit {
                url: if has_prefix(a[2], "http://"@) || has_prefix(a[2], "https://"@) {
                    a[2]
                } else {
                    "http://"@ + a[2]
                },
            })
        }),
        ({
            let a = without_flags(args);
            (a.len() < 2 || (a[1] != "--auto-defend"@ && a[1] != "--list-checks"@ && a[1] != "-l"@
                && a[1] != "-owasp"@ && a[1] != "--owasp"@)) ==> cli_command(args) == CliView::Usage
        }),
{
    reveal_strlit("--auto-defend");
    reveal_strlit("--list-checks");
    reveal_strlit("-l");
    reveal_strlit("-owasp");
    reveal_strlit("--owasp");
    assert("--list-checks"@[2] != "--auto-defend"@[2]);
    assert("--list-checks"@ != "--auto-defend"@);
    assert("-l"@.len() == 2);
    assert("--auto-defend"@.len() == 13);
    assert("-owasp"@.len() == 6);
    assert("--owasp"@.len() == 7);
    assert("--list-checks"@.len() == 13);
    let p1 = |a: Seq<char>| !is_french_flag(a);
    let p2 = |x: Seq<char>| x != "-fr"@ && x != "--fr"@;
    assert(p1 =~= p2);
}

} // verus!
