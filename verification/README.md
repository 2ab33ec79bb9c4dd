# Hunter

A purple-team command-line tool: it probes a web application for the OWASP
Top 10 weaknesses, checks fourteen host hardening controls (antivirus,
firewall, AMSI, LSA protection, ...), offers to remediate the failed ones and
verifies the fix, and runs plugin tests described in JSON files. Reports are
in English or, with `-fr`/`--fr`, in French.

## Layout

- `src/` — the library, verified with Verus. It holds the decisions; the
  program performs the network, process, file and terminal work they call for:
  - `owasp.rs`, `owasp_text.rs`: the request of each OWASP control, the
    verdict drawn from the answer, the rate-limiting probe's state machine and
    the audit summary.
  - `scenarios.rs`, `scenario_text.rs`: the fourteen host scenarios — what to
    observe on each platform, how an observation is judged, how a failed
    control is remediated, and which scenarios a `-check` argument selects.
  - `session.rs`: the auto-defend run as a state machine — scenarios are
    evaluated in turn, each failed one is proposed for remediation, a
    remediation runs only after the operator accepts it, and a successful one
    is re-checked once.
  - `plugins.rs`: judging file-system and HTTP plugin tests, ordering them.
  - `cli.rs`: the command line.
  - `cards.rs`, `wrap.rs`: the rows of the boxed report cards, whose columns
    add up to the card's width, and the greedy word wrapping of their texts.
  - `text.rs`: string helpers and the few calls into std that Verus has no
    specification for.
- `app/` — the program: argument reading, HTTP requests (reqwest/tokio),
  running host commands, file work, the prompt, JSON loading (serde) and the
  coloured drawing of the cards.
- `tests/` — tests of the library on concrete values.
