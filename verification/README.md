# wat

`wat` — tell me what's up: runs a set of probes of the machine (charging
power, thermal pressure, free disk space, audio output, IPv4 addresses,
tailscale, remote screen locks, pings, sshping, a speed test, iperf3) side by
side and shows one status line for each.

Layout:

- `src/` — the verified library: which checks the options select and in which
  order (`options`, `plan`), how each probe's output becomes its message
  (`probes`, `sshping`, `tailscale`), the text handling they rest on (`text`),
  and the colouring of messages (`style`, through `colored`) and the regular
  expressions (`pattern`, through `regex`).
- `app/` — the program: command-line parsing (clap), progress bars
  (indicatif), running the probe commands and reading their output
  (linereader), and reading tailscale's JSON report (serde).
- `tests/` — tests of the library on concrete values.
