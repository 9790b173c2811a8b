# kuvpn

KUVPN connects to the Koç University VPN: it logs in to the Microsoft sign-in
pages in a browser, takes the DSID cookie the gateway sets, and starts
OpenConnect with it through `sudo`, `sudo-rs` or `pkexec`.

## Layout

- `src/` — the library, verified with Verus. Every decision of a session is
  here with its contract:
  - `session.rs` — the session's status machine, the `Level|message` log
    lines and their parser, reconnecting, the tunnel watchdog, the end of a
    session and the escalation-password dialogue;
  - `dsid.rs` — the pages of the sign-in flow, what each recognised page
    means, and when the automation resets the page or gives up;
  - `openconnect.rs`, `openconnect/unix.rs` — finding openconnect and the
    escalation tool, the openconnect command line, the vpnc-script, and
    reading `pgrep`, `operstate` and `ifconfig` output;
  - `history.rs`, `diagnostics.rs`, `calendar.rs` — connection history
    entries and the date arithmetic behind their timestamps;
  - `cli.rs`, `gui.rs`, `theme.rs` — what the front ends show for each state;
  - `utils.rs`, `text.rs`, `error.rs`, `dsid_cache.rs` — shared pieces.
- `tests/` — tests of the library on concrete values.
- `app/` — the command-line program: arguments, terminal prompts, the
  browser, processes and files. The decisions it acts on (which page handler
  runs, which cookie is the DSID, how the spinner reacts, whether the tunnel
  is up, when to reconnect) come from the library; what is left in `app/` is
  waiting, reading and writing.
