# wifimanager

A terminal Wi-Fi manager for Linux that drives NetworkManager over D-Bus: Wi-Fi
devices in one pane, the networks they see in the other, and keys to join,
forget, rescan, toggle the radio and enable or disable a device.

## Layout

- `src/` is the library, verified with Verus. It holds everything the program
  decides:
  - `types.rs`: NetworkManager's enums and records, security read off the AP
    flags, channels and bands, SSID rendering, state-reason phrases.
  - `networks.rs`: folding the access-point list into one row per SSID, in
    display order, with the stored profiles that can join each; device order.
  - `profile.rs`: the connection profile for a first join, and the security
    groups a secret yields.
  - `app.rs`: the key-driven state machine: cursors that follow identities
    across refreshes, dialogs, the status line, and the jobs a key starts.
  - `client.rs`: the decisions inside the bus conversations: when a scan has
    finished, how an activation ends, how a stored profile is read.
  - `view.rs`: what each line of the panes and dialogs says.
  - `errors.rs`, `conf.rs`, `link.rs`, `cli.rs`, `text.rs`: the status-bar
    error line, the drop-in that keeps a device disabled, the interface names
    the kernel takes, the command line, string helpers.
  - `laws.rs`: properties of the library as a whole, proved from the contracts.
- `app/` is the program around it: the zbus client and proxies, the terminal
  loop, drawing with ratatui, the drop-in file and the ioctl that takes a link
  down.
- `tests/` runs the library on concrete cases.

## Run

```sh
wifimanager
```

There are no options beyond `--help` and `--version`; press `?` inside for the
keys. Changing anything goes through polkit, so run it from a local login
session or as root; disabling a device writes under
`/etc/NetworkManager/conf.d` and needs root.
