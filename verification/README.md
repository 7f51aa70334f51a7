# warden

Verified core of a daemon that runs confidential-computing realms (virtual
machines) and the applications inside them.

`src/` is the library, verified with Verus:

- `disk`: layout and consistency checks of an application's GPT disk image.
- `ip`: IP addresses and networks as integers, with their textual form.
- `iptables`: the firewall plans of the NAT network and how a plan runs.
- `network`: the NAT network's setup and teardown, DHCP servers, tap devices.
- `vm`: QEMU and kvmtool command lines and the launch state of a realm's VM.
- `daemon`: where realms live on disk and the work that creates, loads and
  cleans up a realm, step by step.
- `client`, `protocol`, `shell`: the client's prompt, commands, messages and
  the outcome of an exchange with the daemon.
- `realm`, `text`, `uuids`: the realm model, text rendering, UUID text.

`app/` performs what the library decides: netlink and `iptables` calls, the
DHCP server and VM processes, disk images through `gpt`, the realm work's
steps, the client's exchanges, and option parsing.
