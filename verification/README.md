# hustoa-vm

A small libvirt virtual machine maintenance tool: it creates machines from
cloud images with cloud-init, keeps a pool of IPv6 addresses published
through NDP proxying, saves and restores running machines, forwards host
ports to machines through a libvirt hook, and updates itself.

## Layout

- `src/` is the verified library (Verus). It decides everything the tool
  does: machine names, paths and addresses, EUI-64 addresses, the IPv6 pool
  and its routing commands, the distribution table, the cloud-init
  documents' contents, the machine list and its edits, the hook's
  `iptables` steps, the reading of DHCP lease tables, and the command lines
  that every subcommand runs.
- `app/` is the command line program around it: argument parsing, the
  configuration and data files, YAML and TOML rendering, and running the
  planned commands.
- `tests/` exercises the library on concrete values.
