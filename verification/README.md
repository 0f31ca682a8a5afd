# vm-remoting

Run a command on a configured remote target — a Hyper-V VM (via PowerShell Direct), an SSH host
or a WSL distro — and report its output. Targets live in a single `.vm-targets.json`, selected by
name.

## Layout

`src/` is the library, verified with Verus: every decision the server takes.

| Module | What it decides |
|---|---|
| `paths` | where the targets file is looked for |
| `targets` | the targets, the configuration that names them, lookup by name |
| `listing` | the listing of the configured targets |
| `plan` | program, arguments and environment for each type of target |
| `run` | running a command as a chain of steps: credential check, launch, answer |
| `output` | the report on a finished command |
| `server` | the server behind the tools `list_targets` and `run_command` |
| `error`, `text` | errors of a tool call; trimming, padding, joining, decimal numbers |

`app/` is the MCP server around it: it reads the environment and the targets file, starts
processes and talks MCP over stdio. `tests/` runs the library.

## Targets file

First match wins: `VM_TARGETS_FILE`; `.vm-targets.json` in `VM_CONFIG_DIR`; `./.vm-targets.json`
if present; `.vm-targets.json` in the per-user config directory (`%APPDATA%\vm-remoting\` on
Windows, `$XDG_CONFIG_HOME/vm-remoting/` or `~/.config/vm-remoting/` elsewhere).

```json
{
  "current": "ubuntu",
  "targets": {
    "winvm":  { "type": "hyperv", "vmName": "Win 11", "credPath": "D:\\path\\to\\winvm.xml" },
    "ec2":    { "type": "ssh", "host": "1.2.3.4", "user": "ubuntu", "key": "D:\\keys\\ec2.pem", "port": 22, "options": ["StrictHostKeyChecking=accept-new"] },
    "ubuntu": { "type": "wsl", "distro": "Ubuntu" }
  }
}
```

`current` is the active target, used when a request names none. `VM_PWSH` names the PowerShell
executable for Hyper-V targets (default `pwsh`).
