# gforce_node

Node agent for Gforce on-prem infrastructure: enrolls a machine, reports
heartbeats, keeps a WebSocket connection to the control plane, and installs
itself as a system service.

- `src/` is the verified library. It holds the agent's decisions:
  configuration defaults and URLs, protocol messages, heartbeat judgement and
  loop control, reconnect backoff and frame handling, service install /
  uninstall plans, sandbox containment, the command allow-list, git command
  lines, and enrollment results. Each public function has a contract; the
  `law_*` proof functions state properties that span calls.
- `app/` is the program around it: command-line parsing, file and network
  I/O, process spawning, serialization, and system metrics. One binary is
  built; started under the name `gforce-node-daemon` (the name the service
  plans run) it is the agent daemon, otherwise the `gforce-node` tool.
- `tests/` runs the library on concrete values.
