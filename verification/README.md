# guardian_agent_linux

The decision logic of the Guardian agent for Linux, verified with Verus.

- `src/` is the verified library:
  - `commands`: the checks on the account a command names, which command an action
    string names, and a state machine that decides each step of a command between
    the calls it makes (time accounting, domain policy, device policy, overlays, ...).
  - `schedule`: allowed-hours payloads, weekly time limits, account-name rules.
  - `sessions`: which login sessions are tracked and what a sign-in, sign-out, sleep
    or shutdown signal sets off.
  - `users`: the regular accounts listed in the account database.
  - `updater`: where a release is fetched from, which archive member is the agent,
    and how the checksum is read.
  - `runtime`: the agent runtime's account list and startup details.
  - `keyed`, `text`: a text-keyed map and character helpers.
- `app/` is the program around it: process entry, D-Bus listeners, downloads, file
  replacement, and the calls that each command step asks for.
- `tests/` exercises the library on concrete values.
