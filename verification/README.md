# Kaido

An assistant that teaches infrastructure operations: it explains shell
commands, classifies the risk of kubectl commands, detects errors in command
output and turns them into guidance, diagnoses common failures step by step,
and keeps an audit trail of what was run.

## Layout

- `src/` — the library, written in Verus. Verus proves each function
  against its contract (`requires` / `ensures`). The few calls into std
  and outside crates (clocks, regular expressions, lower-casing, the
  user name, directories, the terminal size) go through small trusted
  wrappers whose contracts are believed, not proved; functions whose
  result is a clock reading or the user name state nothing of it:
  - `kubectl/` risk classification, contexts, command output, translation checks
  - `mentor/` error detection, pattern guidance, the guidance boxes
  - `agent/` the state of the troubleshooting loop and root-cause diagnosis
  - `error/` known error patterns and explanations
  - `ai/` command explanations, prompts, model answers
  - `audit/` audit entries and history tables
  - `learning/` skill levels, session statistics and summaries
  - `coach/`, `mcp/` the side panel and the tools offered over MCP
  - `setup.rs` the decisions of the `kaido init` setup wizard
  - `text.rs`, `matching.rs`, `clock.rs` string functions with their
    specifications, regular expressions and clocks
- `tests/` — tests of the library on concrete values.
- `app/` — the command-line program: argument handling, the setup
  wizard's prompts and probes, files, SQLite
  databases, JSON and YAML decoding, the MCP server on standard input and
  output, and what computes with fractions.
