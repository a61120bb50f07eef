# onx

`onx` is a command-line client for the Onspring API. This crate is laid out
in two parts:

- `src/` is the library, verified with Verus. It holds the error model and
  its JSON rendering (`error`, `output`, `text`), the command-line model
  (`cli`), the rules that check what the user passes in (`validation`), the
  planning of each API request from a parsed command (`commands`) and the
  settling of file uploads (`upload`).
- `app/` is the program around it: clap parsing, the asynchronous Onspring
  client, reading request bodies and files, and writing JSON answers.

A command runs in steps: the library plans it and refuses bad arguments
before any request is made; the program reads what the plan asks for, sends
the request and prints the answer; failures of the client are mapped back to
the library's errors and exit codes (0 informational, 1 runtime, 2 usage).
