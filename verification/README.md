# smited-watch

Wraps a command, passes its output through byte for byte, and fires haptic
sensations on the smited daemon when a line of it matches a configured pattern.

```sh
smited-watch -- npm run dev
```

The decisions are a library, written in Rust and verified with Verus. The
program around it does the input and output. It runs on Linux and macOS.

## Layout

`src/` is the verified library:

| Module | What it decides |
|--------|-----------------|
| `config` | the schema, its defaults, what is refused, where the file lives |
| `scan`, `scan_laws` | which lines the output consists of, and which patterns match them |
| `debounce` | whether a match fires or is dropped |
| `trigger` | the requests that are sent |
| `client` | on which connection a request is sent, and when that is given up |
| `exit` | what is fired when the command has ended |
| `launch`, `cli` | mode, settings and messages at the start |
| `wrap::tee` | the order in which output reaches the terminal and the scanner |
| `wrap::pipeline` | from output bytes to requests |
| `wrap::run`, `wrap::run_laws` | the course of a run, from its start to its exit code |
| `wrap::signal`, `wrap::spawn`, `wrap::stdin`, `wrap::status` | signals, terminals, exit statuses |
| `buffer`, `decode`, `regexes`, `time`, `text`, `error` | what the above rest on |

Proof functions whose names begin with `law_` state what holds of the library as
a whole. What is believed of other crates rather than proved is declared in
`buffer`, `decode`, `regexes`, `time` and `wrap::status`.

`tests/` runs the library with the crates that it depends on. `app/` is the
program: arguments, files, processes, terminals and the network.
