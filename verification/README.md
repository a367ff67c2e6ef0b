# engine_builder

Builds a test environment for a codebase with the help of a language model:
it picks the files worth reading, asks which of them matter for a problem,
ranks them, has setup, lint and test scripts and a Dockerfile written, builds
the image and runs the scripts in containers, repairing the Dockerfile and
the test script when a build or a test run fails. A chat mode lets the model
run these steps as tools.

## Layout

- `src/` — the library, verified with Verus. It holds the rules of every
  stage: how replies of the model are read (file patterns, relevance
  decisions, rankings, scripts, Dockerfiles, failure diagnoses), which files
  are left out of a scan, the tree picture of a codebase, the retry rule of
  builds and test runs, the trajectory layout, the overview document, the
  chat's prompts, tool calls and input line, token counting and the tracing
  settings. Calls into `regex`, `glob`, `serde_json`, `uuid`, `chrono` and
  `ignore` go through small trusted wrappers in `src/bindings/` and next to
  their callers; their contracts say what is assumed of those crates.
- `app/` — the program around the library: command line, configuration
  file, logging, HTTP clients of the model providers and of Langfuse, file
  and process I/O, the terminal user interface.
- `tests/` — tests of the library.

## Default model

The model used where the configuration names none is read from the
`ENGINE_BUILDER_DEFAULT_MODEL` environment variable; set it, or name a
`model` in the configuration file.
