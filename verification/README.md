# rusty

Processing of Bureau of Labor Statistics survey data files, with its logic
verified by Verus.

- `src/` is the verified library: survey configuration models, their
  validation, loading decisions and YAML layering (`config`); series,
  lookups and surveys (`model`); line-by-line reading of delimited and
  memory-mapped files (`reader`); output formats and writer selection
  (`writer`); errors, recovery, sanitization, localization and telemetry
  records (`error`); the command line (`cli`); and the string, path,
  ordering and map helpers they rest on (`text`, `paths`, `order`,
  `strmap`).
- `tests/` exercises the library on concrete values.
- `app/` is the command-line program around it: files, directories,
  environment variables, serde forms of the configuration, async reading,
  CSV and JSON writing, and the parts that hold floating-point values.
