# omapak

The omapak submission judge grades a Flatpak submission as an artifact: does
it build, is it safe to hand to users, is it any good. Its gates are build
must pass, no critical security flag, packaging at least 2/5; everything else
is advisory and published.

`src/` is the library, verified with Verus: the report schema and verdict
rules, manifest reading, the static checks, the build and launch records, the
source digest, the judge prompt and the decisions of the judge exchange, the
legitimacy check's reading of a reply, the Markdown report, and the routing
decisions of the repo proxy. `src/laws.rs` states and proves the properties
that hold across all inputs (what can and cannot move a verdict, what the
report, prompt, digest and proxy promise).

`app/` is the command-line program around it: arguments, files, processes,
HTTP, and the serde forms of the library's types for `report.json`,
`metadata.yml` and the model's rubric.
