# speech

The verified core of a binding to Apple's Speech framework.

`src/` is the library, checked by Verus. It holds what configures the
macOS 26 analyzer pipeline and what decodes its answers:

- `options`: the closed vocabularies (presets, transcription, reporting and
  result-attribute options, detector sensitivity, analyzer priority and model
  retention) with the wire name of each value;
- `analyzer`: transcriber, detector and analyzer options, module descriptors
  and the analyzer itself;
- `context`: the analysis context, whose contextual strings and user data are
  maps kept in ascending tag order (`TagMap`);
- `payload`: the configuration payloads sent to the native bridge;
- `output`: matching the result blocks the bridge reports to their modules;
- `attributed`: the byte range covered by selected spans of a transcript;
- `task`: task states, task errors and the decoding of delegate events;
- `error`: the crate's errors and how a native status becomes one;
- `text`: decimal rendering, string order and concatenation.

`app/` is the native side: the bridge declarations, the JSON forms of the
payloads, the result types whose time values are floating point, and the
calls into the framework.
