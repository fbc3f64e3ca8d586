# nexus

The verified core of a Windows overlay and add-on host. What a native call
found is handed in as a plain value, what follows from it is decided here, and
every decision carries a contract that Verus proves.

| Module         | What it decides                                                        |
|----------------|------------------------------------------------------------------------|
| `hook`         | per-object COM shadow vtables: layouts, slots, installation, restoration |
| `dxgi`         | interception of factories and swap chains, selection of the rendered chain |
| `host`         | add-on definitions, interface tables, load and unload lifecycle          |
| `imgui`        | ownership of the one Dear ImGui context, window messages, gamepads       |
| `d3d11`        | draw plans, renderer resources, capture and restoration of the pipeline  |
| `gw2`          | the Mumble link: mapping, snapshots, identity, derived telemetry         |
| `inline_hooks` | the registry of inline hooks and the suspension of other threads         |
| `render`       | plain values that describe swap chains and their sessions                |
| `ordered`      | walks over maps in ascending order of their keys                         |
| `text`         | building and decoding text                                               |
| `float_bits`   | comparing and rounding single-precision numbers by their bit patterns    |

Public proof functions named `law_*` state what holds of several functions
together: what every operation keeps, what one call undoes, what stays as it
was.

`app/` holds the native side: calls into Win32, COM, Direct3D and Dear ImGui,
and the types that carry attributes of other crates. `tests/` runs the library
on concrete values.
