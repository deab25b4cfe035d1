# foxess_dashboard

A home energy monitor for a FoxESS inverter, as a verified library and the
programs around it.

- `src/` is the library, verified with Verus:
  - `decimal`: reads decimal text (numbers from the FoxESS cloud, in kW or %)
    exactly into thousandths ("milli" units: watts for power), rounding half
    away from zero.
  - `format`: writes integers, fixed-point milli values and hexadecimal.
  - `json`: the JSON document the library reads, numbers kept as their text.
  - `foxess`: the signed real-time query (MD5 signature over path, key and time).
  - `snapshot`: the snapshot a payload describes, telemetry lookup.
  - `backend`: the cached snapshot the backend serves, refresh logging, health.
  - `view`: the web page's decisions (power text, flow lines, advice) and its
    state machine that follows the backend.
  - `dashboard`: the desktop dashboard's metrics and plot series.
- `app/` is ordinary Rust: the axum backend (`main`), the dioxus web page
  (`main web`) and the eframe desktop dashboard (`main dashboard`). It moves
  between floating-point kW on the wire and the library's integer units.
  `eframe` and `egui_plot` are not in `Cargo.toml`, which keeps the
  dependency tree small (the two would add well over a hundred packages);
  `app/desktop.rs` builds once they are added. The web page names its images by path, since this crate ships
  no image files for `asset!` to embed.
- `tests/` runs the library on concrete values.
