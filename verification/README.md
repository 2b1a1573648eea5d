# multimeter_gui

The verified core of a desktop hardware monitor (a dashboard of sensor
readings, a tools page that runs stress tests and plots temperatures and
power live, and an actions page that launches external tools).

- `src/` is the library, verified with Verus:
  - `clock` — spans of time in nanoseconds with the range of `Duration`;
  - `numtext` — decimal text of integers (`{}` and `{:02}`);
  - `sensor_data` — disk records, `fmt_text`, `fmt_rpm` and `fmt_bytes`,
    whose contract is an integer model of the float conversion, division and
    one-decimal rounding of the size text; that this model agrees with std's
    float formatting is shown by the tests in `tests/text_format.rs`, not by
    a proof;
  - `app` — the navigation tabs;
  - `views::tools` — stress-test runs, the monitor plot's clock and sampling,
    the tools page's selection, and `format_duration`;
  - `views::card` — which cards of the card panel share a row;
  - `views::dashboard` — the titles of the disk rows;
  - `views::actions` — the cached tool list and the tool button names;
  - `views::settings` — the settings page.
- `app/` is the interface around it: the egui/eframe windows and drawing, the
  queries to the monitoring engine, the stress-test processes, localized text,
  and the floating-point readings and plot geometry.
- `tests/` runs the library on concrete values.
