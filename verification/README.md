# mistboard

The verified core of a desktop board that shows the time, the weather and a memo on the
Windows desktop.

- `src/` is the library, verified with Verus: weather-code labels, trimming and decimal
  numerals, the saved city, the coordinate cache and location answers, the weather report, the
  steps of a weather request, the memo, the autostart switch and the window's placement.
- `app/` is the Tauri shell around it: files, web requests, the registry, the window, and the
  floating-point work (rounding the temperature and the wind speed, naming the wind strength).
  It runs the library's step functions, performing each step's outside work.
- `tests/` exercises the library on concrete values.
