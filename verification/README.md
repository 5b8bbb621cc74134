# gpudash

A terminal dashboard for an NVIDIA GPU. It shows memory, utilisation, fan speed,
power and clock, a thermometer, and a map of the streaming multiprocessors. It
redraws with fresh NVML readings at least once a second, and after every key
event, and quits on `q` followed by Enter.

- `src/` is the verified library (Verus). It holds the view model: every colour,
  gauge percentage, line of text and cell of the thermometer and the SM grid,
  plus the key handling and the refresh timing. Each public function has a
  contract, and the `law_*` proof functions state the properties that hold
  across inputs and calls.
  - `gpu`: one reading
  - `tone`: colour thresholds
  - `thermometer`, `sm_grid`, `panels`: the panels, as lines of styled segments
  - `layout`: the display area, where each panel goes (inside the display,
    without overlap), and the inside of a bordered panel
  - `input`: the command line state machine and the tick timing
  - `text`, `view`: numerals, repeated glyphs, segments and lines
- `app/main.rs` is the program: it reads NVML, sets up the terminal, works out
  the figures the dashboard computes in floating point (memory percentage and
  its colour, power percentage, °F, the thermometer's fill, tick rows and row
  temperatures, how many SMs to light), converts the library's lines into
  ratatui widgets, and runs the event loop.
- `tests/` exercises the library on concrete values.
