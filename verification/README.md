# flow_wm

The core of a scrolling tiling window manager for Windows, written in Verus: what the
program decides and computes is in `src/`, with contracts that Verus proves; what talks to
the system is in `app/`.

| Module | What it holds |
|---|---|
| `common` | rectangles, invisible window borders, errors |
| `config` | settings with their defaults and validity, colours, directories, learned window rules, creating, loading and checking the files |
| `borders` | pixels of border rings, cached bitmaps, the border of one window, overlays and their manager |
| `animation` | which windows move from where to where, which request replaces or waits for which, frame timing |
| `autostart` | starting at login, the key binding script and its process |
| `cli` | what each command sends to the daemon and says about the answer |
| `paths`, `text` | paths and messages as text |

Laws that span several functions stand beside them as public proof functions: a ring
composited from a cached corner tile equals the ring that is rasterised pixel by pixel,
recolouring a ring equals rendering it in the new colour, setting up a directory replaces
no file, each application keeps the choice that was recorded last, and what the window system
is told to move last for an animation that plays to its end are the places it was to end at.

The animator speaks to the window system through a trait, `WindowBackend`, whose methods say which
call each of them adds to a history. What the animator asks and moves is stated over that history.

Floating point stays outside the library. How much of a corner pixel a ring covers, and
where a window is before its movement ends, are handed to the library as functions, and
the contracts say what holds for every such function.
