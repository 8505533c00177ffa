# clover_viewer

An image viewer with a screenshot tool. The decisions and data handling of the
application live in the verified library under `src/`; `app/` wires them to the
window, the file system and the operating system.

## Library (`src/`)

- `hotkey_parser`, `hotkeys`: reading hotkey texts such as `Ctrl+Alt+S`, the bindings
  they name, and which hotkey presses of a frame become actions.
- `history`: the screenshot session state with its bounded undo and redo stacks, and the
  laws that undo and redo invert each other.
- `shape`: the drawn shape, whose history copy keeps everything but its render caches.
- `screenshot_feature`: the life cycle of a screenshot session across frames.
- `navigator`: the sorted list of images of a folder and moving through it.
- `viewer`: how the viewer reacts to cached, failed and finished image loads.
- `config`: default settings and the debounced, rate-limited saving of the settings.
- `lang`, `texts`: the interface languages and their texts.
- `image_decode`, `image_meta`: decoding image files (JPEG through `zune-jpeg`, others
  through `image`), turning them upright by their EXIF orientation, thumbnails, and the
  camera data of images.
- `platform`, `magnifier`, `device`, `capture`, `launch`, `mode`: smaller pieces of
  window, pixel and start-up logic.

Calls into outside crates (`sys-locale`, `num_cpus`, `kamadak-exif`, `zune-jpeg`, `image`) and into parts of
`std` that Verus does not specify stand behind small trusted wrappers, each documented
with what its contract claims.

## Application (`app/`)

`main` sets up logging, the single-instance guard and the command line, then runs the
`eframe` window, which drives the library: the global hotkey, image loading on thread
pools (reading the files and uploading the decoded pixels), the settings file, and the
rendering in `egui`.
