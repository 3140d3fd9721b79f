# freshview

FreshView runs the terminal text editor Fresh inside a native egui window and
opens PDF and image files in viewer tabs rendered with MuPDF.

- `src/` is the verified library (Verus): keyboard and mouse events carried from
  the GUI toolkit to the terminal editor (`input`), terminal colors (`color`),
  painting a terminal row in runs of equal style (`cells`), the RGBA layout of
  rendered pages (`pixels`), the page and zoom state of a viewer (`viewer`),
  which files go to the viewer (`paths`), the editor-side state of the GUI
  (`editor`), the remote-control protocol and hardware figures (`rpc`), and
  text helpers (`text`).
- `app/` is the program around it: the eframe window, the egui dock, the
  embedded editor, MuPDF, the background threads and sockets, and the
  conversions between the toolkits' types and the library's.
- `tests/` exercises the library.
