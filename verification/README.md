# z_color_picker

A colour-gradient picker: control points in HSV space joined by a spline, presets of
those points saved as JSON, and export of picked colours and screen regions to the
clipboard.

- `src/` is the library, verified with Verus: counting functions, pixel-buffer
  conversions and the vertical flip, colour text formats and PPM text, the control
  points and their tangents, presets and the picker's state (which point is edited,
  which preset is selected), the options window's actions, the screen region to read
  back, and the application's life cycle. Floating-point colour values are type
  parameters there.
- `app/` is the egui program around it: drawing, floating-point colour and spline
  arithmetic, files, the clipboard and the logger.
- `tests/` runs the library on concrete values.
