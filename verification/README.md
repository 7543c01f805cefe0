# raymarcher

A signed-distance-field ray marcher whose control logic is verified with Verus.

* `src/` is the verified library: the step and bounce budget of a marched ray
  (`march`), the plans for shading a surface hit and for the indirect rays it
  sends out (`shading`), the layout of the rendered pixel columns in the saved
  image (`picture`, through the `image` crate), and the frame file names
  (`naming`).
* `app/` is the renderer program around it: the floating-point vector maths,
  the distance fields of the scene, lighting, the camera, the parallel render
  loop and the file output.
* `tests/` exercises the library on concrete values.
