# geon

A general-relativity ray tracer: parameterise a spacetime metric, integrate
null geodesics through it, colour each pixel by where its ray went, and
measure the curvature and energy conditions of the metric.

- `src/` is the verified core (Verus): how a ray's integration ends
  (`geodesic::trace`, `metric::termination_at`), how a pixel is classified
  and rays are counted (`render`), the starfield hash and sky pattern cells
  (`sky`), and the bookkeeping of the shape-search training runs (`training`).
- `app/` is the floating-point engine and the programs around it: metrics,
  Christoffel symbols and curvature, the camera tetrad, RK4, sky colours,
  the parallel render loop, PNG output and the command line.
- `tests/` exercises the library on concrete values.
