# rustweather

Meteorological calculations (wind, temperature, pressure, humidity).

- `src/` is the verified library. For every calculation it holds the error
  type and the decisions the calculation makes, taken from the outcomes of
  the tests it runs on its inputs: which failure is reported, in which order
  the checks come, and which formula branch applies. That covers the input
  checks of every calculation that has any; the routing of apparent
  temperature (air temperature, wind chill or heat index), of heat index
  (Steadman estimate or Rothfusz regression with its humidity adjustments)
  and of relative humidity from a dew point; the 24 km visibility cap; the
  rules that turn the failure of one calculation into the failure of one
  built on it (mixing ratio and relative humidity from vapor pressures keep
  distinct failures distinct; wind shear reports any wind-component failure
  as an invalid component); and the wet-bulb search: when it stops, when it
  gives up after 10 000 guesses, which way it steps and when its step size
  shrinks.
- `app/` holds the floating-point formulas and the float tests whose
  outcomes feed those decisions. It returns the library's error types and
  follows its decisions.
- `tests/` exercises the library.
