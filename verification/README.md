# DBH Insights Helper

A small program that lets the DBH Insights website read from VMware vCenter. It listens on
127.0.0.1, checks who asks and what is asked, and passes read-only REST and SOAP requests on to the
configured vCenters with sessions of its own.

- `src/` is the library, verified with Verus: the settings and their rules (`config`, `ids`,
  `settings`), what the local server answers (`server`, `route`, `listener`), which SOAP bodies are let
  through (`soap`, `xml`), and how a vCenter is asked and its answers are read (`request`, `session`,
  `call`, `vcenter`, `probe`). The public proof functions whose names begin with `law_` state what holds of it
  as a whole.
- `app/` is the program around it: the HTTP server, the vCenter client, the OS keychain, the settings
  file and the settings window.
- `tests/` runs the library on examples.
