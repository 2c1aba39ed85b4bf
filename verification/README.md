# pods

A verified model of the objects behind the container views of a Podman
desktop client: containers, the devices and key/value pairs of a container
being created, and the container details page.

Each object is a plain Rust value with a mathematical view. Its operations
return the effects that the toolkit is to carry out (announce a property,
refresh a pod, emit a signal, send a Podman API request), and their
contracts state exactly which effects come and how the view changes.

- `src/status.rs`: container and health states, read from Podman's strings.
- `src/param.rs`: property declarations and object references.
- `src/container.rs`: the container object, its property table, updates,
  actions and inspections, and the laws they obey.
- `src/device.rs`, `src/key_val.rs`: devices and key/value pairs.
- `src/details_page.rs`: the details page, its actions and key bindings.
- `src/text.rs`: string comparison and decimal notation.
- `app/`: logging, translated labels and toast texts around the library.
