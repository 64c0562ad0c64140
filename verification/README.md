# qvirt

Management of virtual machines on an Android host, with the rules written in Verus.

- `src/` is the library. `qvirtservice` holds the virtual machine service: the
  configuration, the virtual machines with their clients, the boot sequence and the
  events of the kernel. `qvirtservice_ext` holds the service for machines that are watched
  after their launch. `native_test` and `payload` hold the client and the payload of the
  test virtual machine. `json`, `keyed`, `status`, `text` and `uevent` are shared by them.
- `app/` is the programs: processes, sockets, files, binder objects and system properties.
  It asks the library what to do next, does it, and tells the library what came of it.
- `tests/` runs the library on concrete values.

What has an effect outside the library is a value in it: a property to write, a client to
tell, a process to fork, a time to wait. A client is known by a number and a virtual machine
by its place, and `app/` keeps the objects that belong to them.
