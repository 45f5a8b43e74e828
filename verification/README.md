# mccl_node

A node for MCCL instances: Minecraft server folders whose sessions are
coordinated by a remote service and reached through a peer-to-peer proxy.

- `src/` is the verified library (Verus). It holds the instance records and
  their menus (labels and the reading of a selected label back to an
  instance), the session protocol with the remote service, the stages of the
  peer-to-peer links and of the proxy layer, the copy-loop decisions and what a run of them passes on, the
  launch plans of the server process, and the files of a new instance.
  Random identifiers come from `nanoid`, node keys from `iroh-base`, bold text
  from `colored`, and JSON from `serde_json`, each behind a trusted item; what
  a trusted contract leaves unsaid is written in that item's doc comment.
- `app/` is the program around it: terminal prompts, HTTP requests, the iroh
  endpoints, sockets, files and processes.
- `tests/` runs the library on concrete values.
