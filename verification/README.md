# channel_runner

A CI job runner: it connects to its server over a websocket, identifies
itself, and runs the steps of the jobs it is handed inside a Docker
container.

`src/` is the verified library (Verus). It holds what the runner decides:

- `websocket` – the messages, the server address, which frames are read,
  the heartbeat and identification messages;
- `jobs` – the answer to each message, and the plan of a job (container
  name, image and release from the pipeline or the backend defaults, one
  command per step);
- `config` – the configuration types and the per-backend defaults table;
- `backends` – the container and command settings sent to Docker, the
  arguments of LXC's create call, and the `Backend` trait;
- `docker` – the ping check and the image-build plan;
- `runner`, `events`, `cli` – the runner state, the job model, the command
  line;
- `text` – splitting a command line on spaces and decimal numbers, with
  their laws.

`app/` is the program around it: reading `Config.toml`, the websocket
tasks, the calls to Docker and liblxc, and the main loop.
