# camera_tethering

A server through which websocket clients operate a camera: they connect to it, read and change
its settings, and capture images. New JPEG files go to the clients, all other new files to a
post-processing server, whose images go to the clients in turn.

`src/` is the library, written in Verus. It holds what the server decides and computes, with
contracts that are proved:

- `websocket::scheme`: the messages and the values in them
- `websocket::connection`: how a message goes out to a client in tagged binary messages
- `camera::worker`: what is done with each message of a client, with and without a camera
- `camera::worker_laws`: what holds of that over whole runs
- `camera::camera_config`, `camera::config_update`: listing and changing the camera's settings
- `camera::connection`: which camera to connect to, and the status of a connected one
- `camera::capture`: single captures and series
- `camera::events`: passing on the events of the camera, and waiting for one
- `camera::post_processing`, `camera::post_processing_link`: new files, and the link to the
  post-processing server
- `camera::framing`, `camera::tls`: the frames on that link, and its encryption
- `text`: searching, splitting and ordering strings

Most of these are state machines. One says what it wants done (`request`), is told how that went
(`advance`), and answers with its next state and what is to be done at once. `expects` tells
whether an event is one that was asked for.

`app/` is the program around the library: it does the input and output. Besides the crates in
`Cargo.toml` it uses `rsraw_utils` and `SmartCameraTethering2_shared_types`, and it needs
libgphoto2, the web page under `assets/` and the client's certificates under `certs/`.

`tests/` runs the library on concrete values.
