# radar_egui

The operator console of a RoboMaster radar station: it talks to the referee
system over the DJI serial protocol, bridges SDR and lidar data over ZMQ,
starts and supervises the radar, SDR and laser component processes, and
opens point clouds in a viewer.

The logic is a Verus-verified library (`src/`):

- `serial/` — frame checks (CRC8/CRC16), frame building, the receive-side
  parser and the choice of frames to transmit for each notification;
- `shared_data.rs`, `wire.rs`, `robot_interaction_id.rs` — the referee
  records and their byte encodings;
- `zmq/` — what SDR and lidar messages do to the shared state, and what the
  publisher answers;
- `services/` — the process actor (a state machine from command, call
  outcome, timer, exit or probe to next state and action), its laws, and
  the mapping of the operator's choices to commands;
- `pointcloud/` — PCD header decisions, packed colours and the load lifecycle;
- `widgets/`, `workspace.rs`, `logging.rs`, `text.rs` — what the interface
  shows and logs;
- `seconds.rs` — an elapsed time in seconds with three decimals exactly as
  its double shows it, computed in integers.

`app/` holds what cannot be verified: the egui interface, the serial port
and ZMQ sockets, child processes, the tokio loop that runs the process
actor, PCD file reading, and file logging.
