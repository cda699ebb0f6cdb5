# kiwirecorder

Records stations that KiwiSDR receivers pick up, one sound file for each.

`src/` is the core, written and proved in Verus: the commands to a receiver,
the decoding of what it sends, the state of a client and how it reacts, the
opening of a sound socket, the check of the configuration, the course of a
recording, and the table of those that still run. It does no input or output.

- `text.rs`: numerals and small text helpers
- `outside.rs`: the calls into other crates, with the contracts they are given
- `sdr/`: settings, stations and their commands
- `sdr/kiwi/`: frames, announcements, addresses, clients and how they open
- `recorder.rs`: a configured receiver and its recorder
- `monitor.rs`: all configured receivers together
- `laws.rs`: what holds across the parts

`app/` is the program around it: it reads `config.toml`, talks to the receivers
over the network and writes the sound files.
